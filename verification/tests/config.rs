use dslite_b4::address::{Ipv4Address, Ipv6Address};
use dslite_b4::config::{
    default_health_interval, default_tunnel_local_v4, default_tunnel_name, AftrAddress,
    HealthConfig, TunnelConfig,
};

#[test]
fn default_tunnel_name_is_dslite0() {
    assert_eq!(default_tunnel_name(), "dslite0");
}

#[test]
fn default_health_interval_is_thirty_seconds() {
    assert_eq!(default_health_interval(), 30);
}

#[test]
fn default_local_v4_is_192_0_0_2() {
    assert_eq!(default_tunnel_local_v4(), Ipv4Address { bits: 0xC000_0002 });
    assert_eq!(default_tunnel_local_v4(), Ipv4Address::new(192, 0, 0, 2));
}

#[test]
fn ipv4_address_from_octets() {
    assert_eq!(Ipv4Address::new(10, 1, 2, 3).bits, 0x0A01_0203);
    assert_eq!(Ipv4Address::new(255, 255, 255, 255).bits, u32::MAX);
}

#[test]
fn tunnel_config_fills_missing_fields() {
    let v6 = Ipv6Address { bits: 0x2001_0db8_0000_0000_0000_0000_0000_0001 };
    let cfg = TunnelConfig::with_defaults(None, v6, None);
    assert_eq!(cfg.name, "dslite0");
    assert_eq!(cfg.local_v6, v6);
    assert_eq!(cfg.local_v4, Ipv4Address::new(192, 0, 0, 2));
}

#[test]
fn tunnel_config_keeps_given_fields() {
    let v6 = Ipv6Address { bits: 1 };
    let v4 = Ipv4Address::new(192, 0, 0, 9);
    let cfg = TunnelConfig::with_defaults(Some("tun7".to_string()), v6, Some(v4));
    assert_eq!(cfg.name, "tun7");
    assert_eq!(cfg.local_v4, v4);
}

#[test]
fn health_config_defaults() {
    assert_eq!(HealthConfig::with_defaults(None).interval_secs, 30);
    assert_eq!(HealthConfig::with_defaults(Some(5)).interval_secs, 5);
}

#[test]
fn aftr_literal_address_is_ip() {
    let ip = Ipv6Address { bits: 0x2001_0db8_0000_0000_0000_0000_0000_00aa };
    let addr = AftrAddress::from_parsed("2001:db8::aa".to_string(), Some(ip));
    assert!(matches!(addr, AftrAddress::Ip(x) if x == ip));
}

#[test]
fn aftr_other_text_is_a_name() {
    let addr = AftrAddress::from_parsed("aftr.example.net".to_string(), None);
    assert!(matches!(addr, AftrAddress::Fqdn(ref n) if n == "aftr.example.net"));
}
