use dslite_b4::address::{IpAddress, Ipv4Address, Ipv6Address};
use dslite_b4::config::AftrAddress;
use dslite_b4::dns::{finish_lookup, pick_ipv6, resolve, DnsError, Resolution};

#[test]
fn literal_aftr_needs_no_lookup() {
    let ip = Ipv6Address { bits: 42 };
    assert!(matches!(resolve(&AftrAddress::Ip(ip)), Resolution::Resolved(x) if x == ip));
}

#[test]
fn named_aftr_is_looked_up_on_port_zero() {
    match resolve(&AftrAddress::Fqdn("aftr.example".to_string())) {
        Resolution::Lookup { name, query } => {
            assert_eq!(name, "aftr.example");
            assert_eq!(query, "aftr.example:0");
        }
        Resolution::Resolved(_) => panic!("a name must be looked up"),
    }
}

#[test]
fn first_ipv6_address_is_picked() {
    let a = Ipv6Address { bits: 7 };
    let b = Ipv6Address { bits: 9 };
    let found = vec![
        IpAddress::V4(Ipv4Address::new(1, 2, 3, 4)),
        IpAddress::V6(a),
        IpAddress::V6(b),
    ];
    assert_eq!(pick_ipv6(&found), Some(a));
    assert_eq!(pick_ipv6(&vec![IpAddress::V4(Ipv4Address::new(1, 2, 3, 4))]), None);
    assert_eq!(pick_ipv6(&vec![]), None);
}

#[test]
fn lookup_without_ipv6_fails() {
    let found = vec![IpAddress::V4(Ipv4Address::new(1, 2, 3, 4))];
    let res = finish_lookup(&"aftr.example".to_string(), Ok(found));
    match res {
        Err(e @ DnsError::NoIpv6(_)) => {
            assert_eq!(e.message(), "no IPv6 address found for aftr.example")
        }
        _ => panic!("expected NoIpv6"),
    }
}

#[test]
fn failed_lookup_is_reported() {
    let res = finish_lookup(&"x".to_string(), Err("failed to lookup address".to_string()));
    match res {
        Err(e @ DnsError::LookupFailed(_)) => {
            assert_eq!(e.message(), "resolving AFTR address: failed to lookup address")
        }
        _ => panic!("expected LookupFailed"),
    }
}

#[test]
fn lookup_with_ipv6_succeeds() {
    let a = Ipv6Address { bits: 0xfe80 };
    let res = finish_lookup(&"x".to_string(), Ok(vec![IpAddress::V6(a)]));
    assert!(matches!(res, Ok(x) if x == a));
}
