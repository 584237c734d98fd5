//! The client's configuration: the tunnel's endpoints, the AFTR (the tunnel's
//! far end, given as an address or a name), and the health-check interval,
//! together with the defaults that apply where a field is left out.
use crate::address::{Ipv4Address, Ipv6Address, ipv4_value};
use vstd::prelude::*;

verus! {

/// The `[tunnel]` section: the interface name and the addresses on its near side.
#[derive(Debug)]
pub struct TunnelConfig {
    pub name: String,
    pub local_v6: Ipv6Address,
    pub local_v4: Ipv4Address,
}

/// Where the AFTR is: an IPv6 address given literally, or a name to resolve.
#[derive(Debug)]
pub enum AftrAddress {
    Ip(Ipv6Address),
    Fqdn(String),
}

/// The `[aftr]` section.
#[derive(Debug)]
pub struct AftrConfig {
    pub address: AftrAddress,
}

/// The `[health]` section.
#[derive(Debug, Clone, Copy, PartialEq, Eq)]
pub struct HealthConfig {
    pub interval_secs: u64,
}

/// The whole configuration file.
#[derive(Debug)]
pub struct Config {
    pub tunnel: TunnelConfig,
    pub aftr: AftrConfig,
    pub health: HealthConfig,
}

/// The tunnel interface name used when none is configured.
pub open spec fn spec_default_tunnel_name() -> Seq<char> {
    seq!['d', 's', 'l', 'i', 't', 'e', '0']
}

/// The health-check interval, in seconds, used when none is configured.
pub open spec fn spec_default_health_interval() -> u64 {
    30
}

/// The tunnel's local IPv4 address used when none is configured: `192.0.0.2`,
/// the B4 element's address from the DS-Lite well-known range (RFC 6333).
pub open spec fn spec_default_tunnel_local_v4() -> Ipv4Address {
    Ipv4Address { bits: ipv4_value(192, 0, 0, 2) as u32 }
}

/// The default tunnel interface name, `dslite0`.
pub fn default_tunnel_name() -> (name: String)
    ensures
        name@ == spec_default_tunnel_name(),
{
    proof {
        reveal_strlit("dslite0");
    }
    String::from_str("dslite0")
}

/// The default health-check interval: 30 seconds.
pub fn default_health_interval() -> (secs: u64)
    ensures
        secs == spec_default_health_interval(),
{
    30
}

/// The default local IPv4 address of the tunnel: `192.0.0.2`.
pub fn default_tunnel_local_v4() -> (addr: Ipv4Address)
    ensures
        addr == spec_default_tunnel_local_v4(),
{
    Ipv4Address::new(192, 0, 0, 2)
}

impl TunnelConfig {
    /// The `[tunnel]` section with the defaults filled in where a field was left out.
    pub fn with_defaults(name: Option<String>, local_v6: Ipv6Address, local_v4: Option<Ipv4Address>) -> (cfg: TunnelConfig)
        ensures
            cfg.name@ == (match name {
                Some(n) => n@,
                None => spec_default_tunnel_name(),
            }),
            cfg.local_v6 == local_v6,
            cfg.local_v4 == (match local_v4 {
                Some(a) => a,
                None => spec_default_tunnel_local_v4(),
            }),
    {
        let name = match name {
            Some(n) => n,
            None => default_tunnel_name(),
        };
        let local_v4 = match local_v4 {
            Some(a) => a,
            None => default_tunnel_local_v4(),
        };
        TunnelConfig { name, local_v6, local_v4 }
    }
}

impl HealthConfig {
    /// The `[health]` section with the default interval where none was given.
    pub fn with_defaults(interval_secs: Option<u64>) -> (cfg: HealthConfig)
        ensures
            cfg.interval_secs == (match interval_secs {
                Some(s) => s,
                None => spec_default_health_interval(),
            }),
    {
        match interval_secs {
            Some(s) => HealthConfig { interval_secs: s },
            None => HealthConfig { interval_secs: default_health_interval() },
        }
    }
}

impl AftrAddress {
    /// Classifies the configured AFTR text. `parsed` is what reading `value` as an
    /// IPv6 address in its textual form gave: the address, or `None` where
    /// `value` is not one. An address becomes `Ip`; any other text is kept, as
    /// it was written, as a name to resolve.
    pub fn from_parsed(value: String, parsed: Option<Ipv6Address>) -> (addr: AftrAddress)
        ensures
            match parsed {
                Some(ip) => addr == AftrAddress::Ip(ip),
                None => addr matches AftrAddress::Fqdn(name) && name@ == value@,
            },
    {
        match parsed {
            Some(ip) => AftrAddress::Ip(ip),
            None => AftrAddress::Fqdn(value),
        }
    }
}

} // verus!
