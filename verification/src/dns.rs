//! Resolution of the configured AFTR address to the IPv6 address that the
//! tunnel's far end is given.
use crate::address::{IpAddress, Ipv6Address};
use crate::config::AftrAddress;
use vstd::prelude::*;

verus! {

/// Why the AFTR address could not be resolved.
#[derive(Debug)]
pub enum DnsError {
    /// The name lookup itself failed; the text describes the failure.
    LookupFailed(String),
    /// The name resolved, but to no IPv6 address; the text is the name.
    NoIpv6(String),
}

/// What the resolver must still do for a configured AFTR address.
#[derive(Debug)]
pub enum Resolution {
    /// The address was given literally: nothing to look up.
    Resolved(Ipv6Address),
    /// The name must be looked up; `query` is the host-and-port text handed to
    /// the system resolver (the name, then the port `:0`).
    Lookup { name: String, query: String },
}

impl DnsError {
    /// The error's human-readable text.
    pub open spec fn spec_message(&self) -> Seq<char> {
        match self {
            DnsError::LookupFailed(e) => "resolving AFTR address: "@ + e@,
            DnsError::NoIpv6(name) => "no IPv6 address found for "@ + name@,
        }
    }

    /// The error's human-readable text: `resolving AFTR address: <cause>` or
    /// `no IPv6 address found for <name>`.
    pub fn message(&self) -> (text: String)
        ensures
            text@ == self.spec_message(),
    {
        match self {
            DnsError::LookupFailed(e) => {
                let mut text = String::from_str("resolving AFTR address: ");
                text.append(e.as_str());
                text
            },
            DnsError::NoIpv6(name) => {
                let mut text = String::from_str("no IPv6 address found for ");
                text.append(name.as_str());
                text
            },
        }
    }
}

/// The first IPv6 address of `addrs`, in order, if there is one.
pub open spec fn first_ipv6(addrs: Seq<IpAddress>) -> Option<Ipv6Address>
    decreases addrs.len(),
{
    if addrs.len() == 0 {
        None
    } else {
        match addrs[0] {
            IpAddress::V6(v6) => Some(v6),
            IpAddress::V4(_) => first_ipv6(addrs.drop_first()),
        }
    }
}

/// The host-and-port text under which the name `name` is looked up.
pub open spec fn lookup_query(name: Seq<char>) -> Seq<char> {
    name + ":0"@
}

/// First step of resolving the AFTR: a literal address is the answer, a name is
/// to be looked up.
pub fn resolve(address: &AftrAddress) -> (res: Resolution)
    ensures
        match address {
            AftrAddress::Ip(ip) => res == Resolution::Resolved(*ip),
            AftrAddress::Fqdn(n) => res matches Resolution::Lookup { name, query } && name@ == n@
                && query@ == lookup_query(n@),
        },
{
    match address {
        AftrAddress::Ip(ip) => Resolution::Resolved(*ip),
        AftrAddress::Fqdn(n) => {
            let mut query = n.clone();
            query.append(":0");
            Resolution::Lookup { name: n.clone(), query }
        },
    }
}

/// Picks the first IPv6 address out of the addresses the lookup gave, in the
/// order it gave them.
pub fn pick_ipv6(addrs: &Vec<IpAddress>) -> (res: Option<Ipv6Address>)
    ensures
        res == first_ipv6(addrs@),
        res is Some ==> exists|i: int| is_first_ipv6_at(addrs@, i, res->0),
        res is None ==> forall|i: int| 0 <= i < addrs@.len() ==> (#[trigger] addrs@[i]) is V4,
{
    let mut i: usize = 0;
    assert(addrs@.skip(0) =~= addrs@);
    while i < addrs.len()
        invariant
            i <= addrs.len(),
            first_ipv6(addrs@) == first_ipv6(addrs@.skip(i as int)),
            forall|j: int| 0 <= j < i ==> (#[trigger] addrs@[j]) is V4,
        decreases addrs.len() - i,
    {
        assert(addrs@.skip(i as int)[0] == addrs@[i as int]);
        match addrs[i] {
            IpAddress::V6(v6) => {
                let res = Some(v6);
                assert(is_first_ipv6_at(addrs@, i as int, res->0));
                return res;
            },
            IpAddress::V4(_) => {
                assert(addrs@.skip(i as int).drop_first() =~= addrs@.skip(i + 1));
            },
        }
        i = i + 1;
    }
    assert(addrs@.skip(i as int).len() == 0);
    None
}

/// Last step of resolving a name: `lookup` is what the system resolver gave for
/// the query, the addresses it found in order or the text of its failure.
pub fn finish_lookup(name: &String, lookup: Result<Vec<IpAddress>, String>) -> (res: Result<Ipv6Address, DnsError>)
    ensures
        match lookup {
            Err(e) => res matches Err(DnsError::LookupFailed(m)) && m@ == e@,
            Ok(addrs) => match first_ipv6(addrs@) {
                Some(v6) => res == Ok::<Ipv6Address, DnsError>(v6),
                None => res matches Err(DnsError::NoIpv6(m)) && m@ == name@,
            },
        },
        lookup is Ok && res is Ok ==> exists|i: int| is_first_ipv6_at(lookup->Ok_0@, i, res->Ok_0),
        lookup is Ok && res is Err ==> forall|i: int|
            0 <= i < lookup->Ok_0@.len() ==> (#[trigger] lookup->Ok_0@[i]) is V4,
{
    match lookup {
        Err(e) => Err(DnsError::LookupFailed(e)),
        Ok(addrs) => {
            let picked = pick_ipv6(&addrs);
            match picked {
                Some(v6) => {
                    let res: Result<Ipv6Address, DnsError> = Ok(v6);
                    assert(exists|i: int| is_first_ipv6_at(addrs@, i, picked->0));
                    assert(res->Ok_0 == picked->0);
                    res
                },
                None => Err(DnsError::NoIpv6(name.clone())),
            }
        },
    }
}

/// Whether `addrs[i]` is the first IPv6 address of `addrs` and equals `a`: every
/// address before it is IPv4.
pub open spec fn is_first_ipv6_at(addrs: Seq<IpAddress>, i: int, a: Ipv6Address) -> bool {
    &&& 0 <= i < addrs.len()
    &&& addrs[i] == IpAddress::V6(a)
    &&& forall|j: int| 0 <= j < i ==> (#[trigger] addrs[j]) is V4
}

/// The address picked out of a lookup is the first IPv6 one in the order given,
/// whatever follows it; there is none exactly when every address is IPv4. The
/// index of the address picked is returned.
pub proof fn lemma_first_ipv6_is_the_first(addrs: Seq<IpAddress>) -> (index: int)
    ensures
        first_ipv6(addrs) is Some ==> is_first_ipv6_at(addrs, index, first_ipv6(addrs)->0),
        first_ipv6(addrs) is None ==> forall|i: int| 0 <= i < addrs.len() ==> (#[trigger] addrs[i]) is V4,
    decreases addrs.len(),
{
    if addrs.len() == 0 {
        0
    } else {
        match addrs[0] {
            IpAddress::V6(v6) => 0,
            IpAddress::V4(_) => {
                let rest = addrs.drop_first();
                let k = lemma_first_ipv6_is_the_first(rest);
                assert(first_ipv6(addrs) == first_ipv6(rest));
                assert forall|j: int| 0 <= j < k + 1 && 0 < j < addrs.len() implies addrs[j] == rest[j - 1] by {}
                if first_ipv6(rest) is None {
                    assert forall|i: int| 0 <= i < addrs.len() implies (#[trigger] addrs[i]) is V4 by {
                        if i > 0 {
                            assert(addrs[i] == rest[i - 1]);
                        }
                    }
                } else {
                    assert forall|j: int| 0 <= j < k + 1 implies (#[trigger] addrs[j]) is V4 by {
                        if j > 0 {
                            assert(addrs[j] == rest[j - 1]);
                        }
                    }
                }
                k + 1
            },
        }
    }
}

/// An IPv6 address at the head of a lookup's answer is the one picked, whatever
/// follows it; an IPv4 address at the head is passed over.
pub proof fn lemma_first_ipv6_of_head(a: IpAddress, rest: Seq<IpAddress>)
    ensures
        a matches IpAddress::V6(v6) ==> first_ipv6(seq![a] + rest) == Some(v6),
        a is V4 ==> first_ipv6(seq![a] + rest) == first_ipv6(rest),
{
    let addrs = seq![a] + rest;
    assert(addrs[0] == a);
    assert(addrs.drop_first() =~= rest);
}

} // verus!
