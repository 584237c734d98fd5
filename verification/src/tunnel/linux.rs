//! The tunnel on Linux: an `ip6tnl` link carrying IPv4 in IPv6, configured over
//! rtnetlink.
//!
//! Each procedure below issues netlink requests one at a time. A request is
//! answered with `NetlinkReply::Done`, carrying the link found where the request
//! was a lookup by name (`None` for any other request, or where no link of that
//! name exists), or with `NetlinkReply::Failed` and the failure's text.
use crate::address::{Ipv4Address, Ipv6Address};
use crate::tunnel::{Step, StepView, Trace, TunnelError, TunnelErrorView, run};
use vstd::prelude::*;

verus! {

/// The MTU of the tunnel link: the IPv6 minimum, so that encapsulated packets
/// are never fragmented on the IPv6 path.
pub const TUNNEL_MTU: u32 = 1280;

/// The prefix length with which the local IPv4 address is assigned.
pub const LOCAL_V4_PREFIX_LEN: u8 = 32;

/// The `IFF_UP` bit of a link's flags.
pub const IFF_UP: u32 = 1;

/// The tunnel as configured on a Linux host.
#[derive(Debug)]
pub struct LinuxBackend {
    pub name: String,
    pub local_v6: Ipv6Address,
    pub remote_v6: Ipv6Address,
    pub local_v4: Ipv4Address,
}

/// A `LinuxBackend` with its name as a sequence of characters.
pub struct LinuxBackendView {
    pub name: Seq<char>,
    pub local_v6: Ipv6Address,
    pub remote_v6: Ipv6Address,
    pub local_v4: Ipv4Address,
}

impl View for LinuxBackend {
    type V = LinuxBackendView;

    open spec fn view(&self) -> LinuxBackendView {
        LinuxBackendView {
            name: self.name@,
            local_v6: self.local_v6,
            remote_v6: self.remote_v6,
            local_v4: self.local_v4,
        }
    }
}

/// The kind of link the tunnel is.
#[derive(Clone, Copy, Debug, PartialEq, Eq)]
pub enum LinkKind {
    /// An IPv6 tunnel (`ip6tnl`).
    Ip6Tnl,
}

/// The scope of a route.
#[derive(Clone, Copy, Debug, PartialEq, Eq)]
pub enum RouteScope {
    /// The destination is directly reachable on the link.
    Link,
}

/// The destination of the default route, `0.0.0.0`, taken with prefix length 0.
pub open spec fn default_route_destination() -> Ipv4Address {
    Ipv4Address { bits: 0 }
}

/// The payload a tunnel link carries.
#[derive(Clone, Copy, Debug, PartialEq, Eq)]
pub enum TunnelProtocol {
    /// IPv4 packets (IP protocol 4, IP-in-IP).
    IpIp,
}

/// The description of the `ip6tnl` link to create.
#[derive(Debug)]
pub struct TunnelLink {
    pub kind: LinkKind,
    pub name: String,
    pub local: Ipv6Address,
    pub remote: Ipv6Address,
    pub protocol: TunnelProtocol,
    /// Whether the tunnel ignores the encapsulation limit option
    /// (`IP6_TNL_F_IGN_ENCAP_LIMIT`).
    pub ignore_encap_limit: bool,
    pub mtu: u32,
    /// Whether the link is brought up as it is created.
    pub up: bool,
}

/// A `TunnelLink` with its name as a sequence of characters.
pub struct TunnelLinkView {
    pub kind: LinkKind,
    pub name: Seq<char>,
    pub local: Ipv6Address,
    pub remote: Ipv6Address,
    pub protocol: TunnelProtocol,
    pub ignore_encap_limit: bool,
    pub mtu: u32,
    pub up: bool,
}

impl View for TunnelLink {
    type V = TunnelLinkView;

    open spec fn view(&self) -> TunnelLinkView {
        TunnelLinkView {
            kind: self.kind,
            name: self.name@,
            local: self.local,
            remote: self.remote,
            protocol: self.protocol,
            ignore_encap_limit: self.ignore_encap_limit,
            mtu: self.mtu,
            up: self.up,
        }
    }
}

/// A netlink request of a procedure.
#[derive(Debug)]
pub enum NetlinkRequest {
    /// Open a netlink connection.
    OpenHandle,
    /// Create the tunnel link.
    AddLink(TunnelLink),
    /// Look up the link of this name.
    FindLink(String),
    /// Assign an IPv4 address to the link of this index.
    AddAddress { index: u32, address: Ipv4Address, prefix_len: u8 },
    /// Add the IPv4 route to `destination/prefix_len`, with no gateway, of this
    /// scope, through the link of this index.
    AddRoute { index: u32, destination: Ipv4Address, prefix_len: u8, scope: RouteScope },
    /// Delete the link of this index.
    DeleteLink { index: u32 },
}

/// A `NetlinkRequest` over the views of its parts.
pub enum NetlinkRequestView {
    OpenHandle,
    AddLink(TunnelLinkView),
    FindLink(Seq<char>),
    AddAddress { index: u32, address: Ipv4Address, prefix_len: u8 },
    AddRoute { index: u32, destination: Ipv4Address, prefix_len: u8, scope: RouteScope },
    DeleteLink { index: u32 },
}

impl View for NetlinkRequest {
    type V = NetlinkRequestView;

    open spec fn view(&self) -> NetlinkRequestView {
        match self {
            NetlinkRequest::OpenHandle => NetlinkRequestView::OpenHandle,
            NetlinkRequest::AddLink(l) => NetlinkRequestView::AddLink(l@),
            NetlinkRequest::FindLink(n) => NetlinkRequestView::FindLink(n@),
            NetlinkRequest::AddAddress { index, address, prefix_len } => NetlinkRequestView::AddAddress {
                index: *index,
                address: *address,
                prefix_len: *prefix_len,
            },
            NetlinkRequest::AddRoute { index, destination, prefix_len, scope } => NetlinkRequestView::AddRoute {
                index: *index,
                destination: *destination,
                prefix_len: *prefix_len,
                scope: *scope,
            },
            NetlinkRequest::DeleteLink { index } => NetlinkRequestView::DeleteLink { index: *index },
        }
    }
}

/// A link as a lookup by name finds it: its index and its flags.
#[derive(Clone, Copy, Debug, PartialEq, Eq)]
pub struct LinkInfo {
    pub index: u32,
    pub flags: u32,
}

/// The answer to a netlink request.
#[derive(Debug)]
pub enum NetlinkReply {
    Done(Option<LinkInfo>),
    Failed(String),
}

/// A `NetlinkReply` with its failure text as a sequence of characters.
pub enum NetlinkReplyView {
    Done(Option<LinkInfo>),
    Failed(Seq<char>),
}

impl View for NetlinkReply {
    type V = NetlinkReplyView;

    open spec fn view(&self) -> NetlinkReplyView {
        match self {
            NetlinkReply::Done(l) => NetlinkReplyView::Done(*l),
            NetlinkReply::Failed(e) => NetlinkReplyView::Failed(e@),
        }
    }
}

/// Where bringing the tunnel up stands: the request that is outstanding.
#[derive(Clone, Copy, Debug, PartialEq, Eq)]
pub enum LinuxSetupStage {
    OpeningHandle,
    AddingLink,
    FindingLink,
    AddingAddress(u32),
    AddingRoute(u32),
}

/// Where tearing the tunnel down stands.
#[derive(Clone, Copy, Debug, PartialEq, Eq)]
pub enum LinuxTeardownStage {
    OpeningHandle,
    FindingLink,
    DeletingLink,
}

/// Where the query of the tunnel's state stands.
#[derive(Clone, Copy, Debug, PartialEq, Eq)]
pub enum LinuxStatusStage {
    OpeningHandle,
    FindingLink,
}

/// The text of the failure when the link is missing right after its creation.
pub open spec fn missing_after_creation(name: Seq<char>) -> Seq<char> {
    "interface "@ + name + " not found after creation"@
}

/// The text of the failure when the link to delete is missing.
pub open spec fn missing_link(name: Seq<char>) -> Seq<char> {
    "interface "@ + name + " not found"@
}

impl LinuxBackendView {
    /// The link that bringing the tunnel up creates.
    pub open spec fn tunnel_link(self) -> TunnelLinkView {
        TunnelLinkView {
            kind: LinkKind::Ip6Tnl,
            name: self.name,
            local: self.local_v6,
            remote: self.remote_v6,
            protocol: TunnelProtocol::IpIp,
            ignore_encap_limit: true,
            mtu: TUNNEL_MTU,
            up: true,
        }
    }

    /// Bringing the tunnel up: open a connection, create the link, look its index
    /// up, assign the local IPv4 address, add the default route through it.
    pub open spec fn setup_next(self, stage: LinuxSetupStage, reply: NetlinkReplyView) -> StepView<
        LinuxSetupStage,
        NetlinkRequestView,
        (),
    > {
        match reply {
            NetlinkReplyView::Failed(e) => StepView::Finished(
                Err(
                    match stage {
                        LinuxSetupStage::AddingAddress(_) => TunnelErrorView::AddressFailed(e),
                        LinuxSetupStage::AddingRoute(_) => TunnelErrorView::RouteFailed(e),
                        _ => TunnelErrorView::CreationFailed(e),
                    },
                ),
            ),
            NetlinkReplyView::Done(found) => match stage {
                LinuxSetupStage::OpeningHandle => StepView::Continue(
                    LinuxSetupStage::AddingLink,
                    NetlinkRequestView::AddLink(self.tunnel_link()),
                ),
                LinuxSetupStage::AddingLink => StepView::Continue(
                    LinuxSetupStage::FindingLink,
                    NetlinkRequestView::FindLink(self.name),
                ),
                LinuxSetupStage::FindingLink => match found {
                    Some(link) => StepView::Continue(
                        LinuxSetupStage::AddingAddress(link.index),
                        NetlinkRequestView::AddAddress {
                            index: link.index,
                            address: self.local_v4,
                            prefix_len: LOCAL_V4_PREFIX_LEN,
                        },
                    ),
                    None => StepView::Finished(
                        Err(TunnelErrorView::CreationFailed(missing_after_creation(self.name))),
                    ),
                },
                LinuxSetupStage::AddingAddress(index) => StepView::Continue(
                    LinuxSetupStage::AddingRoute(index),
                    NetlinkRequestView::AddRoute {
                        index,
                        destination: default_route_destination(),
                        prefix_len: 0,
                        scope: RouteScope::Link,
                    },
                ),
                LinuxSetupStage::AddingRoute(_) => StepView::Finished(Ok(())),
            },
        }
    }

    /// Tearing the tunnel down: open a connection, look the link up by name,
    /// delete it.
    pub open spec fn teardown_next(self, stage: LinuxTeardownStage, reply: NetlinkReplyView) -> StepView<
        LinuxTeardownStage,
        NetlinkRequestView,
        (),
    > {
        match reply {
            NetlinkReplyView::Failed(e) => StepView::Finished(
                Err(
                    match stage {
                        LinuxTeardownStage::OpeningHandle => TunnelErrorView::CreationFailed(e),
                        _ => TunnelErrorView::DestroyFailed(e),
                    },
                ),
            ),
            NetlinkReplyView::Done(found) => match stage {
                LinuxTeardownStage::OpeningHandle => StepView::Continue(
                    LinuxTeardownStage::FindingLink,
                    NetlinkRequestView::FindLink(self.name),
                ),
                LinuxTeardownStage::FindingLink => match found {
                    Some(link) => StepView::Continue(
                        LinuxTeardownStage::DeletingLink,
                        NetlinkRequestView::DeleteLink { index: link.index },
                    ),
                    None => StepView::Finished(
                        Err(TunnelErrorView::DestroyFailed(missing_link(self.name))),
                    ),
                },
                LinuxTeardownStage::DeletingLink => StepView::Finished(Ok(())),
            },
        }
    }

    /// Querying whether the tunnel is up: open a connection, look the link up by
    /// name; a missing link is down.
    pub open spec fn status_next(self, stage: LinuxStatusStage, reply: NetlinkReplyView) -> StepView<
        LinuxStatusStage,
        NetlinkRequestView,
        bool,
    > {
        match reply {
            NetlinkReplyView::Failed(e) => StepView::Finished(
                Err(
                    match stage {
                        LinuxStatusStage::OpeningHandle => TunnelErrorView::CreationFailed(e),
                        LinuxStatusStage::FindingLink => TunnelErrorView::StatusCheckFailed(e),
                    },
                ),
            ),
            NetlinkReplyView::Done(found) => match stage {
                LinuxStatusStage::OpeningHandle => StepView::Continue(
                    LinuxStatusStage::FindingLink,
                    NetlinkRequestView::FindLink(self.name),
                ),
                LinuxStatusStage::FindingLink => match found {
                    Some(link) => StepView::Finished(Ok(link.flags & IFF_UP != 0)),
                    None => StepView::Finished(Ok(false)),
                },
            },
        }
    }
}

impl LinuxBackend {
    /// The tunnel named `name` between `local_v6` and `remote_v6`, whose near
    /// side is given `local_v4`.
    pub fn new(name: String, local_v6: Ipv6Address, remote_v6: Ipv6Address, local_v4: Ipv4Address) -> (b: LinuxBackend)
        ensures
            b@ == (LinuxBackendView { name: name@, local_v6, remote_v6, local_v4 }),
    {
        LinuxBackend { name, local_v6, remote_v6, local_v4 }
    }

    /// The link that bringing the tunnel up creates.
    pub fn tunnel_link(&self) -> (link: TunnelLink)
        ensures
            link@ == self@.tunnel_link(),
            link.name@ == self.name@,
            link.local == self.local_v6,
            link.remote == self.remote_v6,
            link.kind == LinkKind::Ip6Tnl,
            link.protocol == TunnelProtocol::IpIp,
            link.ignore_encap_limit,
            link.mtu == TUNNEL_MTU,
            link.up,
    {
        proof {
            lemma_tunnel_link_is_the_configured_tunnel(self@);
        }
        TunnelLink {
            kind: LinkKind::Ip6Tnl,
            name: self.name.clone(),
            local: self.local_v6,
            remote: self.remote_v6,
            protocol: TunnelProtocol::IpIp,
            ignore_encap_limit: true,
            mtu: TUNNEL_MTU,
            up: true,
        }
    }

    /// The first request of bringing the tunnel up.
    pub fn begin_setup(&self) -> (first: (LinuxSetupStage, NetlinkRequest))
        ensures
            first.0 == LinuxSetupStage::OpeningHandle,
            first.1@ == NetlinkRequestView::OpenHandle,
    {
        (LinuxSetupStage::OpeningHandle, NetlinkRequest::OpenHandle)
    }

    /// The step of bringing the tunnel up that follows `reply` in `stage`.
    pub fn continue_setup(&self, stage: LinuxSetupStage, reply: NetlinkReply) -> (step: Step<
        LinuxSetupStage,
        NetlinkRequest,
        (),
    >)
        ensures
            step@ == self@.setup_next(stage, reply@),
    {
        match reply {
            NetlinkReply::Failed(e) => Step::Finished(
                Err(
                    match stage {
                        LinuxSetupStage::AddingAddress(_) => TunnelError::AddressFailed(e),
                        LinuxSetupStage::AddingRoute(_) => TunnelError::RouteFailed(e),
                        _ => TunnelError::CreationFailed(e),
                    },
                ),
            ),
            NetlinkReply::Done(found) => match stage {
                LinuxSetupStage::OpeningHandle => Step::Continue(
                    LinuxSetupStage::AddingLink,
                    NetlinkRequest::AddLink(self.tunnel_link()),
                ),
                LinuxSetupStage::AddingLink => Step::Continue(
                    LinuxSetupStage::FindingLink,
                    NetlinkRequest::FindLink(self.name.clone()),
                ),
                LinuxSetupStage::FindingLink => match found {
                    Some(link) => Step::Continue(
                        LinuxSetupStage::AddingAddress(link.index),
                        NetlinkRequest::AddAddress {
                            index: link.index,
                            address: self.local_v4,
                            prefix_len: LOCAL_V4_PREFIX_LEN,
                        },
                    ),
                    None => {
                        let mut text = String::from_str("interface ");
                        text.append(self.name.as_str());
                        text.append(" not found after creation");
                        Step::Finished(Err(TunnelError::CreationFailed(text)))
                    },
                },
                LinuxSetupStage::AddingAddress(index) => Step::Continue(
                    LinuxSetupStage::AddingRoute(index),
                    NetlinkRequest::AddRoute {
                        index,
                        destination: Ipv4Address { bits: 0 },
                        prefix_len: 0,
                        scope: RouteScope::Link,
                    },
                ),
                LinuxSetupStage::AddingRoute(_) => Step::Finished(Ok(())),
            },
        }
    }

    /// The first request of tearing the tunnel down.
    pub fn begin_teardown(&self) -> (first: (LinuxTeardownStage, NetlinkRequest))
        ensures
            first.0 == LinuxTeardownStage::OpeningHandle,
            first.1@ == NetlinkRequestView::OpenHandle,
    {
        (LinuxTeardownStage::OpeningHandle, NetlinkRequest::OpenHandle)
    }

    /// The step of tearing the tunnel down that follows `reply` in `stage`.
    pub fn continue_teardown(&self, stage: LinuxTeardownStage, reply: NetlinkReply) -> (step: Step<
        LinuxTeardownStage,
        NetlinkRequest,
        (),
    >)
        ensures
            step@ == self@.teardown_next(stage, reply@),
    {
        match reply {
            NetlinkReply::Failed(e) => Step::Finished(
                Err(
                    match stage {
                        LinuxTeardownStage::OpeningHandle => TunnelError::CreationFailed(e),
                        _ => TunnelError::DestroyFailed(e),
                    },
                ),
            ),
            NetlinkReply::Done(found) => match stage {
                LinuxTeardownStage::OpeningHandle => Step::Continue(
                    LinuxTeardownStage::FindingLink,
                    NetlinkRequest::FindLink(self.name.clone()),
                ),
                LinuxTeardownStage::FindingLink => match found {
                    Some(link) => Step::Continue(
                        LinuxTeardownStage::DeletingLink,
                        NetlinkRequest::DeleteLink { index: link.index },
                    ),
                    None => {
                        let mut text = String::from_str("interface ");
                        text.append(self.name.as_str());
                        text.append(" not found");
                        Step::Finished(Err(TunnelError::DestroyFailed(text)))
                    },
                },
                LinuxTeardownStage::DeletingLink => Step::Finished(Ok(())),
            },
        }
    }

    /// The first request of querying whether the tunnel is up.
    pub fn begin_status(&self) -> (first: (LinuxStatusStage, NetlinkRequest))
        ensures
            first.0 == LinuxStatusStage::OpeningHandle,
            first.1@ == NetlinkRequestView::OpenHandle,
    {
        (LinuxStatusStage::OpeningHandle, NetlinkRequest::OpenHandle)
    }

    /// The step of querying whether the tunnel is up that follows `reply` in `stage`.
    pub fn continue_status(&self, stage: LinuxStatusStage, reply: NetlinkReply) -> (step: Step<
        LinuxStatusStage,
        NetlinkRequest,
        bool,
    >)
        ensures
            step@ == self@.status_next(stage, reply@),
    {
        match reply {
            NetlinkReply::Failed(e) => Step::Finished(
                Err(
                    match stage {
                        LinuxStatusStage::OpeningHandle => TunnelError::CreationFailed(e),
                        LinuxStatusStage::FindingLink => TunnelError::StatusCheckFailed(e),
                    },
                ),
            ),
            NetlinkReply::Done(found) => match stage {
                LinuxStatusStage::OpeningHandle => Step::Continue(
                    LinuxStatusStage::FindingLink,
                    NetlinkRequest::FindLink(self.name.clone()),
                ),
                LinuxStatusStage::FindingLink => match found {
                    Some(link) => Step::Finished(Ok(link.flags & IFF_UP != 0)),
                    None => Step::Finished(Ok(false)),
                },
            },
        }
    }
}

impl LinuxBackendView {
    /// The transitions of bringing the tunnel up.
    pub open spec fn setup_transitions(self) -> spec_fn(LinuxSetupStage, NetlinkReplyView) -> StepView<
        LinuxSetupStage,
        NetlinkRequestView,
        (),
    > {
        |stage: LinuxSetupStage, reply: NetlinkReplyView| self.setup_next(stage, reply)
    }
}

/// The replies under which every step of bringing the tunnel up succeeds: the
/// first five requests are all done, and the lookup finds the link.
pub open spec fn setup_replies_succeed(replies: Seq<NetlinkReplyView>) -> bool {
    &&& replies.len() >= 5
    &&& replies[0] is Done
    &&& replies[1] is Done
    &&& replies[2] matches NetlinkReplyView::Done(Some(_))
    &&& replies[3] is Done
    &&& replies[4] is Done
}

/// The error with which bringing the tunnel up stops when its request number
/// `k` (counting the first as 0) fails with text `e`.
pub open spec fn setup_failure(k: int, e: Seq<char>) -> TunnelErrorView {
    if k == 3 {
        TunnelErrorView::AddressFailed(e)
    } else if k == 4 {
        TunnelErrorView::RouteFailed(e)
    } else {
        TunnelErrorView::CreationFailed(e)
    }
}

/// Bringing the tunnel up succeeds exactly when each of its steps succeeds;
/// then it has created the link, looked it up by name, assigned the local IPv4
/// address to the index found and added the default route through it, in that
/// order.
pub proof fn lemma_setup_succeeds_iff_every_step_succeeds(
    b: LinuxBackendView,
    replies: Seq<NetlinkReplyView>,
)
    ensures
        ({
            let trace = run(b.setup_transitions(), LinuxSetupStage::OpeningHandle, replies);
            &&& trace.outcome == Some(Ok::<(), TunnelErrorView>(())) <==> setup_replies_succeed(replies)
            &&& setup_replies_succeed(replies) ==> {
                let index = replies[2]->Done_0->0.index;
                trace.requests == seq![
                    NetlinkRequestView::AddLink(b.tunnel_link()),
                    NetlinkRequestView::FindLink(b.name),
                    NetlinkRequestView::AddAddress {
                        index,
                        address: b.local_v4,
                        prefix_len: LOCAL_V4_PREFIX_LEN,
                    },
                    NetlinkRequestView::AddRoute {
                        index,
                        destination: default_route_destination(),
                        prefix_len: 0,
                        scope: RouteScope::Link,
                    },
                ]
            }
        }),
{
    reveal_with_fuel(run, 6);
}

/// Bringing the tunnel up stops at its first failing request, with that
/// request's error, and issues nothing after it.
pub proof fn lemma_setup_stops_at_first_failure(
    b: LinuxBackendView,
    replies: Seq<NetlinkReplyView>,
    k: int,
)
    requires
        0 <= k < 5,
        k < replies.len(),
        forall|i: int| 0 <= i < k ==> #[trigger] replies[i] is Done,
        k > 2 ==> replies[2] matches NetlinkReplyView::Done(Some(_)),
        replies[k] is Failed,
    ensures
        ({
            let trace = run(b.setup_transitions(), LinuxSetupStage::OpeningHandle, replies);
            &&& trace.outcome == Some(Err::<(), TunnelErrorView>(setup_failure(k, replies[k]->Failed_0)))
            &&& trace.requests.len() == k
        }),
{
    reveal_with_fuel(run, 6);
}

/// When the link cannot be found right after its creation, bringing the tunnel
/// up fails with a creation error that names the link.
pub proof fn lemma_setup_reports_missing_link(b: LinuxBackendView, replies: Seq<NetlinkReplyView>)
    requires
        replies.len() >= 3,
        replies[0] is Done,
        replies[1] is Done,
        replies[2] == NetlinkReplyView::Done(None),
    ensures
        run(b.setup_transitions(), LinuxSetupStage::OpeningHandle, replies).outcome == Some(
            Err::<(), TunnelErrorView>(TunnelErrorView::CreationFailed(missing_after_creation(b.name))),
        ),
{
    reveal_with_fuel(run, 4);
}

impl LinuxBackendView {
    /// The transitions of tearing the tunnel down.
    pub open spec fn teardown_transitions(self) -> spec_fn(LinuxTeardownStage, NetlinkReplyView) -> StepView<
        LinuxTeardownStage,
        NetlinkRequestView,
        (),
    > {
        |stage: LinuxTeardownStage, reply: NetlinkReplyView| self.teardown_next(stage, reply)
    }

    /// The transitions of querying whether the tunnel is up.
    pub open spec fn status_transitions(self) -> spec_fn(LinuxStatusStage, NetlinkReplyView) -> StepView<
        LinuxStatusStage,
        NetlinkRequestView,
        bool,
    > {
        |stage: LinuxStatusStage, reply: NetlinkReplyView| self.status_next(stage, reply)
    }
}

/// The replies under which every step of tearing the tunnel down succeeds.
pub open spec fn teardown_replies_succeed(replies: Seq<NetlinkReplyView>) -> bool {
    &&& replies.len() >= 3
    &&& replies[0] is Done
    &&& replies[1] matches NetlinkReplyView::Done(Some(_))
    &&& replies[2] is Done
}

/// Tearing the tunnel down succeeds exactly when each of its steps succeeds;
/// then it has looked the link up by name and deleted the index found.
pub proof fn lemma_teardown_succeeds_iff_every_step_succeeds(
    b: LinuxBackendView,
    replies: Seq<NetlinkReplyView>,
)
    ensures
        ({
            let trace = run(b.teardown_transitions(), LinuxTeardownStage::OpeningHandle, replies);
            &&& trace.outcome == Some(Ok::<(), TunnelErrorView>(())) <==> teardown_replies_succeed(replies)
            &&& teardown_replies_succeed(replies) ==> trace.requests == seq![
                NetlinkRequestView::FindLink(b.name),
                NetlinkRequestView::DeleteLink { index: replies[1]->Done_0->0.index },
            ]
        }),
{
    reveal_with_fuel(run, 4);
}

/// Tearing the tunnel down stops at its first failing request: a failure to open
/// the connection is reported as a creation error, any later one as a destroy
/// error; a link that cannot be found is a destroy error that names it.
pub proof fn lemma_teardown_stops_at_first_failure(b: LinuxBackendView, replies: Seq<NetlinkReplyView>)
    requires
        replies.len() >= 1,
    ensures
        ({
            let trace = run(b.teardown_transitions(), LinuxTeardownStage::OpeningHandle, replies);
            &&& replies[0] matches NetlinkReplyView::Failed(e) ==> trace.outcome == Some(
                Err::<(), TunnelErrorView>(TunnelErrorView::CreationFailed(e)),
            )
            &&& replies.len() >= 2 && replies[0] is Done ==> match replies[1] {
                NetlinkReplyView::Failed(e) => trace.outcome == Some(
                    Err::<(), TunnelErrorView>(TunnelErrorView::DestroyFailed(e)),
                ),
                NetlinkReplyView::Done(None) => trace.outcome == Some(
                    Err::<(), TunnelErrorView>(TunnelErrorView::DestroyFailed(missing_link(b.name))),
                ),
                NetlinkReplyView::Done(Some(_)) => replies.len() >= 3 ==> (replies[2] matches NetlinkReplyView::Failed(e)
                    ==> trace.outcome == Some(Err::<(), TunnelErrorView>(TunnelErrorView::DestroyFailed(e)))),
            }
        }),
{
    reveal_with_fuel(run, 4);
}

/// Querying the tunnel finds it up exactly when its link exists with the
/// `IFF_UP` flag set; a missing link is down; a failure to open the connection
/// is a creation error and a failed lookup a status-check error.
pub proof fn lemma_status_outcome(b: LinuxBackendView, replies: Seq<NetlinkReplyView>)
    requires
        replies.len() >= 2,
    ensures
        ({
            let outcome = run(b.status_transitions(), LinuxStatusStage::OpeningHandle, replies).outcome;
            match replies[0] {
                NetlinkReplyView::Failed(e) => outcome == Some(
                    Err::<bool, TunnelErrorView>(TunnelErrorView::CreationFailed(e)),
                ),
                NetlinkReplyView::Done(_) => match replies[1] {
                    NetlinkReplyView::Failed(e) => outcome == Some(
                        Err::<bool, TunnelErrorView>(TunnelErrorView::StatusCheckFailed(e)),
                    ),
                    NetlinkReplyView::Done(Some(link)) => outcome == Some(
                        Ok::<bool, TunnelErrorView>(link.flags & IFF_UP != 0),
                    ),
                    NetlinkReplyView::Done(None) => outcome == Some(Ok::<bool, TunnelErrorView>(false)),
                },
            }
        }),
{
    reveal_with_fuel(run, 3);
}

/// The tunnel that bringing it up created is found up by a later query: the link
/// is created with the up flag, and a query that finds the link created, with
/// the `IFF_UP` flag the host reports for it, answers up. Once tearing down has
/// deleted the link, a query that finds no link of the tunnel's name answers
/// down.
pub proof fn lemma_status_after_setup_and_teardown(
    b: LinuxBackendView,
    setup_replies: Seq<NetlinkReplyView>,
    teardown_replies: Seq<NetlinkReplyView>,
    link: LinkInfo,
)
    requires
        setup_replies_succeed(setup_replies),
        link.index == setup_replies[2]->Done_0->0.index,
        link.flags & IFF_UP != 0,
        teardown_replies_succeed(teardown_replies),
    ensures
        run(b.setup_transitions(), LinuxSetupStage::OpeningHandle, setup_replies).requests[0]
            == NetlinkRequestView::AddLink(b.tunnel_link()),
        b.tunnel_link().up,
        run(
            b.status_transitions(),
            LinuxStatusStage::OpeningHandle,
            seq![NetlinkReplyView::Done(None), NetlinkReplyView::Done(Some(link))],
        ).outcome == Some(Ok::<bool, TunnelErrorView>(true)),
        run(b.teardown_transitions(), LinuxTeardownStage::OpeningHandle, teardown_replies).outcome
            == Some(Ok::<(), TunnelErrorView>(())),
        run(
            b.status_transitions(),
            LinuxStatusStage::OpeningHandle,
            seq![NetlinkReplyView::Done(None), NetlinkReplyView::Done(None)],
        ).outcome == Some(Ok::<bool, TunnelErrorView>(false)),
{
    lemma_setup_succeeds_iff_every_step_succeeds(b, setup_replies);
    lemma_teardown_succeeds_iff_every_step_succeeds(b, teardown_replies);
    reveal_with_fuel(run, 3);
}

/// The link that bringing the tunnel up creates is the configured tunnel: it
/// bears the backend's name, runs between the backend's local and remote IPv6
/// addresses, is an `ip6tnl` link carrying IPv4 that ignores the encapsulation
/// limit, has MTU 1280 and is created up.
pub proof fn lemma_tunnel_link_is_the_configured_tunnel(b: LinuxBackendView)
    ensures
        b.tunnel_link().name == b.name,
        b.tunnel_link().local == b.local_v6,
        b.tunnel_link().remote == b.remote_v6,
        b.tunnel_link().kind == LinkKind::Ip6Tnl,
        b.tunnel_link().protocol == TunnelProtocol::IpIp,
        b.tunnel_link().ignore_encap_limit,
        b.tunnel_link().mtu == 1280,
        b.tunnel_link().up,
{
}

/// Bringing the tunnel up looks up, right after creating it, the very link it
/// created: the name it creates the link under is the name it then looks up, and
/// both are the backend's name.
pub proof fn lemma_setup_finds_the_link_it_created(b: LinuxBackendView, replies: Seq<NetlinkReplyView>)
    requires
        replies.len() >= 2,
        replies[0] is Done,
        replies[1] is Done,
    ensures
        ({
            let requests = run(b.setup_transitions(), LinuxSetupStage::OpeningHandle, replies).requests;
            &&& requests.len() >= 2
            &&& requests[0] matches NetlinkRequestView::AddLink(link) && link.name == b.name
                && link.local == b.local_v6 && link.remote == b.remote_v6
            &&& requests[1] == NetlinkRequestView::FindLink(b.name)
        }),
{
    reveal_with_fuel(run, 3);
    lemma_tunnel_link_is_the_configured_tunnel(b);
}

} // verus!
