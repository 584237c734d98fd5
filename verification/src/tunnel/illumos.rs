//! The tunnel on illumos: an IPv6 `iptun` link created through libdladm, with
//! an IPv4 interface plumbed on it through libipadm.
//!
//! Each procedure below makes library calls one at a time. Every call answers
//! with a status, `0` for success; the calls that create or resolve the link
//! also give its link id.
use crate::address::{Ipv4Address, Ipv6Address};
use crate::text::{decimal, text_with_number};
use crate::tunnel::{Step, StepView, Trace, TunnelError, TunnelErrorView, run};
use vstd::prelude::*;
use vstd::utf8::encode_utf8;

verus! {

/// The size of the address buffers of the tunnel parameters.
pub const NI_MAXHOST: usize = 1025;

/// The status libdladm reports on success.
pub const DLADM_STATUS_OK: u32 = 0;

/// The status libipadm reports on success.
pub const IPADM_STATUS_OK: u32 = 0;

/// The address family of the interface plumbed on the tunnel: IPv4.
pub const AF_INET: u16 = 2;

/// The tunnel parameter flag: the type is set.
pub const IPTUN_PARAM_TYPE: u32 = 0x1;

/// The tunnel parameter flag: the local address is set.
pub const IPTUN_PARAM_LADDR: u32 = 0x2;

/// The tunnel parameter flag: the remote address is set.
pub const IPTUN_PARAM_RADDR: u32 = 0x4;

/// The libdladm flag for a change to the active configuration.
pub const DLADM_OPT_ACTIVE: u32 = 0x1;

/// The libipadm flag for a change to the active configuration.
pub const IPADM_OPT_ACTIVE: u32 = 0x2;

/// The kind of an `iptun` link.
#[derive(Clone, Copy, Debug, PartialEq, Eq)]
pub enum IpTunType {
    Unknown,
    Ipv4,
    Ipv6,
    SixToFour,
}

/// The IPsec policy of a tunnel; all zero means none.
#[derive(Clone, Copy, Debug, PartialEq, Eq)]
pub struct IpsecRequest {
    pub ah_req: u32,
    pub esp_req: u32,
    pub self_encap_req: u32,
    pub auth_alg: u8,
    pub esp_alg: u8,
    pub esp_auth_alg: u8,
}

/// The parameters with which the tunnel link is created. The address buffers
/// hold the addresses' text, padded with zero bytes to `NI_MAXHOST` bytes.
#[derive(Debug)]
pub struct TunnelParams {
    pub link_id: u32,
    pub flags: u32,
    pub tunnel_type: IpTunType,
    pub local_addr: Vec<u8>,
    pub remote_addr: Vec<u8>,
    pub sec_info: IpsecRequest,
}

/// The `NI_MAXHOST`-byte buffer holding `text` followed by zero bytes.
pub open spec fn host_buffer(text: Seq<u8>) -> Seq<u8> {
    Seq::new(NI_MAXHOST as nat, |i: int| if i < text.len() { text[i] } else { 0u8 })
}

/// Copies an address's text into a zero-filled buffer of `NI_MAXHOST` bytes.
pub fn addr_to_caddr(text: &[u8]) -> (buf: Vec<u8>)
    requires
        text@.len() <= NI_MAXHOST,
    ensures
        buf@ == host_buffer(text@),
{
    let mut buf: Vec<u8> = Vec::new();
    let mut i: usize = 0;
    while i < NI_MAXHOST
        invariant
            i <= NI_MAXHOST,
            text@.len() <= NI_MAXHOST,
            buf@ =~= host_buffer(text@).take(i as int),
        decreases NI_MAXHOST - i,
    {
        if i < text.len() {
            buf.push(text[i]);
        } else {
            buf.push(0u8);
        }
        i = i + 1;
    }
    buf
}

/// The parameters of an IPv6 tunnel between the addresses whose texts are
/// given: type, local and remote address set, no IPsec policy, link id 0.
pub fn build_tunnel_params(local_text: &[u8], remote_text: &[u8]) -> (params: TunnelParams)
    requires
        local_text@.len() <= NI_MAXHOST,
        remote_text@.len() <= NI_MAXHOST,
    ensures
        params.link_id == 0,
        params.flags == IPTUN_PARAM_TYPE | IPTUN_PARAM_LADDR | IPTUN_PARAM_RADDR,
        params.flags == 7,
        params.tunnel_type == IpTunType::Ipv6,
        params.local_addr@ == host_buffer(local_text@),
        params.remote_addr@ == host_buffer(remote_text@),
        params.sec_info == (IpsecRequest {
            ah_req: 0,
            esp_req: 0,
            self_encap_req: 0,
            auth_alg: 0,
            esp_alg: 0,
            esp_auth_alg: 0,
        }),
{
    assert(IPTUN_PARAM_TYPE | IPTUN_PARAM_LADDR | IPTUN_PARAM_RADDR == 7) by (bit_vector);
    TunnelParams {
        link_id: 0,
        flags: IPTUN_PARAM_TYPE | IPTUN_PARAM_LADDR | IPTUN_PARAM_RADDR,
        tunnel_type: IpTunType::Ipv6,
        local_addr: addr_to_caddr(local_text),
        remote_addr: addr_to_caddr(remote_text),
        sec_info: IpsecRequest {
            ah_req: 0,
            esp_req: 0,
            self_encap_req: 0,
            auth_alg: 0,
            esp_alg: 0,
            esp_auth_alg: 0,
        },
    }
}

/// The tunnel name held a zero byte, which a C string cannot hold. Like the
/// error of building a C string, it gives the position of the first zero byte
/// and the bytes of the name.
#[derive(Debug)]
pub struct NulError {
    pub position: usize,
    pub bytes: Vec<u8>,
}

/// The tunnel as configured on an illumos host. It holds the bytes of the
/// tunnel's name, none of them zero, so that they form a C string.
#[derive(Debug)]
pub struct IllumosBackend {
    cname: Vec<u8>,
    local_v6: Ipv6Address,
    remote_v6: Ipv6Address,
    local_v4: Ipv4Address,
}

/// An `IllumosBackend` as values: the name's bytes and the addresses.
pub struct IllumosBackendView {
    pub cname: Seq<u8>,
    pub local_v6: Ipv6Address,
    pub remote_v6: Ipv6Address,
    pub local_v4: Ipv4Address,
}

impl View for IllumosBackend {
    type V = IllumosBackendView;

    open spec fn view(&self) -> IllumosBackendView {
        self.as_view()
    }
}

/// Whether `bytes` holds no zero byte.
pub open spec fn no_zero_byte(bytes: Seq<u8>) -> bool {
    forall|i: int| 0 <= i < bytes.len() ==> #[trigger] bytes[i] != 0
}

impl IllumosBackend {
    /// The name's bytes hold no zero byte.
    #[verifier::type_invariant]
    spec fn name_is_c_string(self) -> bool {
        no_zero_byte(self.cname@)
    }

    /// The backend as values.
    pub closed spec fn as_view(self) -> IllumosBackendView {
        IllumosBackendView {
            cname: self.cname@,
            local_v6: self.local_v6,
            remote_v6: self.remote_v6,
            local_v4: self.local_v4,
        }
    }

    /// The bytes of the tunnel's name; none of them is zero.
    pub fn cname(&self) -> (bytes: &Vec<u8>)
        ensures
            bytes@ == self@.cname,
            no_zero_byte(bytes@),
    {
        proof {
            use_type_invariant(self);
        }
        &self.cname
    }

    /// The tunnel's local IPv6 address.
    pub fn local_v6(&self) -> (addr: Ipv6Address)
        ensures
            addr == self@.local_v6,
    {
        self.local_v6
    }

    /// The tunnel's remote IPv6 address: the AFTR's.
    pub fn remote_v6(&self) -> (addr: Ipv6Address)
        ensures
            addr == self@.remote_v6,
    {
        self.remote_v6
    }

    /// The IPv4 address of the tunnel's near side.
    pub fn local_v4(&self) -> (addr: Ipv4Address)
        ensures
            addr == self@.local_v4,
    {
        self.local_v4
    }

    /// The tunnel named `name` between `local_v6` and `remote_v6`. Fails where
    /// the name's UTF-8 bytes hold a zero byte, giving the first one's position.
    pub fn new(name: String, local_v6: Ipv6Address, remote_v6: Ipv6Address, local_v4: Ipv4Address) -> (res: Result<IllumosBackend, NulError>)
        ensures
            match res {
                Ok(b) => {
                    &&& b@ == (IllumosBackendView {
                        cname: encode_utf8(name@),
                        local_v6,
                        remote_v6,
                        local_v4,
                    })
                    &&& no_zero_byte(b@.cname)
                },
                Err(e) => {
                    &&& e.bytes@ == encode_utf8(name@)
                    &&& e.position < e.bytes@.len()
                    &&& e.bytes@[e.position as int] == 0
                    &&& no_zero_byte(e.bytes@.take(e.position as int))
                },
            },
    {
        let bytes = name.as_str().as_bytes_vec();
        let mut i: usize = 0;
        while i < bytes.len()
            invariant
                i <= bytes@.len(),
                bytes@ == encode_utf8(name@),
                no_zero_byte(bytes@.take(i as int)),
            decreases bytes.len() - i,
        {
            if bytes[i] == 0 {
                return Err(NulError { position: i, bytes });
            }
            assert(bytes@.take(i + 1) =~= bytes@.take(i as int).push(bytes@[i as int]));
            i = i + 1;
        }
        assert(bytes@.take(i as int) =~= bytes@);
        Ok(IllumosBackend { cname: bytes, local_v6, remote_v6, local_v4 })
    }
}

/// A library call of a procedure. The calls that concern the tunnel act on the
/// link named by the backend's `cname`.
#[derive(Clone, Copy, Debug, PartialEq, Eq)]
pub enum IllumosRequest {
    /// Open a libdladm handle.
    OpenDladm,
    /// Create the IPv6 tunnel link between these addresses, with these flags.
    CreateTunnel { local: Ipv6Address, remote: Ipv6Address, flags: u32 },
    /// Open a libipadm handle with these flags.
    OpenIpadm { flags: u32 },
    /// Plumb an interface of this family on the tunnel link.
    CreateInterface { family: u16, flags: u32 },
    /// Unplumb the interface of this family from the tunnel link.
    DeleteInterface { family: u16, flags: u32 },
    /// Find the link id of the tunnel link by its name.
    ResolveLinkId,
    /// Delete the tunnel link of this id.
    DeleteTunnel { link_id: u32, flags: u32 },
}

impl View for IllumosRequest {
    type V = IllumosRequest;

    open spec fn view(&self) -> IllumosRequest {
        *self
    }
}

/// The answer of a library call: its status, and the link id where the call
/// gives one (creating or resolving the link).
#[derive(Clone, Copy, Debug, PartialEq, Eq)]
pub struct CallStatus {
    pub status: u32,
    pub link_id: u32,
}

/// Where bringing the tunnel up stands: the call that is outstanding.
#[derive(Clone, Copy, Debug, PartialEq, Eq)]
pub enum IllumosSetupStage {
    OpeningDladm,
    CreatingTunnel,
    /// The tunnel link has been created, with this link id.
    OpeningIpadm { link_id: u32 },
    CreatingInterface { link_id: u32 },
}

/// Where tearing the tunnel down stands.
#[derive(Clone, Copy, Debug, PartialEq, Eq)]
pub enum IllumosTeardownStage {
    OpeningIpadm,
    DeletingInterface,
    OpeningDladm,
    ResolvingLinkId,
    DeletingTunnel,
}

/// The text that a failure of the call outstanding in `stage` of bringing the
/// tunnel up starts with; the status follows it.
pub open spec fn setup_failure_prefix(stage: IllumosSetupStage) -> Seq<char> {
    match stage {
        IllumosSetupStage::OpeningDladm => "unable to open handle, dladm_open status "@,
        IllumosSetupStage::CreatingTunnel => "dladm_iptun_create failed with status "@,
        IllumosSetupStage::OpeningIpadm { .. } => "unable to open handle, ipadm_open status "@,
        IllumosSetupStage::CreatingInterface { .. } => "ipadm_create_if failed with status "@,
    }
}

/// The text that a failure of the call outstanding in `stage` of tearing the
/// tunnel down starts with; the status follows it.
pub open spec fn teardown_failure_prefix(stage: IllumosTeardownStage) -> Seq<char> {
    match stage {
        IllumosTeardownStage::OpeningIpadm => "unable to open handle, ipadm_open status "@,
        IllumosTeardownStage::DeletingInterface => "ipadm_delete_if failed with status "@,
        IllumosTeardownStage::OpeningDladm => "unable to open handle, dladm_open status "@,
        IllumosTeardownStage::ResolvingLinkId => "failed to get linkid, dladm_name2info status: "@,
        IllumosTeardownStage::DeletingTunnel => "dladm_iptun_delete failed with status "@,
    }
}

impl IllumosBackendView {
    /// Bringing the tunnel up: open libdladm, create the tunnel link, open
    /// libipadm, plumb an IPv4 interface on the link.
    pub open spec fn setup_next(self, stage: IllumosSetupStage, reply: CallStatus) -> StepView<
        IllumosSetupStage,
        IllumosRequest,
        (),
    > {
        if reply.status != 0 {
            StepView::Finished(
                Err(TunnelErrorView::CreationFailed(setup_failure_prefix(stage) + decimal(reply.status as nat))),
            )
        } else {
            match stage {
                IllumosSetupStage::OpeningDladm => StepView::Continue(
                    IllumosSetupStage::CreatingTunnel,
                    IllumosRequest::CreateTunnel {
                        local: self.local_v6,
                        remote: self.remote_v6,
                        flags: DLADM_OPT_ACTIVE,
                    },
                ),
                IllumosSetupStage::CreatingTunnel => StepView::Continue(
                    IllumosSetupStage::OpeningIpadm { link_id: reply.link_id },
                    IllumosRequest::OpenIpadm { flags: 0 },
                ),
                IllumosSetupStage::OpeningIpadm { link_id } => StepView::Continue(
                    IllumosSetupStage::CreatingInterface { link_id },
                    IllumosRequest::CreateInterface { family: AF_INET, flags: IPADM_OPT_ACTIVE },
                ),
                IllumosSetupStage::CreatingInterface { .. } => StepView::Finished(Ok(())),
            }
        }
    }

    /// Tearing the tunnel down: open libipadm, unplumb the IPv4 interface, open
    /// libdladm, resolve the link's id by its name, delete the link.
    pub open spec fn teardown_next(self, stage: IllumosTeardownStage, reply: CallStatus) -> StepView<
        IllumosTeardownStage,
        IllumosRequest,
        (),
    > {
        if reply.status != 0 {
            StepView::Finished(
                Err(TunnelErrorView::DestroyFailed(teardown_failure_prefix(stage) + decimal(reply.status as nat))),
            )
        } else {
            match stage {
                IllumosTeardownStage::OpeningIpadm => StepView::Continue(
                    IllumosTeardownStage::DeletingInterface,
                    IllumosRequest::DeleteInterface { family: AF_INET, flags: IPADM_OPT_ACTIVE },
                ),
                IllumosTeardownStage::DeletingInterface => StepView::Continue(
                    IllumosTeardownStage::OpeningDladm,
                    IllumosRequest::OpenDladm,
                ),
                IllumosTeardownStage::OpeningDladm => StepView::Continue(
                    IllumosTeardownStage::ResolvingLinkId,
                    IllumosRequest::ResolveLinkId,
                ),
                IllumosTeardownStage::ResolvingLinkId => StepView::Continue(
                    IllumosTeardownStage::DeletingTunnel,
                    IllumosRequest::DeleteTunnel { link_id: reply.link_id, flags: DLADM_OPT_ACTIVE },
                ),
                IllumosTeardownStage::DeletingTunnel => StepView::Finished(Ok(())),
            }
        }
    }

}

impl IllumosBackend {
    /// The first call of bringing the tunnel up.
    pub fn begin_setup(&self) -> (first: (IllumosSetupStage, IllumosRequest))
        ensures
            first == (IllumosSetupStage::OpeningDladm, IllumosRequest::OpenDladm),
    {
        (IllumosSetupStage::OpeningDladm, IllumosRequest::OpenDladm)
    }

    /// The step of bringing the tunnel up that follows `reply` in `stage`.
    pub fn continue_setup(&self, stage: IllumosSetupStage, reply: CallStatus) -> (step: Step<
        IllumosSetupStage,
        IllumosRequest,
        (),
    >)
        ensures
            step@ == self@.setup_next(stage, reply),
    {
        if reply.status != 0 {
            let prefix = match stage {
                IllumosSetupStage::OpeningDladm => "unable to open handle, dladm_open status ",
                IllumosSetupStage::CreatingTunnel => "dladm_iptun_create failed with status ",
                IllumosSetupStage::OpeningIpadm { .. } => "unable to open handle, ipadm_open status ",
                IllumosSetupStage::CreatingInterface { .. } => "ipadm_create_if failed with status ",
            };
            Step::Finished(Err(TunnelError::CreationFailed(text_with_number(prefix, reply.status))))
        } else {
            match stage {
                IllumosSetupStage::OpeningDladm => Step::Continue(
                    IllumosSetupStage::CreatingTunnel,
                    IllumosRequest::CreateTunnel {
                        local: self.local_v6,
                        remote: self.remote_v6,
                        flags: DLADM_OPT_ACTIVE,
                    },
                ),
                IllumosSetupStage::CreatingTunnel => Step::Continue(
                    IllumosSetupStage::OpeningIpadm { link_id: reply.link_id },
                    IllumosRequest::OpenIpadm { flags: 0 },
                ),
                IllumosSetupStage::OpeningIpadm { link_id } => Step::Continue(
                    IllumosSetupStage::CreatingInterface { link_id },
                    IllumosRequest::CreateInterface { family: AF_INET, flags: IPADM_OPT_ACTIVE },
                ),
                IllumosSetupStage::CreatingInterface { .. } => Step::Finished(Ok(())),
            }
        }
    }

    /// The first call of tearing the tunnel down.
    pub fn begin_teardown(&self) -> (first: (IllumosTeardownStage, IllumosRequest))
        ensures
            first == (IllumosTeardownStage::OpeningIpadm, IllumosRequest::OpenIpadm { flags: 0 }),
    {
        (IllumosTeardownStage::OpeningIpadm, IllumosRequest::OpenIpadm { flags: 0 })
    }

    /// The step of tearing the tunnel down that follows `reply` in `stage`.
    pub fn continue_teardown(&self, stage: IllumosTeardownStage, reply: CallStatus) -> (step: Step<
        IllumosTeardownStage,
        IllumosRequest,
        (),
    >)
        ensures
            step@ == self@.teardown_next(stage, reply),
    {
        if reply.status != 0 {
            let prefix = match stage {
                IllumosTeardownStage::OpeningIpadm => "unable to open handle, ipadm_open status ",
                IllumosTeardownStage::DeletingInterface => "ipadm_delete_if failed with status ",
                IllumosTeardownStage::OpeningDladm => "unable to open handle, dladm_open status ",
                IllumosTeardownStage::ResolvingLinkId => "failed to get linkid, dladm_name2info status: ",
                IllumosTeardownStage::DeletingTunnel => "dladm_iptun_delete failed with status ",
            };
            Step::Finished(Err(TunnelError::DestroyFailed(text_with_number(prefix, reply.status))))
        } else {
            match stage {
                IllumosTeardownStage::OpeningIpadm => Step::Continue(
                    IllumosTeardownStage::DeletingInterface,
                    IllumosRequest::DeleteInterface { family: AF_INET, flags: IPADM_OPT_ACTIVE },
                ),
                IllumosTeardownStage::DeletingInterface => Step::Continue(
                    IllumosTeardownStage::OpeningDladm,
                    IllumosRequest::OpenDladm,
                ),
                IllumosTeardownStage::OpeningDladm => Step::Continue(
                    IllumosTeardownStage::ResolvingLinkId,
                    IllumosRequest::ResolveLinkId,
                ),
                IllumosTeardownStage::ResolvingLinkId => Step::Continue(
                    IllumosTeardownStage::DeletingTunnel,
                    IllumosRequest::DeleteTunnel { link_id: reply.link_id, flags: DLADM_OPT_ACTIVE },
                ),
                IllumosTeardownStage::DeletingTunnel => Step::Finished(Ok(())),
            }
        }
    }

    /// Whether the tunnel is up. The state of an illumos tunnel is not queried:
    /// it is always reported down.
    pub fn is_up(&self) -> (res: Result<bool, TunnelError>)
        ensures
            res matches Ok(up) && !up,
    {
        Ok(false)
    }
}

/// The stage in which bringing the tunnel up makes its call number `k`
/// (counting the first as 0), given the earlier calls' `replies`.
pub open spec fn setup_stage_at(k: int, replies: Seq<CallStatus>) -> IllumosSetupStage {
    if k == 0 {
        IllumosSetupStage::OpeningDladm
    } else if k == 1 {
        IllumosSetupStage::CreatingTunnel
    } else if k == 2 {
        IllumosSetupStage::OpeningIpadm { link_id: replies[1].link_id }
    } else {
        IllumosSetupStage::CreatingInterface { link_id: replies[1].link_id }
    }
}

/// The stage in which tearing the tunnel down makes its call number `k`.
pub open spec fn teardown_stage_at(k: int) -> IllumosTeardownStage {
    if k == 0 {
        IllumosTeardownStage::OpeningIpadm
    } else if k == 1 {
        IllumosTeardownStage::DeletingInterface
    } else if k == 2 {
        IllumosTeardownStage::OpeningDladm
    } else if k == 3 {
        IllumosTeardownStage::ResolvingLinkId
    } else {
        IllumosTeardownStage::DeletingTunnel
    }
}

/// Whether the first `n` calls all report success.
pub open spec fn first_calls_succeed(replies: Seq<CallStatus>, n: int) -> bool {
    &&& n <= replies.len()
    &&& forall|i: int| 0 <= i < n ==> #[trigger] replies[i].status == 0
}

impl IllumosBackendView {
    /// The transitions of bringing the tunnel up.
    pub open spec fn setup_transitions(self) -> spec_fn(IllumosSetupStage, CallStatus) -> StepView<
        IllumosSetupStage,
        IllumosRequest,
        (),
    > {
        |stage: IllumosSetupStage, reply: CallStatus| self.setup_next(stage, reply)
    }

    /// The transitions of tearing the tunnel down.
    pub open spec fn teardown_transitions(self) -> spec_fn(IllumosTeardownStage, CallStatus) -> StepView<
        IllumosTeardownStage,
        IllumosRequest,
        (),
    > {
        |stage: IllumosTeardownStage, reply: CallStatus| self.teardown_next(stage, reply)
    }
}

/// Bringing the tunnel up succeeds exactly when its four calls succeed; then it
/// has created the IPv6 tunnel link between the backend's addresses, opened
/// libipadm and plumbed an IPv4 interface on the link, in that order.
pub proof fn lemma_setup_succeeds_iff_every_call_succeeds(b: IllumosBackendView, replies: Seq<CallStatus>)
    ensures
        ({
            let trace = run(b.setup_transitions(), IllumosSetupStage::OpeningDladm, replies);
            &&& trace.outcome == Some(Ok::<(), TunnelErrorView>(())) <==> first_calls_succeed(replies, 4)
            &&& first_calls_succeed(replies, 4) ==> trace.requests == seq![
                IllumosRequest::CreateTunnel {
                    local: b.local_v6,
                    remote: b.remote_v6,
                    flags: DLADM_OPT_ACTIVE,
                },
                IllumosRequest::OpenIpadm { flags: 0 },
                IllumosRequest::CreateInterface { family: AF_INET, flags: IPADM_OPT_ACTIVE },
            ]
        }),
{
    reveal_with_fuel(run, 5);
    if first_calls_succeed(replies, 4) {
        assert(replies[0].status == 0 && replies[1].status == 0);
        assert(replies[2].status == 0 && replies[3].status == 0);
    }
}

/// Bringing the tunnel up stops at its first failing call with a creation error
/// that names the call and gives its status, and makes no call after it.
pub proof fn lemma_setup_stops_at_first_failure(b: IllumosBackendView, replies: Seq<CallStatus>, k: int)
    requires
        0 <= k < 4,
        first_calls_succeed(replies, k),
        k < replies.len(),
        replies[k].status != 0,
    ensures
        ({
            let trace = run(b.setup_transitions(), IllumosSetupStage::OpeningDladm, replies);
            &&& trace.outcome == Some(
                Err::<(), TunnelErrorView>(
                    TunnelErrorView::CreationFailed(
                        setup_failure_prefix(setup_stage_at(k, replies)) + decimal(replies[k].status as nat),
                    ),
                ),
            )
            &&& trace.requests.len() == k
        }),
{
    reveal_with_fuel(run, 5);
    if k > 0 {
        assert(replies[0].status == 0);
    }
    if k > 1 {
        assert(replies[1].status == 0);
    }
    if k > 2 {
        assert(replies[2].status == 0);
    }
}

/// Tearing the tunnel down succeeds exactly when its five calls succeed; then it
/// has unplumbed the IPv4 interface, opened libdladm, resolved the link's id and
/// deleted the link of the id resolved, in that order.
pub proof fn lemma_teardown_succeeds_iff_every_call_succeeds(b: IllumosBackendView, replies: Seq<CallStatus>)
    ensures
        ({
            let trace = run(b.teardown_transitions(), IllumosTeardownStage::OpeningIpadm, replies);
            &&& trace.outcome == Some(Ok::<(), TunnelErrorView>(())) <==> first_calls_succeed(replies, 5)
            &&& first_calls_succeed(replies, 5) ==> trace.requests == seq![
                IllumosRequest::DeleteInterface { family: AF_INET, flags: IPADM_OPT_ACTIVE },
                IllumosRequest::OpenDladm,
                IllumosRequest::ResolveLinkId,
                IllumosRequest::DeleteTunnel { link_id: replies[3].link_id, flags: DLADM_OPT_ACTIVE },
            ]
        }),
{
    reveal_with_fuel(run, 6);
    if first_calls_succeed(replies, 5) {
        assert(replies[0].status == 0 && replies[1].status == 0 && replies[2].status == 0);
        assert(replies[3].status == 0 && replies[4].status == 0);
    }
}

/// Tearing the tunnel down stops at its first failing call with a destroy error
/// that names the call and gives its status, and makes no call after it.
pub proof fn lemma_teardown_stops_at_first_failure(b: IllumosBackendView, replies: Seq<CallStatus>, k: int)
    requires
        0 <= k < 5,
        first_calls_succeed(replies, k),
        k < replies.len(),
        replies[k].status != 0,
    ensures
        ({
            let trace = run(b.teardown_transitions(), IllumosTeardownStage::OpeningIpadm, replies);
            &&& trace.outcome == Some(
                Err::<(), TunnelErrorView>(
                    TunnelErrorView::DestroyFailed(
                        teardown_failure_prefix(teardown_stage_at(k)) + decimal(replies[k].status as nat),
                    ),
                ),
            )
            &&& trace.requests.len() == k
        }),
{
    reveal_with_fuel(run, 6);
    if k > 0 {
        assert(replies[0].status == 0);
    }
    if k > 1 {
        assert(replies[1].status == 0);
    }
    if k > 2 {
        assert(replies[2].status == 0);
    }
    if k > 3 {
        assert(replies[3].status == 0);
    }
}

/// The buffer of an address's text read as a C string gives the text back: the
/// bytes before its first zero byte are exactly the text's, where the text holds
/// no zero byte and leaves room for the terminating one.
pub proof fn lemma_host_buffer_reads_back(text: Seq<u8>)
    requires
        text.len() < NI_MAXHOST,
        no_zero_byte(text),
    ensures
        host_buffer(text)[text.len() as int] == 0,
        host_buffer(text).take(text.len() as int) == text,
        no_zero_byte(host_buffer(text).take(text.len() as int)),
{
    assert(host_buffer(text).take(text.len() as int) =~= text);
}

} // verus!
