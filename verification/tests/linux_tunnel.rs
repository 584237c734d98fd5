use dslite_b4::address::{Ipv4Address, Ipv6Address};
use dslite_b4::tunnel::linux::{
    LinkInfo, LinkKind, LinuxBackend, NetlinkReply, NetlinkRequest, RouteScope, TunnelProtocol,
    LOCAL_V4_PREFIX_LEN, TUNNEL_MTU,
};
use dslite_b4::tunnel::{Step, TunnelError};

fn backend() -> LinuxBackend {
    LinuxBackend::new(
        "dslite0".to_string(),
        Ipv6Address { bits: 0x2001_0db8_0000_0000_0000_0000_0000_0002 },
        Ipv6Address { bits: 0x2001_0db8_0000_0000_0000_0000_0000_0001 },
        Ipv4Address::new(192, 0, 0, 2),
    )
}

fn done() -> NetlinkReply {
    NetlinkReply::Done(None)
}

fn found(index: u32, flags: u32) -> NetlinkReply {
    NetlinkReply::Done(Some(LinkInfo { index, flags }))
}

fn failed(text: &str) -> NetlinkReply {
    NetlinkReply::Failed(text.to_string())
}

/// Runs bringing the tunnel up on `replies`: the requests made, and the outcome.
fn run_setup(b: &LinuxBackend, replies: Vec<NetlinkReply>) -> (Vec<NetlinkRequest>, Option<Result<(), TunnelError>>) {
    let (mut stage, first) = b.begin_setup();
    let mut requests = vec![first];
    for reply in replies {
        match b.continue_setup(stage, reply) {
            Step::Continue(s, q) => {
                stage = s;
                requests.push(q);
            }
            Step::Finished(r) => return (requests, Some(r)),
        }
    }
    (requests, None)
}

fn run_teardown(b: &LinuxBackend, replies: Vec<NetlinkReply>) -> (Vec<NetlinkRequest>, Option<Result<(), TunnelError>>) {
    let (mut stage, first) = b.begin_teardown();
    let mut requests = vec![first];
    for reply in replies {
        match b.continue_teardown(stage, reply) {
            Step::Continue(s, q) => {
                stage = s;
                requests.push(q);
            }
            Step::Finished(r) => return (requests, Some(r)),
        }
    }
    (requests, None)
}

fn run_status(b: &LinuxBackend, replies: Vec<NetlinkReply>) -> Option<Result<bool, TunnelError>> {
    let (mut stage, _) = b.begin_status();
    for reply in replies {
        match b.continue_status(stage, reply) {
            Step::Continue(s, _) => stage = s,
            Step::Finished(r) => return Some(r),
        }
    }
    None
}

#[test]
fn setup_makes_every_request_in_order() {
    let b = backend();
    let (requests, outcome) = run_setup(&b, vec![done(), done(), found(12, 0), done(), done()]);
    assert!(matches!(outcome, Some(Ok(()))));
    assert_eq!(requests.len(), 5);
    assert!(matches!(requests[0], NetlinkRequest::OpenHandle));
    match &requests[1] {
        NetlinkRequest::AddLink(link) => {
            assert_eq!(link.kind, LinkKind::Ip6Tnl);
            assert_eq!(link.name, "dslite0");
            assert_eq!(link.local, b.local_v6);
            assert_eq!(link.remote, b.remote_v6);
            assert_eq!(link.protocol, TunnelProtocol::IpIp);
            assert!(link.ignore_encap_limit);
            assert_eq!(link.mtu, 1280);
            assert_eq!(TUNNEL_MTU, 1280);
            assert!(link.up);
        }
        other => panic!("unexpected {:?}", other),
    }
    assert!(matches!(&requests[2], NetlinkRequest::FindLink(n) if n == "dslite0"));
    assert!(matches!(requests[3],
        NetlinkRequest::AddAddress { index: 12, address, prefix_len: 32 } if address == Ipv4Address::new(192, 0, 0, 2)));
    assert_eq!(LOCAL_V4_PREFIX_LEN, 32);
    assert!(matches!(requests[4],
        NetlinkRequest::AddRoute { index: 12, destination, prefix_len: 0, scope: RouteScope::Link }
            if destination == Ipv4Address { bits: 0 }));
}

#[test]
fn setup_failures_map_to_their_step() {
    let b = backend();
    let (_, o) = run_setup(&b, vec![failed("no socket")]);
    assert!(matches!(o, Some(Err(TunnelError::CreationFailed(ref m))) if m == "no socket"));
    let (_, o) = run_setup(&b, vec![done(), failed("File exists (os error 17)")]);
    assert!(matches!(o, Some(Err(TunnelError::CreationFailed(ref m))) if m == "File exists (os error 17)"));
    let (_, o) = run_setup(&b, vec![done(), done(), failed("lookup")]);
    assert!(matches!(o, Some(Err(TunnelError::CreationFailed(ref m))) if m == "lookup"));
    let (r, o) = run_setup(&b, vec![done(), done(), found(3, 0), failed("addr")]);
    assert!(matches!(o, Some(Err(TunnelError::AddressFailed(ref m))) if m == "addr"));
    assert_eq!(r.len(), 4);
    let (_, o) = run_setup(&b, vec![done(), done(), found(3, 0), done(), failed("route")]);
    assert!(matches!(o, Some(Err(TunnelError::RouteFailed(ref m))) if m == "route"));
}

#[test]
fn setup_reports_link_missing_after_creation() {
    let b = backend();
    let (requests, o) = run_setup(&b, vec![done(), done(), done(), done()]);
    match o {
        Some(Err(e @ TunnelError::CreationFailed(_))) => {
            assert_eq!(e.message(), "creating tunnel: interface dslite0 not found after creation")
        }
        other => panic!("unexpected {:?}", other),
    }
    assert_eq!(requests.len(), 3);
}

#[test]
fn teardown_deletes_the_link_found() {
    let b = backend();
    let (requests, o) = run_teardown(&b, vec![done(), found(9, 1), done()]);
    assert!(matches!(o, Some(Ok(()))));
    assert!(matches!(requests[0], NetlinkRequest::OpenHandle));
    assert!(matches!(&requests[1], NetlinkRequest::FindLink(n) if n == "dslite0"));
    assert!(matches!(requests[2], NetlinkRequest::DeleteLink { index: 9 }));
}

#[test]
fn teardown_failures() {
    let b = backend();
    let (_, o) = run_teardown(&b, vec![failed("sock")]);
    assert!(matches!(o, Some(Err(TunnelError::CreationFailed(ref m))) if m == "sock"));
    let (_, o) = run_teardown(&b, vec![done(), failed("No such device")]);
    assert!(matches!(o, Some(Err(TunnelError::DestroyFailed(ref m))) if m == "No such device"));
    let (_, o) = run_teardown(&b, vec![done(), done()]);
    match o {
        Some(Err(e @ TunnelError::DestroyFailed(_))) => {
            assert_eq!(e.message(), "destroying tunnel: interface dslite0 not found")
        }
        other => panic!("unexpected {:?}", other),
    }
    let (_, o) = run_teardown(&b, vec![done(), found(9, 0), failed("busy")]);
    assert!(matches!(o, Some(Err(TunnelError::DestroyFailed(ref m))) if m == "busy"));
}

#[test]
fn status_reads_the_up_flag() {
    let b = backend();
    assert!(matches!(run_status(&b, vec![done(), found(4, 0x1043)]), Some(Ok(true))));
    assert!(matches!(run_status(&b, vec![done(), found(4, 0x1042)]), Some(Ok(false))));
    assert!(matches!(run_status(&b, vec![done(), done()]), Some(Ok(false))));
    assert!(matches!(run_status(&b, vec![done(), failed("x")]), Some(Err(TunnelError::StatusCheckFailed(_)))));
    assert!(matches!(run_status(&b, vec![failed("x")]), Some(Err(TunnelError::CreationFailed(_)))));
}

#[test]
fn tunnel_error_messages() {
    let cases = [
        (TunnelError::CreationFailed("a".to_string()), "creating tunnel: a"),
        (TunnelError::DestroyFailed("b".to_string()), "destroying tunnel: b"),
        (TunnelError::AddressFailed("c".to_string()), "assigning address: c"),
        (TunnelError::RouteFailed("d".to_string()), "setting route: d"),
        (TunnelError::StatusCheckFailed("e".to_string()), "checking tunnel status: e"),
    ];
    for (e, text) in cases.iter() {
        assert_eq!(e.message(), *text);
    }
}
