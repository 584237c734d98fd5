use dslite_b4::address::{Ipv4Address, Ipv6Address};
use dslite_b4::tunnel::illumos::{
    addr_to_caddr, build_tunnel_params, CallStatus, IllumosBackend, IllumosSetupStage, IllumosRequest, IpTunType,
    AF_INET, DLADM_OPT_ACTIVE, IPADM_OPT_ACTIVE, NI_MAXHOST,
};
use dslite_b4::tunnel::{Step, TunnelError};

fn backend() -> IllumosBackend {
    IllumosBackend::new(
        "dslite0".to_string(),
        Ipv6Address { bits: 2 },
        Ipv6Address { bits: 1 },
        Ipv4Address::new(192, 0, 0, 2),
    )
    .expect("a name without nul bytes")
}

fn ok(link_id: u32) -> CallStatus {
    CallStatus { status: 0, link_id }
}

fn bad(status: u32) -> CallStatus {
    CallStatus { status, link_id: 0 }
}

fn run_setup(b: &IllumosBackend, replies: &[CallStatus]) -> (Vec<IllumosRequest>, Option<Result<(), TunnelError>>) {
    let (mut stage, first) = b.begin_setup();
    let mut requests = vec![first];
    for &reply in replies {
        match b.continue_setup(stage, reply) {
            Step::Continue(s, q) => {
                stage = s;
                requests.push(q);
            }
            Step::Finished(r) => return (requests, Some(r)),
        }
    }
    (requests, None)
}

fn run_teardown(b: &IllumosBackend, replies: &[CallStatus]) -> (Vec<IllumosRequest>, Option<Result<(), TunnelError>>) {
    let (mut stage, first) = b.begin_teardown();
    let mut requests = vec![first];
    for &reply in replies {
        match b.continue_teardown(stage, reply) {
            Step::Continue(s, q) => {
                stage = s;
                requests.push(q);
            }
            Step::Finished(r) => return (requests, Some(r)),
        }
    }
    (requests, None)
}

fn creation_message(o: Option<Result<(), TunnelError>>) -> String {
    match o {
        Some(Err(TunnelError::CreationFailed(m))) => m,
        other => panic!("unexpected {:?}", other),
    }
}

fn destroy_message(o: Option<Result<(), TunnelError>>) -> String {
    match o {
        Some(Err(TunnelError::DestroyFailed(m))) => m,
        other => panic!("unexpected {:?}", other),
    }
}

#[test]
fn name_with_nul_byte_is_refused() {
    let e = IllumosBackend::new("ds\0lite".to_string(), Ipv6Address { bits: 0 }, Ipv6Address { bits: 0 }, Ipv4Address { bits: 0 })
        .expect_err("a nul byte must be refused");
    assert_eq!(e.position, 2);
    assert_eq!(e.bytes, b"ds\0lite".to_vec());
    let b = backend();
    assert_eq!(*b.cname(), b"dslite0".to_vec());
    assert_eq!(b.local_v6(), Ipv6Address { bits: 2 });
    assert_eq!(b.remote_v6(), Ipv6Address { bits: 1 });
    assert_eq!(b.local_v4(), Ipv4Address::new(192, 0, 0, 2));
}

#[test]
fn nul_position_counts_bytes() {
    let e = IllumosBackend::new("é\0".to_string(), Ipv6Address { bits: 0 }, Ipv6Address { bits: 0 }, Ipv4Address { bits: 0 })
        .expect_err("a nul byte must be refused");
    assert_eq!(e.position, 2);
}

#[test]
fn caddr_is_text_then_zeros() {
    let buf = addr_to_caddr(b"2001:db8::1");
    assert_eq!(buf.len(), NI_MAXHOST);
    assert_eq!(&buf[..11], b"2001:db8::1");
    assert!(buf[11..].iter().all(|&b| b == 0));
}

#[test]
fn tunnel_params_are_ipv6_with_both_addresses() {
    let p = build_tunnel_params(b"2001:db8::2", b"2001:db8::1");
    assert_eq!(p.link_id, 0);
    assert_eq!(p.flags, 7);
    assert_eq!(p.tunnel_type, IpTunType::Ipv6);
    assert_eq!(&p.local_addr[..11], b"2001:db8::2");
    assert_eq!(&p.remote_addr[..11], b"2001:db8::1");
    assert_eq!(p.sec_info.ah_req, 0);
    assert_eq!(p.sec_info.esp_auth_alg, 0);
}

#[test]
fn setup_makes_every_call_in_order() {
    let b = backend();
    let (requests, o) = run_setup(&b, &[ok(0), ok(5), ok(0), ok(0)]);
    assert!(matches!(o, Some(Ok(()))));
    assert_eq!(
        requests,
        vec![
            IllumosRequest::OpenDladm,
            IllumosRequest::CreateTunnel { local: b.local_v6(), remote: b.remote_v6(), flags: DLADM_OPT_ACTIVE },
            IllumosRequest::OpenIpadm { flags: 0 },
            IllumosRequest::CreateInterface { family: AF_INET, flags: IPADM_OPT_ACTIVE },
        ]
    );
}

#[test]
fn setup_failures_give_the_status() {
    let b = backend();
    assert_eq!(creation_message(run_setup(&b, &[bad(3)]).1), "unable to open handle, dladm_open status 3");
    assert_eq!(creation_message(run_setup(&b, &[ok(0), bad(21)]).1), "dladm_iptun_create failed with status 21");
    assert_eq!(creation_message(run_setup(&b, &[ok(0), ok(1), bad(4)]).1), "unable to open handle, ipadm_open status 4");
    let (r, o) = run_setup(&b, &[ok(0), ok(1), ok(0), bad(1234)]);
    assert_eq!(creation_message(o), "ipadm_create_if failed with status 1234");
    assert_eq!(r.len(), 4);
}

#[test]
fn teardown_makes_every_call_in_order() {
    let b = backend();
    let (requests, o) = run_teardown(&b, &[ok(0), ok(0), ok(0), ok(17), ok(0)]);
    assert!(matches!(o, Some(Ok(()))));
    assert_eq!(
        requests,
        vec![
            IllumosRequest::OpenIpadm { flags: 0 },
            IllumosRequest::DeleteInterface { family: AF_INET, flags: IPADM_OPT_ACTIVE },
            IllumosRequest::OpenDladm,
            IllumosRequest::ResolveLinkId,
            IllumosRequest::DeleteTunnel { link_id: 17, flags: DLADM_OPT_ACTIVE },
        ]
    );
}

#[test]
fn teardown_failures_give_the_status() {
    let b = backend();
    assert_eq!(destroy_message(run_teardown(&b, &[bad(2)]).1), "unable to open handle, ipadm_open status 2");
    assert_eq!(destroy_message(run_teardown(&b, &[ok(0), bad(8)]).1), "ipadm_delete_if failed with status 8");
    assert_eq!(destroy_message(run_teardown(&b, &[ok(0), ok(0), bad(9)]).1), "unable to open handle, dladm_open status 9");
    assert_eq!(
        destroy_message(run_teardown(&b, &[ok(0), ok(0), ok(0), bad(10)]).1),
        "failed to get linkid, dladm_name2info status: 10"
    );
    assert_eq!(
        destroy_message(run_teardown(&b, &[ok(0), ok(0), ok(0), ok(3), bad(11)]).1),
        "dladm_iptun_delete failed with status 11"
    );
}

#[test]
fn illumos_tunnel_reports_down() {
    assert!(matches!(backend().is_up(), Ok(false)));
}

#[test]
fn setup_keeps_the_created_link_id() {
    let b = backend();
    match b.continue_setup(IllumosSetupStage::CreatingTunnel, ok(42)) {
        Step::Continue(IllumosSetupStage::OpeningIpadm { link_id: 42 }, IllumosRequest::OpenIpadm { flags: 0 }) => {}
        other => panic!("unexpected {:?}", other),
    }
}

#[test]
fn caddr_reads_back_as_c_string() {
    let buf = addr_to_caddr(b"2001:db8::2");
    let end = buf.iter().position(|&b| b == 0).unwrap();
    assert_eq!(std::str::from_utf8(&buf[..end]).unwrap(), "2001:db8::2");
}
