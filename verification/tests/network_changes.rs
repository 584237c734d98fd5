use dslite_b4::network_changes::{
    begin_watch, continue_watch, watched_groups, ChangeEvent, WatchError, WatchStage, WatchStep,
    WatchedGroup, COALESCE_WINDOW_MS,
};

fn feed(events: &[ChangeEvent]) -> (Vec<Option<u64>>, Option<Result<u64, WatchError>>) {
    let (mut stage, first) = begin_watch();
    let mut waits = vec![first];
    for &e in events {
        match continue_watch(stage, e) {
            WatchStep::Await { stage: s, timeout_ms } => {
                stage = s;
                waits.push(timeout_ms);
            }
            WatchStep::Finished(r) => return (waits, Some(r)),
        }
    }
    (waits, None)
}

#[test]
fn burst_is_coalesced_into_one_change() {
    let (waits, outcome) = feed(&[
        ChangeEvent::Message,
        ChangeEvent::Message,
        ChangeEvent::Message,
        ChangeEvent::TimedOut,
    ]);
    assert_eq!(outcome, Some(Ok(3)));
    assert_eq!(waits, vec![None, Some(100), Some(100), Some(100)]);
    assert_eq!(COALESCE_WINDOW_MS, 100);
}

#[test]
fn stream_end_closes_a_burst() {
    let (_, outcome) = feed(&[ChangeEvent::Message, ChangeEvent::StreamEnded]);
    assert_eq!(outcome, Some(Ok(1)));
}

#[test]
fn stream_end_before_any_change_is_an_error() {
    let (_, outcome) = feed(&[ChangeEvent::StreamEnded]);
    assert_eq!(outcome, Some(Err(WatchError::StreamEnded)));
    assert_eq!(WatchError::StreamEnded.message(), "network-change event stream ended");
}

#[test]
fn first_wait_has_no_time_limit() {
    assert_eq!(begin_watch(), (WatchStage::AwaitingFirst, None));
    assert_eq!(
        continue_watch(WatchStage::AwaitingFirst, ChangeEvent::TimedOut),
        WatchStep::Await { stage: WatchStage::AwaitingFirst, timeout_ms: None }
    );
}

#[test]
fn count_saturates() {
    assert_eq!(
        continue_watch(WatchStage::Coalescing(u64::MAX), ChangeEvent::Message),
        WatchStep::Await { stage: WatchStage::Coalescing(u64::MAX), timeout_ms: Some(100) }
    );
}

#[test]
fn watched_groups_are_links_ipv6_addresses_and_routes() {
    assert_eq!(
        watched_groups(),
        vec![WatchedGroup::Link, WatchedGroup::Ipv6Address, WatchedGroup::Ipv6Route]
    );
}
