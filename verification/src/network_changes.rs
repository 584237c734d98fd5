//! Coalescing of network-change notifications: waiting for the next change,
//! then letting a burst of notifications settle before reporting it.
use vstd::prelude::*;

verus! {

/// How long a burst of notifications is given to go quiet, in milliseconds.
pub const COALESCE_WINDOW_MS: u64 = 100;

/// The kinds of network change that are watched.
#[derive(Clone, Copy, Debug, PartialEq, Eq)]
pub enum WatchedGroup {
    /// Links appearing, disappearing or changing state.
    Link,
    /// IPv6 addresses being added or removed.
    Ipv6Address,
    /// IPv6 routes being added or removed.
    Ipv6Route,
}

/// The groups of notifications to subscribe to.
pub fn watched_groups() -> (groups: Vec<WatchedGroup>)
    ensures
        groups@ == seq![WatchedGroup::Link, WatchedGroup::Ipv6Address, WatchedGroup::Ipv6Route],
{
    let mut groups: Vec<WatchedGroup> = Vec::new();
    groups.push(WatchedGroup::Link);
    groups.push(WatchedGroup::Ipv6Address);
    groups.push(WatchedGroup::Ipv6Route);
    groups
}

/// Why no change could be reported.
#[derive(Clone, Copy, Debug, PartialEq, Eq)]
pub enum WatchError {
    /// The notification stream ended before any notification arrived.
    StreamEnded,
}

impl WatchError {
    /// The error's human-readable text.
    pub fn message(&self) -> (text: String)
        ensures
            text@ == "network-change event stream ended"@,
    {
        String::from_str("network-change event stream ended")
    }
}

/// What waiting for the next notification gave.
#[derive(Clone, Copy, Debug, PartialEq, Eq)]
pub enum ChangeEvent {
    /// A notification arrived.
    Message,
    /// The notification stream ended.
    StreamEnded,
    /// The wait's time limit passed with no notification.
    TimedOut,
}

/// Where waiting for a change stands.
#[derive(Clone, Copy, Debug, PartialEq, Eq)]
pub enum WatchStage {
    /// No notification has arrived yet.
    AwaitingFirst,
    /// This many notifications have arrived, and the burst may go on.
    Coalescing(u64),
}

/// What to do after an event: wait again, in this stage and with this time
/// limit in milliseconds (none: wait as long as it takes), or report.
#[derive(Clone, Copy, Debug, PartialEq, Eq)]
pub enum WatchStep {
    Await { stage: WatchStage, timeout_ms: Option<u64> },
    /// The change is reported, with the number of notifications it coalesced.
    Finished(Result<u64, WatchError>),
}

/// The wait after `event` in `stage`: the first notification opens a burst;
/// each further one within the window extends it; the burst is reported once
/// the window passes quietly or the stream ends. The stream ending before any
/// notification is an error. The first wait has no time limit, so it cannot
/// time out; an event that says so is waited past.
pub open spec fn watch_next(stage: WatchStage, event: ChangeEvent) -> WatchStep {
    match stage {
        WatchStage::AwaitingFirst => match event {
            ChangeEvent::Message => WatchStep::Await {
                stage: WatchStage::Coalescing(1),
                timeout_ms: Some(COALESCE_WINDOW_MS),
            },
            ChangeEvent::StreamEnded => WatchStep::Finished(Err(WatchError::StreamEnded)),
            ChangeEvent::TimedOut => WatchStep::Await { stage: WatchStage::AwaitingFirst, timeout_ms: None },
        },
        WatchStage::Coalescing(count) => match event {
            ChangeEvent::Message => WatchStep::Await {
                stage: WatchStage::Coalescing(
                    if count < u64::MAX { (count + 1) as u64 } else { u64::MAX },
                ),
                timeout_ms: Some(COALESCE_WINDOW_MS),
            },
            _ => WatchStep::Finished(Ok(count)),
        },
    }
}

/// The first wait for a change: no notification yet, and no time limit.
pub fn begin_watch() -> (first: (WatchStage, Option<u64>))
    ensures
        first == (WatchStage::AwaitingFirst, None::<u64>),
{
    (WatchStage::AwaitingFirst, None)
}

/// The step that follows `event` in `stage`.
pub fn continue_watch(stage: WatchStage, event: ChangeEvent) -> (step: WatchStep)
    ensures
        step == watch_next(stage, event),
{
    match stage {
        WatchStage::AwaitingFirst => match event {
            ChangeEvent::Message => WatchStep::Await {
                stage: WatchStage::Coalescing(1),
                timeout_ms: Some(COALESCE_WINDOW_MS),
            },
            ChangeEvent::StreamEnded => WatchStep::Finished(Err(WatchError::StreamEnded)),
            ChangeEvent::TimedOut => WatchStep::Await { stage: WatchStage::AwaitingFirst, timeout_ms: None },
        },
        WatchStage::Coalescing(count) => match event {
            ChangeEvent::Message => WatchStep::Await {
                stage: WatchStage::Coalescing(count.saturating_add(1)),
                timeout_ms: Some(COALESCE_WINDOW_MS),
            },
            _ => WatchStep::Finished(Ok(count)),
        },
    }
}

/// What feeding `events` in order from `stage` produced: the time limits of the
/// waits after the first, in order, and the report if one was made.
pub open spec fn watch_run(stage: WatchStage, events: Seq<ChangeEvent>) -> (Seq<Option<u64>>, Option<Result<u64, WatchError>>)
    decreases events.len(),
{
    if events.len() == 0 {
        (Seq::empty(), None)
    } else {
        match watch_next(stage, events[0]) {
            WatchStep::Await { stage: s, timeout_ms } => {
                let rest = watch_run(s, events.drop_first());
                (seq![timeout_ms] + rest.0, rest.1)
            },
            WatchStep::Finished(r) => (Seq::empty(), Some(r)),
        }
    }
}

/// `n` notifications followed by `end`.
pub open spec fn burst(n: nat, end: ChangeEvent) -> Seq<ChangeEvent> {
    Seq::new(n, |i: int| ChangeEvent::Message).push(end)
}

/// A burst of `n` further notifications in a burst of `count` so far, closed by
/// a quiet window or the stream's end, is reported as `count + n`
/// notifications, every wait in it limited to the window.
pub proof fn lemma_burst_is_counted(count: u64, n: nat, end: ChangeEvent)
    requires
        end != ChangeEvent::Message,
        count + n <= u64::MAX,
    ensures
        watch_run(WatchStage::Coalescing(count), burst(n, end)).1 == Some(
            Ok::<u64, WatchError>((count + n) as u64),
        ),
        watch_run(WatchStage::Coalescing(count), burst(n, end)).0 == Seq::new(
            n,
            |i: int| Some(COALESCE_WINDOW_MS),
        ),
    decreases n,
{
    let events = burst(n, end);
    if n == 0 {
        assert(events[0] == end);
        assert(events.len() == 1);
    } else {
        assert(events[0] == ChangeEvent::Message);
        assert(events.drop_first() =~= burst((n - 1) as nat, end));
        lemma_burst_is_counted((count + 1) as u64, (n - 1) as nat, end);
        assert(watch_run(WatchStage::Coalescing(count), events).0 =~= Seq::new(
            n,
            |i: int| Some(COALESCE_WINDOW_MS),
        ));
    }
}

/// A change made of `n` notifications, one at least, that then go quiet or
/// whose stream then ends, is reported once with `n` as its count, after one
/// unlimited wait and `n` waits limited to the window; a stream that ends
/// before any notification is reported as an error.
pub proof fn lemma_change_is_reported_once(n: nat, end: ChangeEvent)
    requires
        end != ChangeEvent::Message,
        n <= u64::MAX,
    ensures
        n >= 1 ==> watch_run(WatchStage::AwaitingFirst, burst(n, end)).1 == Some(
            Ok::<u64, WatchError>(n as u64),
        ),
        n >= 1 ==> watch_run(WatchStage::AwaitingFirst, burst(n, end)).0 == Seq::new(
            n,
            |i: int| Some(COALESCE_WINDOW_MS),
        ),
        watch_run(WatchStage::AwaitingFirst, seq![ChangeEvent::StreamEnded]).1 == Some(
            Err::<u64, WatchError>(WatchError::StreamEnded),
        ),
{
    if n >= 1 {
        let events = burst(n, end);
        assert(events[0] == ChangeEvent::Message);
        assert(events.drop_first() =~= burst((n - 1) as nat, end));
        lemma_burst_is_counted(1, (n - 1) as nat, end);
        assert(watch_run(WatchStage::AwaitingFirst, events).0 =~= Seq::new(
            n,
            |i: int| Some(COALESCE_WINDOW_MS),
        ));
    }
    assert(seq![ChangeEvent::StreamEnded][0] == ChangeEvent::StreamEnded);
}

} // verus!
