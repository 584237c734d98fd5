//! The tunnel: its errors, and the shape shared by the procedures that set it
//! up, tear it down and query it on each platform.
//!
//! A procedure is a state machine. Its `begin_*` function gives the first
//! request to perform; each reply to the outstanding request is fed to its
//! `continue_*` function, which either gives the next stage and request or
//! finishes with the procedure's outcome. A procedure stops at the first
//! failing request.
use vstd::prelude::*;

pub mod illumos;
pub mod linux;

verus! {

/// Why a tunnel procedure failed; the text describes the failing call.
#[derive(Debug)]
pub enum TunnelError {
    CreationFailed(String),
    DestroyFailed(String),
    AddressFailed(String),
    RouteFailed(String),
    StatusCheckFailed(String),
}

/// A `TunnelError` with its text as a sequence of characters.
pub enum TunnelErrorView {
    CreationFailed(Seq<char>),
    DestroyFailed(Seq<char>),
    AddressFailed(Seq<char>),
    RouteFailed(Seq<char>),
    StatusCheckFailed(Seq<char>),
}

impl View for TunnelError {
    type V = TunnelErrorView;

    open spec fn view(&self) -> TunnelErrorView {
        match self {
            TunnelError::CreationFailed(e) => TunnelErrorView::CreationFailed(e@),
            TunnelError::DestroyFailed(e) => TunnelErrorView::DestroyFailed(e@),
            TunnelError::AddressFailed(e) => TunnelErrorView::AddressFailed(e@),
            TunnelError::RouteFailed(e) => TunnelErrorView::RouteFailed(e@),
            TunnelError::StatusCheckFailed(e) => TunnelErrorView::StatusCheckFailed(e@),
        }
    }
}

impl TunnelErrorView {
    /// The error's human-readable text: what was being done, then the cause.
    pub open spec fn message(self) -> Seq<char> {
        match self {
            TunnelErrorView::CreationFailed(e) => "creating tunnel: "@ + e,
            TunnelErrorView::DestroyFailed(e) => "destroying tunnel: "@ + e,
            TunnelErrorView::AddressFailed(e) => "assigning address: "@ + e,
            TunnelErrorView::RouteFailed(e) => "setting route: "@ + e,
            TunnelErrorView::StatusCheckFailed(e) => "checking tunnel status: "@ + e,
        }
    }
}

impl TunnelError {
    /// The error's human-readable text, such as `creating tunnel: <cause>`.
    pub fn message(&self) -> (text: String)
        ensures
            text@ == self@.message(),
    {
        let (mut text, cause) = match self {
            TunnelError::CreationFailed(e) => (String::from_str("creating tunnel: "), e),
            TunnelError::DestroyFailed(e) => (String::from_str("destroying tunnel: "), e),
            TunnelError::AddressFailed(e) => (String::from_str("assigning address: "), e),
            TunnelError::RouteFailed(e) => (String::from_str("setting route: "), e),
            TunnelError::StatusCheckFailed(e) => (
                String::from_str("checking tunnel status: "),
                e,
            ),
        };
        text.append(cause.as_str());
        text
    }
}

/// What a procedure does after a reply: go on to stage `S` with request `Q`, or
/// finish with an outcome.
#[derive(Debug)]
pub enum Step<S, Q, T> {
    Continue(S, Q),
    Finished(Result<T, TunnelError>),
}

/// A `Step` over the views of its request and error.
pub enum StepView<S, Q, T> {
    Continue(S, Q),
    Finished(Result<T, TunnelErrorView>),
}

impl<S, Q: View, T> View for Step<S, Q, T> {
    type V = StepView<S, Q::V, T>;

    open spec fn view(&self) -> StepView<S, Q::V, T> {
        match self {
            Step::Continue(s, q) => StepView::Continue(*s, q@),
            Step::Finished(Ok(t)) => StepView::Finished(Ok(*t)),
            Step::Finished(Err(e)) => StepView::Finished(Err(e@)),
        }
    }
}

/// What a run of a procedure produced: the requests issued after the first one,
/// in order, and its outcome if it finished.
pub struct Trace<Q, T> {
    pub requests: Seq<Q>,
    pub outcome: Option<Result<T, TunnelErrorView>>,
}

/// Runs a procedure whose transitions are `next` from `stage`, feeding it
/// `replies` in order until it finishes or the replies run out.
pub open spec fn run<S, Q, R, T>(
    next: spec_fn(S, R) -> StepView<S, Q, T>,
    stage: S,
    replies: Seq<R>,
) -> Trace<Q, T>
    decreases replies.len(),
{
    if replies.len() == 0 {
        Trace { requests: Seq::empty(), outcome: None }
    } else {
        match next(stage, replies[0]) {
            StepView::Continue(s, q) => {
                let rest = run(next, s, replies.drop_first());
                Trace { requests: seq![q] + rest.requests, outcome: rest.outcome }
            },
            StepView::Finished(r) => Trace { requests: Seq::empty(), outcome: Some(r) },
        }
    }
}

} // verus!
