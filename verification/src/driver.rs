//! The blocking-operation driver: the decision core of the retry loop
//! that turns would-block results of the engine into readiness waits.
//!
//! A runner (an async executor loop or a manual poll implementation)
//! repeatedly invokes the blocking engine call and feeds each result,
//! together with the direction the engine then declares, to
//! [`drive_step`]. The step says whether the result is surfaced to the
//! caller as it stands, or absorbed — in which case it names the
//! readiness wait to perform before the next invocation. After that wait
//! the runner may additionally pace the retry with a configured delay;
//! `RetryNow` skips both the wait and the pacing delay.
//!
//! Each call's retry state lives entirely in its runner's loop: a task
//! cancelled at a suspension point leaves nothing behind, and the next
//! call on the session starts a fresh exchange.

use vstd::prelude::*;

use crate::block_directions::{BlockDirections, BlockDirectionsExt};
use crate::error::{EngineError, Error};

verus! {

/// Default inter-retry pacing delay, in milliseconds, for driven calls.
pub const RETRY_PACE_MS: u64 = 1;

/// Pacing of the listener accept loop, in milliseconds. A forwarded
/// connection's arrival is multiplexed inside the existing transport and
/// raises no local readiness event, so accept polls the engine on this
/// fixed cadence instead of waiting on transport readiness alone.
pub const LISTENER_ACCEPT_PACE_MS: u64 = 10;

/// What the driver does when the engine reports `Neither` after a
/// would-block result: retry immediately (busy variant), or treat it as
/// an invariant violation (strict variant).
#[derive(Clone, Copy, Debug, PartialEq, Eq, Structural)]
pub enum NotBlockedPolicy {
    Busy,
    Strict,
}

/// The wait a runner must perform before re-invoking the blocking call.
///
/// `WaitBoth` suspends until the *first* of readable/writable is ready
/// (select-first semantics — waiting for both at once would deadlock a
/// handshake that must write before it can read more). A poll-based
/// runner realises it by checking writable before readable, since a
/// driven exchange that needs both begins by writing.
#[derive(Clone, Copy, Debug, PartialEq, Eq, Structural)]
pub enum DriverAction {
    WaitReadable,
    WaitWritable,
    WaitBoth,
    RetryNow,
}

/// The driver's decision about one engine result.
pub enum DriverStep<R> {
    /// The result is final: hand it to the caller unchanged.
    Surface(Result<R, Error>),
    /// The result was a would-block: perform this wait, then retry.
    Suspend(DriverAction),
    /// The engine declared a direction outside what the caller expected
    /// to need — the logic-bug guard tripped. Carries the declaration.
    Mismatch(BlockDirections),
}

/// The full decision: surface any non-would-block result at once; absorb
/// a would-block and pick the wait from the engine's declared direction,
/// guarding it against the direction the caller expected.
pub open spec fn drive_step_spec<R>(
    outcome: Result<R, EngineError>,
    reported: BlockDirections,
    expected: BlockDirections,
    policy: NotBlockedPolicy,
) -> DriverStep<R> {
    match outcome {
        Ok(v) => DriverStep::Surface(Ok(v)),
        Err(e) => if !e.spec_is_would_block() {
            DriverStep::Surface(Err(Error::Ssh2(e)))
        } else {
            match reported {
                BlockDirections::Neither => if policy is Busy {
                    DriverStep::Suspend(DriverAction::RetryNow)
                } else {
                    DriverStep::Mismatch(reported)
                },
                BlockDirections::Inbound => if expected.spec_is_readable() {
                    DriverStep::Suspend(DriverAction::WaitReadable)
                } else {
                    DriverStep::Mismatch(reported)
                },
                BlockDirections::Outbound => if expected.spec_is_writable() {
                    DriverStep::Suspend(DriverAction::WaitWritable)
                } else {
                    DriverStep::Mismatch(reported)
                },
                BlockDirections::Both => if expected.spec_is_readable()
                    && expected.spec_is_writable() {
                    DriverStep::Suspend(DriverAction::WaitBoth)
                } else {
                    DriverStep::Mismatch(reported)
                },
            }
        },
    }
}

/// One driver decision, exactly as [`drive_step_spec`] states it.
pub fn drive_step<R>(
    outcome: Result<R, EngineError>,
    reported: BlockDirections,
    expected: BlockDirections,
    policy: NotBlockedPolicy,
) -> (s: DriverStep<R>)
    ensures
        s == drive_step_spec(outcome, reported, expected, policy),
{
    match outcome {
        Ok(v) => DriverStep::Surface(Ok(v)),
        Err(e) => {
            if !e.is_would_block() {
                DriverStep::Surface(Err(Error::Ssh2(e)))
            } else {
                match reported {
                    BlockDirections::Neither => {
                        if matches!(policy, NotBlockedPolicy::Busy) {
                            DriverStep::Suspend(DriverAction::RetryNow)
                        } else {
                            DriverStep::Mismatch(reported)
                        }
                    },
                    BlockDirections::Inbound => {
                        if expected.is_readable() {
                            DriverStep::Suspend(DriverAction::WaitReadable)
                        } else {
                            DriverStep::Mismatch(reported)
                        }
                    },
                    BlockDirections::Outbound => {
                        if expected.is_writable() {
                            DriverStep::Suspend(DriverAction::WaitWritable)
                        } else {
                            DriverStep::Mismatch(reported)
                        }
                    },
                    BlockDirections::Both => {
                        if expected.is_readable() && expected.is_writable() {
                            DriverStep::Suspend(DriverAction::WaitBoth)
                        } else {
                            DriverStep::Mismatch(reported)
                        }
                    },
                }
            }
        },
    }
}

/// The readiness checks a poll-based runner performs for one suspension,
/// in order. For `WaitBoth` the writable check comes first: a driven
/// exchange that needs both directions begins by writing (a file copy
/// starts with the client writing before any read means anything), so
/// checking readable first could park the task on an event that never
/// comes. `RetryNow` checks nothing.
pub fn poll_check_sequence(action: DriverAction) -> (checks: Vec<DriverAction>)
    ensures
        action is WaitReadable ==> checks@ =~= seq![DriverAction::WaitReadable],
        action is WaitWritable ==> checks@ =~= seq![DriverAction::WaitWritable],
        action is WaitBoth ==> checks@ =~= seq![
            DriverAction::WaitWritable,
            DriverAction::WaitReadable,
        ],
        action is RetryNow ==> checks@ =~= Seq::<DriverAction>::empty(),
{
    let mut checks: Vec<DriverAction> = Vec::new();
    match action {
        DriverAction::WaitReadable => {
            checks.push(DriverAction::WaitReadable);
        },
        DriverAction::WaitWritable => {
            checks.push(DriverAction::WaitWritable);
        },
        DriverAction::WaitBoth => {
            checks.push(DriverAction::WaitWritable);
            checks.push(DriverAction::WaitReadable);
        },
        DriverAction::RetryNow => {},
    }
    checks
}

/// One invocation of the blocking call in a recorded exchange: what the
/// call returned, the direction the engine declared afterwards, and —
/// where a would-block led to a readiness wait — how that wait went.
/// A failed wait carries the transport's error message; `waited` is
/// meaningless (and unread) when the engine result itself settles the
/// exchange.
pub struct EngineEvent<R> {
    pub outcome: Result<R, EngineError>,
    pub reported: BlockDirections,
    pub waited: Result<(), String>,
}

/// The driver's decision about one recorded engine result.
pub open spec fn event_step<R>(
    ev: EngineEvent<R>,
    expected: BlockDirections,
    policy: NotBlockedPolicy,
) -> DriverStep<R> {
    drive_step_spec(ev.outcome, ev.reported, expected, policy)
}

/// True of an invocation the driver absorbs: a would-block with a
/// direction the retry loop can wait for, whose wait then succeeded.
pub open spec fn absorbs<R>(
    ev: EngineEvent<R>,
    expected: BlockDirections,
    policy: NotBlockedPolicy,
) -> bool {
    event_step(ev, expected, policy) is Suspend && ev.waited is Ok
}

/// What one invocation hands the caller, if anything: a non-would-block
/// engine result as it stands, or — when the transport failed while the
/// retry loop waited for readiness — that failure as an I/O error,
/// aborting the loop at once. A tripped direction guard surfaces
/// nothing, and an absorbed invocation settles nothing.
pub open spec fn surfaced_result<R>(
    ev: EngineEvent<R>,
    expected: BlockDirections,
    policy: NotBlockedPolicy,
) -> Option<Result<R, Error>> {
    match event_step(ev, expected, policy) {
        DriverStep::Surface(res) => Some(res),
        DriverStep::Mismatch(_) => None,
        DriverStep::Suspend(_) => match ev.waited {
            Ok(_) => None,
            Err(m) => Some(Err(Error::Io(m))),
        },
    }
}

/// The exchange settles at position `k`: every invocation before `k` is
/// absorbed and the one at `k` is not.
pub open spec fn settles_at<R>(
    events: Seq<EngineEvent<R>>,
    expected: BlockDirections,
    policy: NotBlockedPolicy,
    k: int,
) -> bool {
    &&& 0 <= k < events.len()
    &&& !absorbs(events[k], expected, policy)
    &&& forall|j: int| 0 <= j < k ==> absorbs(#[trigger] events[j], expected, policy)
}

/// How a driven exchange ends.
pub enum DriveOutcome<R> {
    /// A non-would-block engine result reached the caller, after exactly
    /// `invocations` invocations of the blocking call.
    Surfaced { result: Result<R, Error>, invocations: usize },
    /// The logic-bug guard tripped: the engine declared `reported`,
    /// which the caller's expectation does not cover.
    Rejected { reported: BlockDirections, invocations: usize },
    /// Every recorded invocation was absorbed; the call is still in
    /// progress and the next invocation would continue the retry loop.
    StillBlocked { invocations: usize },
}

/// Everything [`drive_script`] promises of its result: the exchange
/// surfaces exactly what the first non-absorbed invocation hands over —
/// nothing is dropped, nothing is duplicated, and nothing follows it.
pub open spec fn drive_script_post<R>(
    events: Seq<EngineEvent<R>>,
    expected: BlockDirections,
    policy: NotBlockedPolicy,
    r: DriveOutcome<R>,
) -> bool {
    match r {
        DriveOutcome::Surfaced { result, invocations } => {
            &&& settles_at(events, expected, policy, invocations - 1)
            &&& surfaced_result(events[invocations - 1], expected, policy) == Some(result)
        },
        DriveOutcome::Rejected { reported, invocations } => {
            &&& settles_at(events, expected, policy, invocations - 1)
            &&& event_step(events[invocations - 1], expected, policy)
                == DriverStep::Mismatch::<R>(reported)
        },
        DriveOutcome::StillBlocked { invocations } => {
            &&& invocations == events.len()
            &&& forall|j: int|
                0 <= j < events.len() ==> absorbs(#[trigger] events[j], expected, policy)
        },
    }
}

/// Runs the driver over a recorded exchange: the sequence of results the
/// blocking call would return, each with the direction the engine then
/// declares. Stops at the first invocation the driver does not absorb
/// and reports how the exchange ended.
pub fn drive_script<R: Copy>(
    events: &Vec<EngineEvent<R>>,
    expected: BlockDirections,
    policy: NotBlockedPolicy,
) -> (r: DriveOutcome<R>)
    ensures
        drive_script_post(events@, expected, policy, r),
{
    let n = events.len();
    let mut i: usize = 0;
    while i < n
        invariant
            n == events@.len(),
            i <= n,
            forall|j: int| 0 <= j < i ==> absorbs(#[trigger] events@[j], expected, policy),
        decreases n - i,
    {
        let ev = &events[i];
        match &ev.outcome {
            Ok(v) => {
                return DriveOutcome::Surfaced { result: Ok(*v), invocations: i + 1 };
            },
            Err(e) => {
                if !e.is_would_block() {
                    return DriveOutcome::Surfaced {
                        result: Err(Error::Ssh2(e.clone())),
                        invocations: i + 1,
                    };
                }
                let rejected = match ev.reported {
                    BlockDirections::Neither => matches!(policy, NotBlockedPolicy::Strict),
                    BlockDirections::Inbound => !expected.is_readable(),
                    BlockDirections::Outbound => !expected.is_writable(),
                    BlockDirections::Both => !(expected.is_readable() && expected.is_writable()),
                };
                if rejected {
                    return DriveOutcome::Rejected { reported: ev.reported, invocations: i + 1 };
                }
                if let Err(m) = &ev.waited {
                    return DriveOutcome::Surfaced {
                        result: Err(Error::Io(m.clone())),
                        invocations: i + 1,
                    };
                }
            },
        }
        i = i + 1;
    }
    DriveOutcome::StillBlocked { invocations: i }
}

/// The settling position of an exchange is unique.
pub proof fn lemma_settles_at_unique<R>(
    events: Seq<EngineEvent<R>>,
    expected: BlockDirections,
    policy: NotBlockedPolicy,
    k1: int,
    k2: int,
)
    requires
        settles_at(events, expected, policy, k1),
        settles_at(events, expected, policy, k2),
    ensures
        k1 == k2,
{
    if k1 < k2 {
        assert(absorbs(events[k1], expected, policy));
    }
    if k2 < k1 {
        assert(absorbs(events[k2], expected, policy));
    }
}

/// Law (liveness): if the blocking call eventually returns success and
/// every earlier invocation was an absorbed would-block, the driver
/// surfaces exactly that success, after exactly that many invocations.
pub proof fn lemma_driver_surfaces_eventual_success<R>(
    events: Seq<EngineEvent<R>>,
    expected: BlockDirections,
    policy: NotBlockedPolicy,
    r: DriveOutcome<R>,
    k: int,
)
    requires
        drive_script_post(events, expected, policy, r),
        0 <= k < events.len(),
        events[k].outcome is Ok,
        forall|j: int| 0 <= j < k ==> absorbs(#[trigger] events[j], expected, policy),
    ensures
        r matches DriveOutcome::Surfaced { result, invocations } && result == Ok::<R, Error>(
            events[k].outcome->Ok_0,
        ) && invocations == k + 1,
{
    assert(event_step(events[k], expected, policy) == DriverStep::Surface(
        Ok::<R, Error>(events[k].outcome->Ok_0),
    ));
    assert(settles_at(events, expected, policy, k));
    match r {
        DriveOutcome::Surfaced { result, invocations } => {
            lemma_settles_at_unique(events, expected, policy, invocations - 1, k);
        },
        DriveOutcome::Rejected { reported, invocations } => {
            lemma_settles_at_unique(events, expected, policy, invocations - 1, k);
        },
        DriveOutcome::StillBlocked { invocations } => {
            assert(absorbs(events[k], expected, policy));
        },
    }
}

/// Law (exactly-once): when the exchange settles on something the
/// driver surfaces, the caller gets exactly that — the first result the
/// retry loop did not absorb — and every invocation before it was
/// absorbed.
pub proof fn lemma_exactly_one_result_surfaced<R>(
    events: Seq<EngineEvent<R>>,
    expected: BlockDirections,
    policy: NotBlockedPolicy,
    r: DriveOutcome<R>,
    k: int,
)
    requires
        drive_script_post(events, expected, policy, r),
        settles_at(events, expected, policy, k),
        !(event_step(events[k], expected, policy) is Mismatch),
    ensures
        r matches DriveOutcome::Surfaced { result, invocations } && surfaced_result(
            events[k],
            expected,
            policy,
        ) == Some(result) && invocations == k + 1,
{
    match r {
        DriveOutcome::Surfaced { result, invocations } => {
            lemma_settles_at_unique(events, expected, policy, invocations - 1, k);
        },
        DriveOutcome::Rejected { reported, invocations } => {
            lemma_settles_at_unique(events, expected, policy, invocations - 1, k);
            assert(event_step(events[k], expected, policy) is Mismatch);
        },
        DriveOutcome::StillBlocked { invocations } => {
            assert(absorbs(events[k], expected, policy));
        },
    }
}

/// Law (abort on transport failure): a transport failure while the
/// retry loop waited for readiness is surfaced at once as an I/O
/// error; no further invocation of the blocking call follows it.
pub proof fn lemma_transport_failure_aborts<R>(
    events: Seq<EngineEvent<R>>,
    expected: BlockDirections,
    policy: NotBlockedPolicy,
    r: DriveOutcome<R>,
    k: int,
)
    requires
        drive_script_post(events, expected, policy, r),
        settles_at(events, expected, policy, k),
        event_step(events[k], expected, policy) is Suspend,
        events[k].waited is Err,
    ensures
        r matches DriveOutcome::Surfaced { result, invocations } && result == Err::<R, Error>(
            Error::Io(events[k].waited->Err_0),
        ) && invocations == k + 1,
{
    match r {
        DriveOutcome::Surfaced { result, invocations } => {
            lemma_settles_at_unique(events, expected, policy, invocations - 1, k);
        },
        DriveOutcome::Rejected { reported, invocations } => {
            lemma_settles_at_unique(events, expected, policy, invocations - 1, k);
            assert(event_step(events[k], expected, policy) is Mismatch);
        },
        DriveOutcome::StillBlocked { invocations } => {
            assert(absorbs(events[k], expected, policy));
        },
    }
}

} // verus!
