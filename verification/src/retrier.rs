//! The bounded delivery retrier.
//!
//! One delivery runs the acquisition pipeline and then the delivery
//! edit, and retries the whole of it exactly once — with a forced
//! cache bypass, because the most likely cause of a rejected delivery
//! is a previously cached remote handle that has since expired on the
//! transport's media store.  Two attempts is a deliberate cost
//! ceiling: every attempt may re-download a full file.  Cover-art
//! failure never fails an attempt; the driver falls back to delivering
//! without a thumbnail.

use vstd::prelude::*;

verus! {

/// Where one delivery stands.
#[derive(Clone, Copy, PartialEq, Eq, Structural, Debug)]
pub enum RetryState {
    /// Nothing started yet.
    Idle,
    /// Attempt `attempt` is acquiring the track asset.
    Acquiring { attempt: u8 },
    /// Attempt `attempt` acquired its assets and is delivering.
    Delivering { attempt: u8 },
    /// The transport applied the delivery: done.
    Delivered,
    /// Both attempts are spent: done, unsuccessfully.
    Failed,
}

/// What the driver reports back to the retrier.
#[derive(Clone, Copy, PartialEq, Eq, Structural, Debug)]
pub enum RetryEvent {
    /// Kick the delivery off.
    Begin,
    /// The track asset was acquired (cover failure does not count:
    /// the driver delivers without a thumbnail then).
    AcquisitionOk,
    /// The track asset could not be acquired.
    AcquisitionFailed,
    /// The transport applied the delivery edit.
    DeliveryApplied,
    /// The transport reported that the edit did not apply.
    DeliveryNotApplied,
}

/// What the driver must do next.
#[derive(Clone, Copy, PartialEq, Eq, Structural, Debug)]
pub enum RetryAction {
    /// Run the acquisition pipeline for the track (and, independently,
    /// the cover), with this cache-bypass flag.
    RunAcquisition { refresh: bool },
    /// Invoke the external delivery sink with the acquired handles.
    Deliver,
    /// Replace the status message with the fixed failure string.
    ReportFailure,
    /// Terminal or mismatched: nothing to do.
    Ignore,
}

/// The transition relation of the retrier: from a state and an event
/// to the next state and the action the driver owes.  An event that
/// does not belong to the state changes nothing.
pub open spec fn retry_next(s: RetryState, e: RetryEvent) -> (RetryState, RetryAction) {
    match (s, e) {
        (RetryState::Idle, RetryEvent::Begin) => (
            RetryState::Acquiring { attempt: 0 },
            RetryAction::RunAcquisition { refresh: false },
        ),
        (RetryState::Acquiring { attempt }, RetryEvent::AcquisitionOk) => (
            RetryState::Delivering { attempt },
            RetryAction::Deliver,
        ),
        (RetryState::Acquiring { attempt }, RetryEvent::AcquisitionFailed) => if attempt == 0 {
            (RetryState::Acquiring { attempt: 1 }, RetryAction::RunAcquisition { refresh: true })
        } else {
            (RetryState::Failed, RetryAction::ReportFailure)
        },
        (RetryState::Delivering { attempt: _ }, RetryEvent::DeliveryApplied) => (
            RetryState::Delivered,
            RetryAction::Ignore,
        ),
        (RetryState::Delivering { attempt }, RetryEvent::DeliveryNotApplied) => if attempt == 0 {
            (RetryState::Acquiring { attempt: 1 }, RetryAction::RunAcquisition { refresh: true })
        } else {
            (RetryState::Failed, RetryAction::ReportFailure)
        },
        _ => (s, RetryAction::Ignore),
    }
}

/// The delivery retrier: a thin machine around `retry_next`.
pub struct DeliveryRetrier {
    pub state: RetryState,
}

impl DeliveryRetrier {
    /// A retrier with nothing started.
    pub fn new() -> (r: Self)
        ensures
            r.state == RetryState::Idle,
    {
        DeliveryRetrier { state: RetryState::Idle }
    }

    /// Feeds one event; the machine moves exactly as `retry_next`
    /// says and answers with the action the driver owes.
    pub fn step(&mut self, event: RetryEvent) -> (action: RetryAction)
        ensures
            (final(self).state, action) == retry_next(old(self).state, event),
    {
        let (next, action) = match (self.state, event) {
            (RetryState::Idle, RetryEvent::Begin) => (
                RetryState::Acquiring { attempt: 0 },
                RetryAction::RunAcquisition { refresh: false },
            ),
            (RetryState::Acquiring { attempt }, RetryEvent::AcquisitionOk) => (
                RetryState::Delivering { attempt },
                RetryAction::Deliver,
            ),
            (RetryState::Acquiring { attempt }, RetryEvent::AcquisitionFailed) => if attempt == 0 {
                (
                    RetryState::Acquiring { attempt: 1 },
                    RetryAction::RunAcquisition { refresh: true },
                )
            } else {
                (RetryState::Failed, RetryAction::ReportFailure)
            },
            (RetryState::Delivering { attempt: _ }, RetryEvent::DeliveryApplied) => (
                RetryState::Delivered,
                RetryAction::Ignore,
            ),
            (RetryState::Delivering { attempt }, RetryEvent::DeliveryNotApplied) => if attempt
                == 0 {
                (
                    RetryState::Acquiring { attempt: 1 },
                    RetryAction::RunAcquisition { refresh: true },
                )
            } else {
                (RetryState::Failed, RetryAction::ReportFailure)
            },
            (s, _) => (s, RetryAction::Ignore),
        };
        self.state = next;
        action
    }
}

/// The fixed user-facing string a failed delivery leaves behind.
pub fn failure_message() -> (r: &'static str)
    ensures
        r@ == "Не удалось скачать трек"@,
{
    "Не удалось скачать трек"
}

/// The actions a run of the machine emits: one per event, in order.
pub open spec fn run_from(s: RetryState, events: Seq<RetryEvent>) -> Seq<RetryAction>
    decreases events.len(),
{
    if events.len() == 0 {
        Seq::<RetryAction>::empty()
    } else {
        let step = retry_next(s, events[0]);
        seq![step.1] + run_from(step.0, events.drop_first())
    }
}

/// The cache-bypass flags of the acquisitions among the actions, in
/// order.
pub open spec fn acquisition_flags(actions: Seq<RetryAction>) -> Seq<bool>
    decreases actions.len(),
{
    if actions.len() == 0 {
        Seq::<bool>::empty()
    } else {
        let rest = acquisition_flags(actions.drop_first());
        match actions[0] {
            RetryAction::RunAcquisition { refresh } => seq![refresh] + rest,
            _ => rest,
        }
    }
}

/// The acquisitions a state may still start: their flags, in order.
pub open spec fn pending_flags(s: RetryState) -> Seq<bool> {
    match s {
        RetryState::Idle => seq![false, true],
        RetryState::Acquiring { attempt } => if attempt == 0 {
            seq![true]
        } else {
            Seq::<bool>::empty()
        },
        RetryState::Delivering { attempt } => if attempt == 0 {
            seq![true]
        } else {
            Seq::<bool>::empty()
        },
        RetryState::Delivered => Seq::<bool>::empty(),
        RetryState::Failed => Seq::<bool>::empty(),
    }
}

/// From any state, the acquisitions a run starts are a prefix of what
/// the state still allows.
proof fn lemma_retry_flags(s: RetryState, events: Seq<RetryEvent>)
    ensures
        acquisition_flags(run_from(s, events)).is_prefix_of(pending_flags(s)),
    decreases events.len(),
{
    if events.len() > 0 {
        let step = retry_next(s, events[0]);
        lemma_retry_flags(step.0, events.drop_first());
        let actions = run_from(s, events);
        assert(actions.drop_first() =~= run_from(step.0, events.drop_first()));
        let flags = acquisition_flags(actions);
        let rest = acquisition_flags(actions.drop_first());
        if step.1 is RunAcquisition {
            assert(flags =~= seq![step.1->RunAcquisition_refresh] + rest);
            assert(flags =~= pending_flags(s).take(flags.len() as int));
        } else {
            assert(flags == rest);
            assert(pending_flags(step.0).is_prefix_of(pending_flags(s)));
            assert(flags =~= pending_flags(s).take(flags.len() as int));
        }
    }
}

/// Law: one delivery invokes the acquisition pipeline at most twice;
/// the first run never bypasses the cache, and the second run — if it
/// happens — always does.
pub proof fn lemma_retry_bound(events: Seq<RetryEvent>)
    ensures
        acquisition_flags(run_from(RetryState::Idle, events)).len() <= 2,
        acquisition_flags(run_from(RetryState::Idle, events)).len() >= 1 ==> acquisition_flags(
            run_from(RetryState::Idle, events),
        )[0] == false,
        acquisition_flags(run_from(RetryState::Idle, events)).len() == 2 ==> acquisition_flags(
            run_from(RetryState::Idle, events),
        )[1] == true,
{
    lemma_retry_flags(RetryState::Idle, events);
}

} // verus!
