use vstd::prelude::*;

use crate::motion::{
    motion_transition, published_for, published_seq, published_state, state_after, MotionEvent,
    MotionState,
};
use crate::publisher::StatePublisher;

verus! {

/// How long the ingest loop waits after a failure before it asks for a new
/// session, in milliseconds.
pub const RETRY_DELAY_MS: u64 = 1000;

/// Where the ingest loop stands with the camera's motion session.
#[derive(Debug, Clone, Copy, PartialEq, Eq, Structural)]
pub enum IngestPhase {
    /// No session is open; the next step is to ask for one.
    NoSession,
    /// A session is open; the next step is to await its next event.
    Listening,
    /// The last session attempt or read failed; the loop waits before retrying.
    BackingOff,
}

/// What the outside world reports back to the ingest loop.
#[derive(Debug, Clone, PartialEq, Eq)]
pub enum IngestInput {
    /// The camera granted a motion-listening session.
    SessionOpened,
    /// Asking for a session failed.
    SessionFailed,
    /// The open session delivered an event.
    Event(MotionEvent),
    /// Reading from the open session failed; the session is gone.
    ReadFailed,
    /// The backoff delay has passed.
    BackoffElapsed,
}

/// The outside work that the ingest loop asks for next.
#[derive(Debug, Clone, Copy, PartialEq, Eq, Structural)]
pub enum IngestAction {
    /// Ask the camera for a motion-listening session.
    OpenSession,
    /// Await the next event of the open session.
    ReadNext,
    /// Sleep for the given number of milliseconds.
    Wait(u64),
}

/// The phase that follows `phase` once `input` is reported. An input that
/// does not belong to the phase leaves it where it is.
pub open spec fn next_phase(phase: IngestPhase, input: IngestInput) -> IngestPhase {
    match (phase, input) {
        (IngestPhase::NoSession, IngestInput::SessionOpened) => IngestPhase::Listening,
        (IngestPhase::NoSession, IngestInput::SessionFailed) => IngestPhase::BackingOff,
        (IngestPhase::Listening, IngestInput::ReadFailed) => IngestPhase::BackingOff,
        (IngestPhase::BackingOff, IngestInput::BackoffElapsed) => IngestPhase::NoSession,
        _ => phase,
    }
}

/// The outside work that a phase asks for.
pub open spec fn action_for(phase: IngestPhase) -> IngestAction {
    match phase {
        IngestPhase::NoSession => IngestAction::OpenSession,
        IngestPhase::Listening => IngestAction::ReadNext,
        IngestPhase::BackingOff => IngestAction::Wait(RETRY_DELAY_MS),
    }
}

/// Whether `input` is a motion event that reaches the loop while a session is open.
pub open spec fn accepted_event(phase: IngestPhase, input: IngestInput) -> bool {
    phase == IngestPhase::Listening && input is Event
}

/// The published state after `input` is reported in `phase`: only an event
/// of the open session moves it.
pub open spec fn ingest_state(
    current: MotionState,
    phase: IngestPhase,
    input: IngestInput,
) -> MotionState {
    if accepted_event(phase, input) {
        motion_transition(current, input->Event_0)
    } else {
        current
    }
}

/// The phase of the ingest loop after it started in `p0` and was handed `ins`, in order.
pub open spec fn run_phase(p0: IngestPhase, ins: Seq<IngestInput>) -> IngestPhase
    decreases ins.len(),
{
    if ins.len() == 0 {
        p0
    } else {
        next_phase(run_phase(p0, ins.drop_last()), ins.last())
    }
}

/// The published state after the loop started in `p0` with state `s0` and was
/// handed `ins`, in order.
pub open spec fn run_state(p0: IngestPhase, s0: MotionState, ins: Seq<IngestInput>) -> MotionState
    decreases ins.len(),
{
    if ins.len() == 0 {
        s0
    } else {
        ingest_state(run_state(p0, s0, ins.drop_last()), run_phase(p0, ins.drop_last()), ins.last())
    }
}

/// The motion events of `ins` that reached the loop while a session was open, in order.
pub open spec fn accepted_events(p0: IngestPhase, ins: Seq<IngestInput>) -> Seq<MotionEvent>
    decreases ins.len(),
{
    if ins.len() == 0 {
        Seq::empty()
    } else {
        let prev = accepted_events(p0, ins.drop_last());
        if accepted_event(run_phase(p0, ins.drop_last()), ins.last()) {
            prev.push(ins.last()->Event_0)
        } else {
            prev
        }
    }
}

/// The publications made while the loop started in `p0` was handed `ins`,
/// in order, added to `log0`.
pub open spec fn run_log(p0: IngestPhase, log0: Seq<MotionState>, ins: Seq<IngestInput>) -> Seq<
    MotionState,
>
    decreases ins.len(),
{
    if ins.len() == 0 {
        log0
    } else {
        ingest_log(run_log(p0, log0, ins.drop_last()), run_phase(p0, ins.drop_last()), ins.last())
    }
}

/// Session churn does not corrupt the state: whatever failures, retries and
/// stray inputs come in between, the published state is the one that the
/// events received during open sessions give, in the order they came.
/// What is published is exactly the mapping of those events, in order:
/// one state for each `Start` and `Stop`, nothing for a `NoChange`, and
/// nothing for a failure, a retry or a stray input.
pub proof fn lemma_churn_keeps_state(
    p0: IngestPhase,
    s0: MotionState,
    log0: Seq<MotionState>,
    ins: Seq<IngestInput>,
)
    ensures
        run_state(p0, s0, ins) == state_after(s0, accepted_events(p0, ins)),
        run_log(p0, log0, ins) == log0 + published_seq(accepted_events(p0, ins)),
    decreases ins.len(),
{
    if ins.len() > 0 {
        lemma_churn_keeps_state(p0, s0, log0, ins.drop_last());
        let prev = accepted_events(p0, ins.drop_last());
        if accepted_event(run_phase(p0, ins.drop_last()), ins.last()) {
            assert(prev.push(ins.last()->Event_0).drop_last() =~= prev);
            assert(prev.push(ins.last()->Event_0).last() == ins.last()->Event_0);
            let ps = published_seq(prev);
            let e = ins.last()->Event_0;
            if published_for(e) is Some {
                assert(log0 + ps.push(published_for(e)->Some_0) =~= (log0 + ps).push(
                    published_for(e)->Some_0,
                ));
            }
        }
    }
}

/// A failure to open a session or to read from one leads to a wait of the
/// fixed delay, leaves the published state as it was and publishes nothing; once the delay has
/// passed the loop asks for a new session.
pub proof fn lemma_retry_after_failure(
    s: MotionState,
    log: Seq<MotionState>,
    p: IngestPhase,
    input: IngestInput,
)
    ensures
        action_for(next_phase(IngestPhase::NoSession, IngestInput::SessionFailed))
            == IngestAction::Wait(RETRY_DELAY_MS),
        action_for(next_phase(IngestPhase::Listening, IngestInput::ReadFailed))
            == IngestAction::Wait(RETRY_DELAY_MS),
        action_for(next_phase(IngestPhase::BackingOff, IngestInput::BackoffElapsed))
            == IngestAction::OpenSession,
        !(input is Event) ==> ingest_state(s, p, input) == s,
        !(input is Event) ==> ingest_log(log, p, input) == log,
{
}


/// The publications made when `input` is reported in `phase`, added to
/// `log`: one for a `Start` or `Stop` of the open session, none otherwise.
pub open spec fn ingest_log(
    log: Seq<MotionState>,
    phase: IngestPhase,
    input: IngestInput,
) -> Seq<MotionState> {
    if accepted_event(phase, input) && published_for(input->Event_0) is Some {
        log.push(published_for(input->Event_0)->Some_0)
    } else {
        log
    }
}

/// The ingest loop: it opens a motion session, maps each of its events to
/// the published state, and after any failure waits a fixed delay and starts over.
pub struct IngestLoop {
    pub phase: IngestPhase,
}

impl IngestLoop {
    /// A loop that has no session yet.
    pub fn new() -> (r: IngestLoop)
        ensures
            r.phase == IngestPhase::NoSession,
    {
        IngestLoop { phase: IngestPhase::NoSession }
    }

    /// The outside work that the loop asks for in its current phase.
    pub fn action(&self) -> (r: IngestAction)
        ensures
            r == action_for(self.phase),
    {
        match self.phase {
            IngestPhase::NoSession => IngestAction::OpenSession,
            IngestPhase::Listening => IngestAction::ReadNext,
            IngestPhase::BackingOff => IngestAction::Wait(RETRY_DELAY_MS),
        }
    }

    /// Takes in what the outside world reports, publishes the state that a
    /// motion event calls for, and returns the outside work to do next.
    pub fn step(&mut self, publisher: &mut StatePublisher, input: IngestInput) -> (r:
        IngestAction)
        ensures
            final(self).phase == next_phase(old(self).phase, input),
            final(publisher)@ == ingest_state(old(publisher)@, old(self).phase, input),
            final(publisher).log() == ingest_log(old(publisher).log(), old(self).phase, input),
            forall|rx: tokio::sync::watch::Receiver<MotionState>|
                old(publisher).serves(rx) ==> final(publisher).serves(rx),
            r == action_for(final(self).phase),
    {
        match input {
            IngestInput::SessionOpened => {
                if self.phase == IngestPhase::NoSession {
                    self.phase = IngestPhase::Listening;
                }
            },
            IngestInput::SessionFailed => {
                if self.phase == IngestPhase::NoSession {
                    self.phase = IngestPhase::BackingOff;
                }
            },
            IngestInput::Event(ev) => {
                if self.phase == IngestPhase::Listening {
                    match published_state(ev) {
                        Some(s) => {
                            publisher.publish(s);
                        },
                        None => {},
                    }
                }
            },
            IngestInput::ReadFailed => {
                if self.phase == IngestPhase::Listening {
                    self.phase = IngestPhase::BackingOff;
                }
            },
            IngestInput::BackoffElapsed => {
                if self.phase == IngestPhase::BackingOff {
                    self.phase = IngestPhase::NoSession;
                }
            },
        }
        self.action()
    }
}

} // verus!
