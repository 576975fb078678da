use vstd::prelude::*;

use crate::broker::{serve_request, SubscriptionRequest};
use crate::ingest::{
    action_for, ingest_log, ingest_state, next_phase, IngestAction, IngestInput, IngestLoop, IngestPhase,
};
use crate::motion::MotionState;
use crate::publisher::StatePublisher;

verus! {

#[verifier::external_type_specification]
#[verifier::external_body]
pub struct ExCancellationToken(tokio_util::sync::CancellationToken);

/// Relies on tokio_util::sync::CancellationToken::new: a token not yet cancelled.
pub assume_specification[ tokio_util::sync::CancellationToken::new ]() -> (r:
    tokio_util::sync::CancellationToken);

/// Relies on tokio_util::sync::CancellationToken::cancel: it wakes every task
/// waiting on the token or one of its clones.
pub assume_specification[ tokio_util::sync::CancellationToken::cancel ](
    token: &tokio_util::sync::CancellationToken,
);

/// What one of the monitor's three concurrent branches reports.
pub enum MonitorEvent {
    /// Cancellation was requested.
    Cancelled,
    /// The subscription request queue was closed by its last sender.
    RequestsClosed,
    /// A subscription request arrived.
    Request(SubscriptionRequest),
    /// The ingest loop's outside work came back with this result.
    Ingest(IngestInput),
}

/// What the driver of the monitor does next.
#[derive(Debug, Clone, Copy, PartialEq, Eq, Structural)]
pub enum MonitorAction {
    /// The task is over: abandon every branch.
    Finish,
    /// Keep every branch running as it is.
    Continue,
    /// Start this outside work for the ingest loop.
    Ingest(IngestAction),
}

/// The monitor task of one camera: it owns the publisher, serves
/// subscription requests, and drives the ingest loop, until the first of its
/// branches finishes or it is cancelled.
pub struct MonitorTask {
    publisher: StatePublisher,
    ingest: IngestLoop,
    cancel: tokio_util::sync::CancellationToken,
    finished: bool,
}

impl MonitorTask {
    /// The publisher that the task owns.
    pub closed spec fn slot(&self) -> StatePublisher {
        self.publisher
    }

    /// The state that the task currently publishes.
    pub open spec fn state(&self) -> MotionState {
        self.slot()@
    }

    /// Every state the task has published so far, oldest first.
    pub open spec fn published(&self) -> Seq<MotionState> {
        self.slot().log()
    }

    /// Where the task's ingest loop stands.
    pub closed spec fn phase(&self) -> IngestPhase {
        self.ingest.phase
    }

    /// Whether the task is over.
    pub closed spec fn is_finished(&self) -> bool {
        self.finished
    }

    /// A task that publishes `Unknown`, has no session yet and is not over.
    pub fn new() -> (r: MonitorTask)
        ensures
            r.state() == MotionState::Unknown,
            r.published() == Seq::<MotionState>::empty(),
            r.phase() == IngestPhase::NoSession,
            !r.is_finished(),
    {
        MonitorTask {
            publisher: StatePublisher::new(),
            ingest: IngestLoop::new(),
            cancel: tokio_util::sync::CancellationToken::new(),
            finished: false,
        }
    }

    /// The token whose cancellation ends the task.
    pub fn cancel_token(&self) -> &tokio_util::sync::CancellationToken {
        &self.cancel
    }

    /// The publisher of the task's motion state.
    pub fn publisher(&self) -> (r: &StatePublisher)
        ensures
            *r == self.slot(),
    {
        &self.publisher
    }

    /// Whether the task is over.
    pub fn finished(&self) -> (r: bool)
        ensures
            r == self.is_finished(),
    {
        self.finished
    }

    /// The first outside work of the ingest loop, or `Finish` for a task that is over.
    pub fn start(&self) -> (r: MonitorAction)
        ensures
            self.is_finished() ==> r == MonitorAction::Finish,
            !self.is_finished() ==> r == MonitorAction::Ingest(action_for(self.phase())),
    {
        if self.finished {
            MonitorAction::Finish
        } else {
            MonitorAction::Ingest(self.ingest.action())
        }
    }

    /// Requests cancellation: the token is cancelled and the task is over.
    /// The published state stays as it is.
    pub fn cancel(&mut self)
        ensures
            final(self).is_finished(),
            final(self).slot() == old(self).slot(),
            final(self).phase() == old(self).phase(),
    {
        self.cancel.cancel();
        self.finished = true;
    }

    /// Handles what one branch reported. The first branch to finish ends the
    /// task: cancellation or a closed request queue finishes it, and once it
    /// is over every later event is dropped unhandled and nothing changes. A
    /// request is served, in the order requests are handed in, with a new read
    /// handle on the task's publisher, which is left untouched; an ingest result
    /// moves the ingest loop and publishes exactly what it calls for.
    pub fn step(&mut self, event: MonitorEvent) -> (r: MonitorAction)
        ensures
            old(self).is_finished() ==> {
                &&& r == MonitorAction::Finish
                &&& final(self).is_finished()
                &&& final(self).slot() == old(self).slot()
                &&& final(self).phase() == old(self).phase()
            },
            !old(self).is_finished() && (event is Cancelled || event is RequestsClosed) ==> {
                &&& r == MonitorAction::Finish
                &&& final(self).is_finished()
                &&& final(self).slot() == old(self).slot()
                &&& final(self).phase() == old(self).phase()
            },
            !old(self).is_finished() && event is Request ==> {
                &&& r == MonitorAction::Continue
                &&& !final(self).is_finished()
                &&& final(self).slot() == old(self).slot()
                &&& final(self).phase() == old(self).phase()
            },
            !old(self).is_finished() && event is Ingest ==> {
                &&& r == MonitorAction::Ingest(action_for(final(self).phase()))
                &&& !final(self).is_finished()
                &&& final(self).phase() == next_phase(old(self).phase(), event->Ingest_0)
                &&& final(self).state() == ingest_state(
                    old(self).state(),
                    old(self).phase(),
                    event->Ingest_0,
                )
                &&& final(self).published() == ingest_log(
                    old(self).published(),
                    old(self).phase(),
                    event->Ingest_0,
                )
                &&& forall|rx: tokio::sync::watch::Receiver<MotionState>|
                    old(self).slot().serves(rx) ==> final(self).slot().serves(rx)
            },
    {
        if self.finished {
            return MonitorAction::Finish;
        }
        match event {
            MonitorEvent::Cancelled => {
                self.finished = true;
                MonitorAction::Finish
            },
            MonitorEvent::RequestsClosed => {
                self.finished = true;
                MonitorAction::Finish
            },
            MonitorEvent::Request(request) => {
                serve_request(&self.publisher, request);
                MonitorAction::Continue
            },
            MonitorEvent::Ingest(input) => {
                let action = self.ingest.step(&mut self.publisher, input);
                MonitorAction::Ingest(action)
            },
        }
    }
}

} // verus!
