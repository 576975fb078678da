use vstd::prelude::*;

verus! {

/// A point in time, in milliseconds from the monitor's own epoch.
pub type Timestamp = u64;

/// The latest known motion condition of the camera.
#[derive(Debug, Clone, PartialEq, Eq)]
pub enum MotionState {
    /// Motion is going on since `since`, with the detector's classification if it gave one.
    Active { since: Timestamp, classification: Option<String> },
    /// Motion stopped at `since`.
    Inactive { since: Timestamp },
    /// No event has been observed yet.
    Unknown,
}

/// One message of the camera's motion feed.
#[derive(Debug, Clone, PartialEq, Eq)]
pub enum MotionEvent {
    /// Motion started at the given time, with an optional classification.
    Start(Timestamp, Option<String>),
    /// Motion stopped at the given time.
    Stop(Timestamp),
    /// The camera reports that nothing changed.
    NoChange,
}

/// The state that an event publishes, if it publishes one.
pub open spec fn published_for(ev: MotionEvent) -> Option<MotionState> {
    match ev {
        MotionEvent::Start(at, classification) => Some(
            MotionState::Active { since: at, classification },
        ),
        MotionEvent::Stop(at) => Some(MotionState::Inactive { since: at }),
        MotionEvent::NoChange => None,
    }
}

/// The current state after `ev` is processed: a publication replaces it
/// whole, anything else leaves it as it was.
pub open spec fn motion_transition(current: MotionState, ev: MotionEvent) -> MotionState {
    match published_for(ev) {
        Some(s) => s,
        None => current,
    }
}

/// The current state after every event of `evs` has been processed, in order.
pub open spec fn state_after(init: MotionState, evs: Seq<MotionEvent>) -> MotionState
    decreases evs.len(),
{
    if evs.len() == 0 {
        init
    } else {
        motion_transition(state_after(init, evs.drop_last()), evs.last())
    }
}

/// The states that `evs` publish, in order: one for each `Start` and `Stop`.
pub open spec fn published_seq(evs: Seq<MotionEvent>) -> Seq<MotionState>
    decreases evs.len(),
{
    if evs.len() == 0 {
        Seq::empty()
    } else {
        match published_for(evs.last()) {
            Some(s) => published_seq(evs.drop_last()).push(s),
            None => published_seq(evs.drop_last()),
        }
    }
}

/// After any sequence of events, the state after event `i` is fixed by event
/// `i` alone whenever that event is a `Start` or a `Stop`: `Start(at, c)` gives
/// `Active { since: at, classification: c }` and `Stop(at)` gives
/// `Inactive { since: at }`. A `NoChange` leaves the state after event `i - 1`.
pub proof fn lemma_state_follows_each_event(init: MotionState, evs: Seq<MotionEvent>, i: int)
    requires
        0 <= i < evs.len(),
    ensures
        evs[i] is Start ==> state_after(init, evs.take(i + 1)) == (MotionState::Active {
            since: evs[i]->Start_0,
            classification: evs[i]->Start_1,
        }),
        evs[i] is Stop ==> state_after(init, evs.take(i + 1)) == (MotionState::Inactive {
            since: evs[i]->Stop_0,
        }),
        evs[i] is NoChange ==> state_after(init, evs.take(i + 1)) == state_after(
            init,
            evs.take(i),
        ),
{
    assert(evs.take(i + 1).drop_last() =~= evs.take(i));
    assert(evs.take(i + 1).last() == evs[i]);
}


/// Maps a motion event to the state it publishes: `Start` to `Active`,
/// `Stop` to `Inactive`, and nothing for `NoChange`.
pub fn published_state(ev: MotionEvent) -> (r: Option<MotionState>)
    ensures
        r == published_for(ev),
{
    match ev {
        MotionEvent::Start(at, classification) => Some(
            MotionState::Active { since: at, classification },
        ),
        MotionEvent::Stop(at) => Some(MotionState::Inactive { since: at }),
        MotionEvent::NoChange => None,
    }
}

} // verus!
