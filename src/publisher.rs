use vstd::prelude::*;

use crate::motion::MotionState;

verus! {

#[verifier::external_type_specification]
#[verifier::external_body]
#[verifier::reject_recursive_types(T)]
pub struct ExWatchSender<T>(tokio::sync::watch::Sender<T>);

#[verifier::external_type_specification]
#[verifier::external_body]
#[verifier::reject_recursive_types(T)]
pub struct ExWatchReceiver<T>(tokio::sync::watch::Receiver<T>);

/// The value that a watch channel currently holds, seen through its sender.
pub uninterp spec fn slot_value(tx: tokio::sync::watch::Sender<MotionState>) -> MotionState;

/// Whether the receiver `rx` belongs to the watch channel of the sender `tx`,
/// so that it reads what `tx` last sent.
pub uninterp spec fn reads_from(
    rx: tokio::sync::watch::Receiver<MotionState>,
    tx: tokio::sync::watch::Sender<MotionState>,
) -> bool;

/// Relies on tokio::sync::watch::channel: the new channel holds `init`.
#[verifier::external_body]
fn open_slot(init: MotionState) -> (r: tokio::sync::watch::Sender<MotionState>)
    ensures
        slot_value(r) == init,
{
    let (tx, _) = tokio::sync::watch::channel(init);
    tx
}

/// Relies on tokio::sync::watch::Sender::send_replace: the channel holds the
/// new value afterwards and the previous one is handed back. It never blocks
/// and succeeds whether or not any receiver is attached; it waits on no
/// receiver, only for the brief read lock of a concurrent `borrow` to end.
/// Every receiver of the channel stays attached to it. The sender is taken
/// by `&mut` although tokio needs only `&`: the write is then visible to the
/// proofs, and as the publisher never clones its sender, no other handle
/// writes the slot.
#[verifier::external_body]
fn replace_slot(tx: &mut tokio::sync::watch::Sender<MotionState>, value: MotionState) -> (r:
    MotionState)
    ensures
        r == slot_value(*old(tx)),
        slot_value(*final(tx)) == value,
        forall|rx: tokio::sync::watch::Receiver<MotionState>|
            reads_from(rx, *old(tx)) ==> reads_from(rx, *final(tx)),
{
    tx.send_replace(value)
}

/// Relies on tokio::sync::watch::Sender::borrow: a copy of the value the channel holds.
#[verifier::external_body]
fn read_slot(tx: &tokio::sync::watch::Sender<MotionState>) -> (r: MotionState)
    ensures
        r == slot_value(*tx),
{
    tx.borrow().clone()
}

/// Relies on tokio::sync::watch::Sender::subscribe: a new read handle on the
/// channel of `tx`. Nothing of the channel's value changes.
#[verifier::external_body]
fn subscribe_slot(tx: &tokio::sync::watch::Sender<MotionState>) -> (r:
    tokio::sync::watch::Receiver<MotionState>)
    ensures
        reads_from(r, *tx),
{
    tx.subscribe()
}

/// Relies on tokio::sync::watch::Receiver::borrow: a copy of the value most
/// recently sent on the receiver's channel, which is the value that its
/// sender `tx` holds. `tx` only names that channel.
#[verifier::external_body]
fn read_handle(
    rx: &tokio::sync::watch::Receiver<MotionState>,
    tx: &tokio::sync::watch::Sender<MotionState>,
) -> (r: MotionState)
    requires
        reads_from(*rx, *tx),
    ensures
        r == slot_value(*tx),
{
    let _ = tx;
    rx.borrow().clone()
}

/// The single-slot broadcast point of the motion state: one writer, any
/// number of readers, and readers only ever see the latest value.
pub struct StatePublisher {
    tx: tokio::sync::watch::Sender<MotionState>,
    log: Ghost<Seq<MotionState>>,
}

impl StatePublisher {
    /// The state that the slot currently holds.
    pub closed spec fn view(&self) -> MotionState {
        slot_value(self.tx)
    }

    /// Every state published so far, oldest first.
    pub closed spec fn log(&self) -> Seq<MotionState> {
        self.log@
    }

    /// Whether `rx` is a read handle on this publisher's slot.
    pub closed spec fn serves(&self, rx: tokio::sync::watch::Receiver<MotionState>) -> bool {
        reads_from(rx, self.tx)
    }

    /// A publisher whose slot holds `Unknown` and that has published nothing.
    pub fn new() -> (r: StatePublisher)
        ensures
            r@ == MotionState::Unknown,
            r.log() == Seq::<MotionState>::empty(),
    {
        StatePublisher { tx: open_slot(MotionState::Unknown), log: Ghost(Seq::empty()) }
    }

    /// Replaces the current state with `state`, whatever it was, and wakes
    /// every reader. Returns the state that was replaced. Every read handle
    /// stays attached and reads `state` from now on.
    pub fn publish(&mut self, state: MotionState) -> (r: MotionState)
        ensures
            r == old(self)@,
            final(self)@ == state,
            final(self).log() == old(self).log().push(state),
            forall|rx: tokio::sync::watch::Receiver<MotionState>|
                old(self).serves(rx) ==> final(self).serves(rx),
    {
        let ghost new_log = self.log@.push(state);
        let prev = replace_slot(&mut self.tx, state);
        self.log = Ghost(new_log);
        prev
    }

    /// The state that the slot currently holds.
    pub fn current(&self) -> (r: MotionState)
        ensures
            r == self@,
    {
        read_slot(&self.tx)
    }

    /// A read handle on the slot: it reads the current state now and the
    /// latest publication later.
    pub fn subscribe(&self) -> (r: tokio::sync::watch::Receiver<MotionState>)
        ensures
            self.serves(r),
    {
        subscribe_slot(&self.tx)
    }

    /// What the read handle `rx` reads now: the state the slot holds, the
    /// latest publication and never an earlier one.
    pub fn read(&self, rx: &tokio::sync::watch::Receiver<MotionState>) -> (r: MotionState)
        requires
            self.serves(*rx),
        ensures
            r == self@,
    {
        read_handle(rx, &self.tx)
    }
}

} // verus!
