use vstd::prelude::*;

use crate::motion::MotionState;
use crate::publisher::StatePublisher;

verus! {

#[verifier::external_type_specification]
#[verifier::external_body]
#[verifier::reject_recursive_types(T)]
pub struct ExOneshotSender<T>(tokio::sync::oneshot::Sender<T>);

/// A request for a new read handle on the published motion state.
pub enum SubscriptionRequest {
    /// Deliver a read handle on `reply`.
    Get { reply: tokio::sync::oneshot::Sender<tokio::sync::watch::Receiver<MotionState>> },
}

/// Relies on tokio::sync::oneshot::Sender::send: it hands `handle` to the
/// waiting receiver, and reports whether that receiver was still there.
#[verifier::external_body]
fn deliver(
    reply: tokio::sync::oneshot::Sender<tokio::sync::watch::Receiver<MotionState>>,
    handle: tokio::sync::watch::Receiver<MotionState>,
) -> (delivered: bool) {
    reply.send(handle).is_ok()
}

/// Serves one subscription request: a fresh read handle on `publisher`, one
/// that `StatePublisher::subscribe` guarantees to read the slot, goes to the
/// request's reply channel. A requester that has gone away is no
/// error: the handle is dropped and `false` comes back. The published state
/// is not touched.
pub fn serve_request(publisher: &StatePublisher, request: SubscriptionRequest) -> (delivered:
    bool) {
    match request {
        SubscriptionRequest::Get { reply } => deliver(reply, publisher.subscribe()),
    }
}

} // verus!
