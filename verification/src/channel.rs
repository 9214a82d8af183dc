use vstd::prelude::*;

verus! {

/// The producer half of a job's one-shot completion channel, declared so
/// that a `Job` can own it (tokio::sync::oneshot::Sender).
#[verifier::external_type_specification]
#[verifier::external_body]
#[verifier::reject_recursive_types(T)]
pub struct ExOneshotSender<T>(tokio::sync::oneshot::Sender<T>);

/// The consumer half of a job's one-shot completion channel, handed back to
/// the front end that submitted the job (tokio::sync::oneshot::Receiver).
#[verifier::external_type_specification]
#[verifier::external_body]
#[verifier::reject_recursive_types(T)]
pub struct ExOneshotReceiver<T>(tokio::sync::oneshot::Receiver<T>);

/// The failure a receiver observes when the sender half was dropped without
/// sending (tokio::sync::oneshot::error::RecvError); the receiver's
/// polling interface names it, so it has to be declared alongside.
#[verifier::external_type_specification]
#[verifier::external_body]
pub struct ExOneshotRecvError(tokio::sync::oneshot::error::RecvError);

/// Relies on tokio::sync::oneshot::channel: creates a fresh connected
/// sender/receiver pair. Which value the receiver will observe depends only
/// on what is later given to the sender, so nothing is stated here.
#[verifier::external_body]
pub(crate) fn completion_channel<T>() -> (
    tokio::sync::oneshot::Sender<T>,
    tokio::sync::oneshot::Receiver<T>,
) {
    tokio::sync::oneshot::channel()
}

/// Relies on tokio::sync::oneshot::Sender::send: delivers the value to the
/// paired receiver if that half still exists, and otherwise discards it; it
/// never blocks and never panics, so a vanished caller degrades to a no-op.
#[verifier::external_body]
pub(crate) fn send_completion<T>(tx: tokio::sync::oneshot::Sender<T>, value: T) -> (delivered: bool) {
    tx.send(value).is_ok()
}

} // verus!
