//! The unbounded channels that connect the host thread and the window thread.
//!
//! What a receive hands back depends on the other thread, so the contracts
//! here state only what holds of every outcome.

use vstd::prelude::*;
use crossbeam_channel::{Receiver, Sender};

verus! {

#[verifier::external_type_specification]
#[verifier::external_body]
#[verifier::reject_recursive_types(T)]
pub struct ExSender<T>(Sender<T>);

#[verifier::external_type_specification]
#[verifier::external_body]
#[verifier::reject_recursive_types(T)]
pub struct ExReceiver<T>(Receiver<T>);

/// Why a non-blocking receive returned no message.
#[derive(Debug, Clone, Copy, PartialEq, Eq, Structural)]
pub enum RecvFailure {
    /// No message is waiting, and a sender is still alive.
    Empty,
    /// No message is waiting, and every sender is gone.
    Disconnected,
}

/// Relies on `crossbeam_channel::unbounded`: a new channel of unbounded
/// capacity, as its two ends.
#[verifier::external_body]
pub(crate) fn unbounded_channel<T>() -> (Sender<T>, Receiver<T>) {
    crossbeam_channel::unbounded()
}

/// Relies on `crossbeam_channel::Sender::send`: on an unbounded channel it
/// does not block, and it fails only when every receiver is gone, handing
/// the message back.
#[verifier::external_body]
pub(crate) fn send_message<T>(tx: &Sender<T>, msg: T) -> (r: Result<(), T>)
    ensures
        r matches Err(m) ==> m == msg,
{
    tx.send(msg).map_err(|e| e.0)
}

/// Relies on `crossbeam_channel::Receiver::try_recv`: the next message if
/// one is waiting, else why there is none; it never blocks.
#[verifier::external_body]
pub(crate) fn try_receive<T>(rx: &Receiver<T>) -> Result<T, RecvFailure> {
    match rx.try_recv() {
        Ok(v) => Ok(v),
        Err(crossbeam_channel::TryRecvError::Empty) => Err(RecvFailure::Empty),
        Err(crossbeam_channel::TryRecvError::Disconnected) => Err(RecvFailure::Disconnected),
    }
}

/// Relies on `crossbeam_channel::Receiver::recv`: blocks until a message
/// arrives (`Some`) or the channel is empty and every sender is gone
/// (`None`).
#[verifier::external_body]
pub(crate) fn receive<T>(rx: &Receiver<T>) -> Option<T> {
    rx.recv().ok()
}

} // verus!
