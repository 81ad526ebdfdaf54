//! The command channel: multi-producer, single-consumer, carrying mode
//! changes from the front end to the generation loop. The queue itself is
//! `std::sync::mpsc`; the declarations and wrappers here are the trusted
//! boundary around it.

use std::sync::mpsc::{Receiver, Sender, TryRecvError};
use vstd::prelude::*;

use crate::types::{AppState, ControlError, ControllerMessage};

verus! {

#[verifier::external_type_specification]
#[verifier::external_body]
#[verifier::reject_recursive_types(T)]
pub struct ExSender<T>(Sender<T>);

#[verifier::external_type_specification]
#[verifier::external_body]
#[verifier::reject_recursive_types(T)]
pub struct ExReceiver<T>(Receiver<T>);

/// Relies on std::sync::mpsc::channel: yields a connected sender/receiver
/// pair over an unbounded queue.
#[verifier::external_body]
pub(crate) fn new_channel() -> (r: (Sender<ControllerMessage>, Receiver<ControllerMessage>)) {
    std::sync::mpsc::channel()
}

/// Relies on std::sync::mpsc::Sender::send: never blocks, fails only when
/// the receiver is gone, and the error carries the unsent message back.
#[verifier::external_body]
fn send_message(tx: &Sender<ControllerMessage>, message: ControllerMessage) -> (r: Result<
    (),
    ControllerMessage,
>)
    ensures
        r matches Err(m) ==> m == message,
{
    match tx.send(message) {
        Ok(()) => Ok(()),
        Err(std::sync::mpsc::SendError(m)) => Err(m),
    }
}

/// Relies on std::sync::mpsc::Receiver::try_recv: never blocks, and yields
/// a queued message or nothing — nothing both when the queue is momentarily
/// empty and when every sender is gone.
#[verifier::external_body]
pub(crate) fn try_recv_message(rx: &Receiver<ControllerMessage>) -> (r: Option<ControllerMessage>) {
    match rx.try_recv() {
        Ok(m) => Some(m),
        Err(TryRecvError::Empty) => None,
        Err(TryRecvError::Disconnected) => None,
    }
}

/// Enqueues a mode change for the generation loop; only well-formed modes
/// travel, ill-formed parameters having been rejected where the mode was
/// built. Never blocks; when the loop has terminated and the channel is
/// dead, the failure comes back as a dismissable error value rather than a
/// panic.
pub fn send_command(tx: &Sender<ControllerMessage>, state: AppState) -> (r: Result<
    (),
    ControlError,
>)
    requires
        state.well_formed(),
    ensures
        r matches Err(e) ==> e == ControlError::Disconnected,
{
    match send_message(tx, ControllerMessage::Change(state)) {
        Ok(()) => Ok(()),
        Err(_) => Err(ControlError::Disconnected),
    }
}

} // verus!
