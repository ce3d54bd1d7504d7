//! Trusted declarations for the tokio bounded mpsc channel that carries
//! deletion requests from room timers to the deletion handler.

use crate::room_id::RoomId;
use vstd::prelude::*;

verus! {

#[verifier::external_type_specification]
#[verifier::external_body]
#[verifier::reject_recursive_types(T)]
pub struct ExSender<T>(tokio::sync::mpsc::Sender<T>);

#[verifier::external_type_specification]
#[verifier::external_body]
#[verifier::reject_recursive_types(T)]
pub struct ExReceiver<T>(tokio::sync::mpsc::Receiver<T>);

/// Relies on `tokio::sync::mpsc::channel`: returns the sender and receiver
/// halves of a fresh bounded channel. tokio panics when `buffer` is zero or
/// exceeds its semaphore limit of `usize::MAX / 8`, so those inputs are
/// excluded here.
#[verifier::external_body]
pub(crate) fn bounded_channel(buffer: usize) -> (halves: (
    tokio::sync::mpsc::Sender<RoomId>,
    tokio::sync::mpsc::Receiver<RoomId>,
))
    requires
        1 <= buffer <= usize::MAX / 8,
{
    tokio::sync::mpsc::channel(buffer)
}

/// Relies on `tokio::sync::mpsc::Receiver::blocking_recv`: waits for the next
/// value on the channel and returns `None` once the channel is closed and
/// drained. Which value arrives depends on concurrent senders, so nothing is
/// claimed about it. tokio panics when this is called from inside an
/// asynchronous execution context; callers must drive it from a plain thread.
#[verifier::external_body]
pub(crate) fn blocking_recv(receiver: &mut tokio::sync::mpsc::Receiver<RoomId>) -> (received:
    Option<RoomId>)
{
    receiver.blocking_recv()
}

} // verus!
