//! The plain, non-blocking calls on the two unbounded channels that connect
//! the render loop and the timer task.
//!
//! What comes out of a channel depends on what another thread put in, so the
//! calls promise nothing about their results: callers are verified for every
//! value that may come back.

use tokio::sync::mpsc::error::TryRecvError;
use tokio::sync::mpsc::{UnboundedReceiver, UnboundedSender};
use vstd::prelude::*;

verus! {

/// `tokio::sync::mpsc::UnboundedReceiver`, carried as an opaque value.
#[verifier::external_type_specification]
#[verifier::external_body]
#[verifier::reject_recursive_types(T)]
pub struct ExUnboundedReceiver<T>(UnboundedReceiver<T>);

/// `tokio::sync::mpsc::UnboundedSender`, carried as an opaque value.
#[verifier::external_type_specification]
#[verifier::external_body]
#[verifier::reject_recursive_types(T)]
pub struct ExUnboundedSender<T>(UnboundedSender<T>);

/// What one look at a channel found, without waiting.
#[derive(Debug)]
pub enum Polled<T> {
    /// The oldest pending message, now taken out of the channel.
    Message(T),
    /// Nothing is pending, but a sender is still alive.
    Empty,
    /// Nothing is pending and every sender is gone.
    Disconnected,
}

/// The other half of the tick channel is gone: for the receiving half, no
/// tick is pending and no sender is left; for a sending half, the receiver
/// is closed or dropped.
#[derive(Debug, Clone, Copy, PartialEq, Eq)]
pub struct TickChannelClosed;

/// Calls `UnboundedReceiver::try_recv` and reports its three outcomes.
///
/// Nothing is claimed about which outcome it is, nor about the receiver
/// afterwards.
#[verifier::external_body]
pub(crate) fn try_receive<T>(receiver: &mut UnboundedReceiver<T>) -> (polled: Polled<T>) {
    match receiver.try_recv() {
        Ok(message) => Polled::Message(message),
        Err(TryRecvError::Empty) => Polled::Empty,
        Err(TryRecvError::Disconnected) => Polled::Disconnected,
    }
}

/// Calls `UnboundedSender::send` and reports whether the message was queued;
/// it is not when the receiving half is closed or dropped.
///
/// Nothing is claimed about which of the two it is.
#[verifier::external_body]
pub(crate) fn send_message<T>(sender: &UnboundedSender<T>, message: T) -> (queued: bool) {
    sender.send(message).is_ok()
}

} // verus!
