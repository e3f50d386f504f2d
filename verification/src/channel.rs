//! The queues between the threads of a player.
//!
//! Frames and encoded output travel through bounded channels of the
//! `crossbeam_channel` crate. What a channel answers depends on what the
//! thread at its other end has done, so the functions here promise nothing of
//! their results: callers are verified for every answer.

use vstd::prelude::*;
use crossbeam_channel::{Receiver, Sender, TryRecvError, TrySendError};
use crate::frame_data::TimestampedFrame;

verus! {

/// The sending half of a `crossbeam_channel` channel, carried as it is.
#[verifier::external_type_specification]
#[verifier::external_body]
#[verifier::reject_recursive_types(T)]
pub struct ExSender<T>(Sender<T>);

/// The receiving half of a `crossbeam_channel` channel, carried as it is.
#[verifier::external_type_specification]
#[verifier::external_body]
#[verifier::reject_recursive_types(T)]
pub struct ExReceiver<T>(Receiver<T>);

/// What became of a message that was offered to a queue without waiting.
#[derive(Clone, Copy, PartialEq, Eq, Structural, Debug)]
pub enum Offer {
    /// The queue took the message.
    Sent,
    /// The queue was full; the message is gone.
    Full,
    /// Nobody reads the queue any more; the message is gone.
    Disconnected,
}

/// What a queue of frames gave when asked without waiting.
#[derive(Debug)]
pub enum Polled {
    /// The next frame.
    Frame(TimestampedFrame),
    /// Nothing is queued for now.
    Empty,
    /// Nothing is queued and nobody will send again.
    Disconnected,
}

/// Offers encoded output to the writer's queue by
/// `crossbeam_channel::Sender::try_send`, which never waits. The three
/// outcomes of that call are handed on one for one; which of them comes is
/// not claimed.
#[verifier::external_body]
pub(crate) fn offer_bytes(tx: &Sender<Vec<u8>>, bytes: Vec<u8>) -> (outcome: Offer) {
    match tx.try_send(bytes) {
        Ok(()) => Offer::Sent,
        Err(TrySendError::Full(_)) => Offer::Full,
        Err(TrySendError::Disconnected(_)) => Offer::Disconnected,
    }
}

/// Hands encoded output to the writer's queue by
/// `crossbeam_channel::Sender::send`, which waits for room. Returns whether
/// the queue took the bytes; whether it does is not claimed.
#[verifier::external_body]
pub(crate) fn send_bytes(tx: &Sender<Vec<u8>>, bytes: Vec<u8>) -> (taken: bool) {
    tx.send(bytes).is_ok()
}

/// Asks the queue of frames for its next frame by
/// `crossbeam_channel::Receiver::try_recv`, which never waits. The outcomes
/// of that call are handed on one for one; which of them comes is not
/// claimed.
#[verifier::external_body]
pub(crate) fn poll_frame(rx: &Receiver<TimestampedFrame>) -> (polled: Polled) {
    match rx.try_recv() {
        Ok(frame) => Polled::Frame(frame),
        Err(TryRecvError::Empty) => Polled::Empty,
        Err(TryRecvError::Disconnected) => Polled::Disconnected,
    }
}

} // verus!
