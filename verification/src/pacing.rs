//! Pacing for players that show every frame at a fixed rate.
//!
//! Frame number `i` is due `i` frame intervals after playback began. A
//! lock-step player waits for each frame's time and never skips; a stored
//! animation skips a frame that is too late. The producer that feeds such a
//! player waits for room in the queue in short naps, so that a request to
//! stop is seen between two naps. All times are microseconds.

use vstd::prelude::*;
use crate::channel::Offer;

verus! {

/// How long a producer naps before it offers a frame again to a queue that
/// was full.
pub const PRODUCER_NAP: u64 = 100;

/// What a producer does after it offered a frame to the queue.
#[derive(Clone, Copy, PartialEq, Eq, Structural, Debug)]
pub enum ProducerStep {
    /// The frame was taken: read the next one.
    ReadNext,
    /// The queue was full: nap this long, then offer the same frame again.
    NapAndOfferAgain(u64),
    /// Stop producing.
    Stop,
}

/// What a producer does after it offered a frame: it stops when asked to,
/// whatever became of the frame, and when nobody reads the queue any more;
/// it reads on when the frame was taken, and naps when the queue was full.
pub open spec fn producer_next(cancelled: bool, outcome: Offer) -> ProducerStep {
    if cancelled {
        ProducerStep::Stop
    } else {
        match outcome {
            Offer::Sent => ProducerStep::ReadNext,
            Offer::Full => ProducerStep::NapAndOfferAgain(PRODUCER_NAP),
            Offer::Disconnected => ProducerStep::Stop,
        }
    }
}

/// How late a frame of a stored animation may be before it is skipped,
/// unless another limit is given.
pub const DEFAULT_LATE_LIMIT: u64 = 50_000;

/// What to do with the next frame of a stored animation.
#[derive(Clone, Copy, PartialEq, Eq, Structural, Debug)]
pub enum Pace {
    /// Wait this long, then show the frame.
    Wait(u64),
    /// Show the frame now.
    Show,
    /// Leave the frame out.
    Skip,
}

/// When frame number `index` is due, held to the largest time that fits.
pub open spec fn due_time(index: u64, interval: u64) -> u64 {
    if index * interval > u64::MAX {
        u64::MAX
    } else {
        (index * interval) as u64
    }
}

/// How long a lock-step player sleeps before frame number `index`: the time
/// left until the frame is due, or nothing if the frame is due already.
pub open spec fn lockstep_delay(index: u64, interval: u64, elapsed: u64) -> u64 {
    let due = due_time(index, interval);
    if elapsed < due {
        (due - elapsed) as u64
    } else {
        0
    }
}

/// What a stored animation does with frame number `index`: wait while it is
/// early, skip it when it is later than the limit, show it otherwise.
pub open spec fn animation_pace(index: u64, interval: u64, elapsed: u64, late_limit: u64)
    -> Pace {
    let due = due_time(index, interval);
    if elapsed < due {
        Pace::Wait((due - elapsed) as u64)
    } else if elapsed - due > late_limit {
        Pace::Skip
    } else {
        Pace::Show
    }
}

/// Frames that the queue of a lock-step player holds: two seconds' worth.
pub open spec fn lockstep_capacity(fps: u32) -> int {
    fps * 2
}

/// When frame number `index` is due.
pub fn frame_due(index: u64, interval: u64) -> (due: u64)
    ensures
        due == due_time(index, interval),
{
    match index.checked_mul(interval) {
        Some(due) => due,
        None => u64::MAX,
    }
}

/// How long a lock-step player sleeps before frame number `index`.
pub fn lockstep_wait(index: u64, interval: u64, elapsed: u64) -> (wait: u64)
    ensures
        wait == lockstep_delay(index, interval, elapsed),
{
    let due: u64 = frame_due(index, interval);
    if elapsed < due {
        due - elapsed
    } else {
        0
    }
}

/// What a producer does after it offered a frame to the queue, given whether
/// it was asked to stop and what became of the frame.
pub fn producer_step(cancelled: bool, outcome: Offer) -> (step: ProducerStep)
    ensures
        step == producer_next(cancelled, outcome),
        cancelled ==> step == ProducerStep::Stop,
{
    if cancelled {
        ProducerStep::Stop
    } else {
        match outcome {
            Offer::Sent => ProducerStep::ReadNext,
            Offer::Full => ProducerStep::NapAndOfferAgain(PRODUCER_NAP),
            Offer::Disconnected => ProducerStep::Stop,
        }
    }
}

/// What a stored animation does with frame number `index`.
pub fn animation_step(index: u64, interval: u64, elapsed: u64, late_limit: u64) -> (pace: Pace)
    ensures
        pace == animation_pace(index, interval, elapsed, late_limit),
{
    let due: u64 = frame_due(index, interval);
    if elapsed < due {
        Pace::Wait(due - elapsed)
    } else if elapsed - due > late_limit {
        Pace::Skip
    } else {
        Pace::Show
    }
}

/// Frames that the queue of a lock-step player holds.
pub fn queue_capacity(fps: u32) -> (frames: usize)
    requires
        fps * 2 <= usize::MAX,
    ensures
        frames == lockstep_capacity(fps),
{
    fps as usize * 2
}

/// A lock-step player shows no frame early and never sleeps too long: after
/// the wait the time is at least the time the frame is due, and exactly that
/// time where the player had to wait at all.
pub proof fn lemma_lockstep_is_on_time(index: u64, interval: u64, elapsed: u64)
    ensures
        elapsed + lockstep_delay(index, interval, elapsed) >= due_time(index, interval),
        elapsed < due_time(index, interval) ==> elapsed + lockstep_delay(index, interval, elapsed)
            == due_time(index, interval),
        elapsed >= due_time(index, interval) ==> lockstep_delay(index, interval, elapsed) == 0,
{
}

/// Frames of a lock-step player are due in the order of their numbers: a
/// later frame is never due before an earlier one.
pub proof fn lemma_due_times_rise(earlier: u64, later: u64, interval: u64)
    requires
        earlier <= later,
    ensures
        due_time(earlier, interval) <= due_time(later, interval),
{
    assert(earlier * interval <= later * interval) by (nonlinear_arith)
        requires
            earlier <= later,
            interval >= 0,
    ;
}

/// A producer that was asked to stop stops, whatever became of the frame it
/// offered; and it never naps longer than one producer nap before it looks
/// at the request again.
pub proof fn lemma_producer_obeys_stop(cancelled: bool, outcome: Offer)
    ensures
        cancelled ==> producer_next(cancelled, outcome) == ProducerStep::Stop,
        producer_next(cancelled, outcome) matches ProducerStep::NapAndOfferAgain(nap) ==> nap
            <= PRODUCER_NAP,
{
}

} // verus!
