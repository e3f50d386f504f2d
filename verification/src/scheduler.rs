//! Presentation timing: which queued frame is shown, and when.
//!
//! The scheduler works on a playback clock that starts when the first frame
//! arrives. Each round it takes what the queue holds, keeps the newest frame
//! that is due and counts the frames it passed over as dropped. A frame that
//! is not yet due is held back and waited for in short naps, so that a
//! request to stop is never left unseen for longer than one nap. Frames are
//! never shown out of the order of their timestamps.
//!
//! All times are microseconds.

use vstd::prelude::*;
use crossbeam_channel::Receiver;
use crate::channel::{poll_frame, Polled};
use crate::frame_data::TimestampedFrame;

verus! {

/// What a scheduler is tuned with.
#[derive(Clone, Copy, PartialEq, Eq, Structural, Debug)]
pub struct SchedulerConfig {
    /// Ideal time between two frames.
    pub frame_interval: u64,
    /// Longest single nap; a longer wait is taken in several naps.
    pub poll_tick: u64,
    /// Most frames taken from the queue in one round.
    pub max_drain: usize,
    /// Weight of the newest sample in the moving average of the render cost,
    /// in thousandths; values above 1000 count as 1000.
    pub ewma_weight: u64,
    /// Average render cost, in thousandths of the frame interval, above
    /// which the renderer counts as overloaded.
    pub overload_factor: u64,
    /// How late a frame may be and still be shown.
    pub lateness_limit: u64,
    /// How late a frame may be and still be shown while the renderer is
    /// overloaded.
    pub overloaded_lateness_limit: u64,
}

/// What the player is to do next.
#[derive(Debug)]
pub enum Action {
    /// Stop: the player was asked to.
    Stop,
    /// Show this frame now.
    Present(TimestampedFrame),
    /// Wait this long, then ask again.
    Sleep(u64),
    /// Stop: the stream has ended and every frame was dealt with.
    Finished,
}

/// What a scheduler knows.
pub struct Timeline {
    /// What the scheduler is tuned with.
    pub config: SchedulerConfig,
    /// Clock reading at which the first frame arrived; playback time is
    /// counted from there.
    pub origin: Option<u64>,
    /// The newest frame that is due and not yet shown.
    pub due: Option<TimestampedFrame>,
    /// A frame taken from the queue before its time.
    pub upcoming: Option<TimestampedFrame>,
    /// Timestamp of the frame shown last.
    pub last_presented: Option<u64>,
    /// Frames shown so far.
    pub presented: u64,
    /// Frames passed over so far.
    pub dropped: u64,
    /// Moving average of the render cost.
    pub avg_cost: u64,
    /// Whether the queue has ended.
    pub ended: bool,
}

/// One more, but never past the largest count that fits.
pub open spec fn bump(n: u64) -> u64 {
    if n < u64::MAX {
        (n + 1) as u64
    } else {
        n
    }
}

/// The moving average after one more sample. The sample has the given weight
/// in thousandths and the average so far the rest.
pub open spec fn ewma(avg: u64, sample: u64, weight: u64) -> u64 {
    let w = if weight > 1000 {
        1000
    } else {
        weight as int
    };
    ((w * sample + (1000 - w) * avg) / 1000) as u64
}

/// The time between two frames at a rate given in hundredths of a frame per
/// second, rounded down; none at a rate of zero.
pub open spec fn interval_of(fps_hundredths: u32) -> Option<u64> {
    if fps_hundredths == 0 {
        None
    } else {
        Some((100_000_000int / fps_hundredths as int) as u64)
    }
}

/// A frame rate held to a cap, where there is one.
pub open spec fn capped_rate(fps_hundredths: u32, cap: Option<u32>) -> u32 {
    match cap {
        Some(limit) => if fps_hundredths > limit {
            limit
        } else {
            fps_hundredths
        },
        None => fps_hundredths,
    }
}

impl Timeline {
    /// Where nothing has happened yet.
    pub open spec fn start(config: SchedulerConfig) -> Timeline {
        Timeline {
            config,
            origin: None,
            due: None,
            upcoming: None,
            last_presented: None,
            presented: 0,
            dropped: 0,
            avg_cost: config.frame_interval,
            ended: false,
        }
    }

    /// Timestamp that a frame must not fall below to be shown: that of the
    /// due frame, or of the frame shown last.
    pub open spec fn newest(self) -> Option<u64> {
        match self.due {
            Some(frame) => Some(frame.timestamp),
            None => self.last_presented,
        }
    }

    /// Whether a frame would be shown out of order.
    pub open spec fn is_stale(self, frame: TimestampedFrame) -> bool {
        match self.newest() {
            Some(ts) => frame.timestamp < ts,
            None => false,
        }
    }

    /// After taking a frame that is due: a stale frame is dropped, any
    /// other frame becomes the due frame and the one it replaces is dropped.
    pub open spec fn with_due(self, frame: TimestampedFrame) -> Timeline {
        if self.is_stale(frame) {
            Timeline { dropped: bump(self.dropped), ..self }
        } else if self.due is Some {
            Timeline { due: Some(frame), dropped: bump(self.dropped), ..self }
        } else {
            Timeline { due: Some(frame), ..self }
        }
    }

    /// After taking a frame from the queue at a playback time: a frame that
    /// is not yet due is held back, a frame that is due is dealt with.
    pub open spec fn offered(self, frame: TimestampedFrame, time: u64) -> Timeline {
        if frame.timestamp > time {
            Timeline { upcoming: Some(frame), ..self }
        } else {
            self.with_due(frame)
        }
    }

    /// After looking at the frame held back: once it is due it is dealt
    /// with like a frame from the queue.
    pub open spec fn promoted(self, time: u64) -> Timeline {
        match self.upcoming {
            Some(frame) => if frame.timestamp <= time {
                (Timeline { upcoming: None, ..self }).with_due(frame)
            } else {
                self
            },
            None => self,
        }
    }

    /// After taking a run of frames from the queue, one after the other.
    pub open spec fn drained(self, got: Seq<TimestampedFrame>, time: u64) -> Timeline
        decreases got.len(),
    {
        if got.len() == 0 {
            self
        } else {
            self.drained(got.drop_last(), time).offered(got.last(), time)
        }
    }

    /// Whether the average render cost is above the overload factor times
    /// the frame interval.
    pub open spec fn overloaded(self) -> bool {
        self.avg_cost * 1000 > self.config.overload_factor * self.config.frame_interval
    }

    /// How late a frame may be and still be shown.
    pub open spec fn allowed_lateness(self) -> u64 {
        if self.overloaded() {
            self.config.overloaded_lateness_limit
        } else {
            self.config.lateness_limit
        }
    }

    /// How late a frame is at a playback time.
    pub open spec fn lateness(frame: TimestampedFrame, time: u64) -> int {
        if time > frame.timestamp {
            time - frame.timestamp
        } else {
            0
        }
    }

    /// Whether the due frame is shown at a playback time: there is one, it
    /// is not older than the frame shown last, and it is not too late.
    pub open spec fn shows_due(self, time: u64) -> bool {
        match self.due {
            Some(frame) => Self::lateness(frame, time) <= self.allowed_lateness() && (
            self.last_presented matches Some(ts) ==> frame.timestamp >= ts),
            None => false,
        }
    }

    /// How long to nap when no frame is shown: until the frame held back is
    /// due, but no longer than one tick.
    pub open spec fn nap(self, time: u64) -> u64 {
        match self.upcoming {
            Some(frame) => if frame.timestamp > time && frame.timestamp - time
                < self.config.poll_tick {
                (frame.timestamp - time) as u64
            } else if frame.timestamp > time {
                self.config.poll_tick
            } else {
                0
            },
            None => self.config.poll_tick,
        }
    }

    /// After deciding at a playback time. A request to stop changes
    /// nothing. Otherwise the due frame leaves: it is shown, or dropped for
    /// being too late or out of order.
    pub open spec fn decided(self, time: u64, cancelled: bool) -> Timeline {
        if cancelled {
            self
        } else {
            match self.due {
                Some(frame) => if self.shows_due(time) {
                    Timeline {
                        due: None,
                        last_presented: Some(frame.timestamp),
                        presented: bump(self.presented),
                        ..self
                    }
                } else {
                    Timeline { due: None, dropped: bump(self.dropped), ..self }
                },
                None => self,
            }
        }
    }

    /// What the player is told at a playback time.
    pub open spec fn action(self, time: u64, cancelled: bool) -> Action {
        if cancelled {
            Action::Stop
        } else if self.shows_due(time) {
            Action::Present(self.due->0)
        } else if self.upcoming is None && self.ended {
            Action::Finished
        } else {
            Action::Sleep(self.nap(time))
        }
    }

    /// Playback time at a clock reading: time since the first frame arrived,
    /// zero before.
    pub open spec fn playback_time(self, now: u64) -> u64 {
        match self.origin {
            Some(origin) => if now > origin {
                (now - origin) as u64
            } else {
                0
            },
            None => 0,
        }
    }

    /// After looking at the frame held back and then taking the frames `got`
    /// from the queue, which then, if `closed`, said that it has ended.
    pub open spec fn taken(self, got: Seq<TimestampedFrame>, closed: bool, time: u64) -> Timeline {
        Timeline { ended: self.ended || closed, ..self.promoted(time).drained(got, time) }
    }

    /// After one round at a clock reading in which the queue gave the frames
    /// `got` and then, if `closed`, said that it has ended.
    pub open spec fn polled(self, got: Seq<TimestampedFrame>, closed: bool, now: u64) -> Timeline {
        let time = self.playback_time(now);
        let taken = self.promoted(time).drained(got, time);
        let marked = Timeline {
            ended: self.ended || closed,
            origin: if self.origin is None && got.len() > 0 {
                Some(now)
            } else {
                self.origin
            },
            ..taken
        };
        marked.decided(time, false)
    }

    /// What the player is told after such a round.
    pub open spec fn polled_action(self, got: Seq<TimestampedFrame>, closed: bool, now: u64)
        -> Action {
        let time = self.playback_time(now);
        let taken = self.promoted(time).drained(got, time);
        let marked = Timeline { ended: self.ended || closed, ..taken };
        marked.action(time, false)
    }
}

/// The time between two frames at a rate given in hundredths of a frame per
/// second; none at a rate of zero.
pub fn frame_interval(fps_hundredths: u32) -> (interval: Option<u64>)
    ensures
        interval == interval_of(fps_hundredths),
{
    if fps_hundredths == 0 {
        None
    } else {
        Some(100_000_000 / fps_hundredths as u64)
    }
}

/// A frame rate held to a cap, where there is one.
pub fn effective_fps(fps_hundredths: u32, cap: Option<u32>) -> (rate: u32)
    ensures
        rate == capped_rate(fps_hundredths, cap),
{
    match cap {
        Some(limit) => if fps_hundredths > limit {
            limit
        } else {
            fps_hundredths
        },
        None => fps_hundredths,
    }
}

/// One more, but never past the largest count that fits.
fn count_up(n: u64) -> (m: u64)
    ensures
        m == bump(n),
{
    if n < u64::MAX {
        n + 1
    } else {
        n
    }
}

impl SchedulerConfig {
    /// The usual tuning for a frame interval: naps of a millisecond, up to
    /// 120 frames a round, a weight of 0.3 for the newest render cost,
    /// overload above 1.2 frame intervals. A frame is shown however late it
    /// is, but no later than one frame interval while the renderer is
    /// overloaded.
    pub fn for_interval(frame_interval: u64) -> (config: Self)
        ensures
            config == (SchedulerConfig {
                frame_interval,
                poll_tick: 1000,
                max_drain: 120,
                ewma_weight: 300,
                overload_factor: 1200,
                lateness_limit: u64::MAX,
                overloaded_lateness_limit: frame_interval,
            }),
    {
        SchedulerConfig {
            frame_interval,
            poll_tick: 1000,
            max_drain: 120,
            ewma_weight: 300,
            overload_factor: 1200,
            lateness_limit: u64::MAX,
            overloaded_lateness_limit: frame_interval,
        }
    }
}

/// Decides which queued frame is shown and when.
pub struct Scheduler {
    config: SchedulerConfig,
    origin: Option<u64>,
    due: Option<TimestampedFrame>,
    upcoming: Option<TimestampedFrame>,
    last_presented: Option<u64>,
    presented: u64,
    dropped: u64,
    avg_cost: u64,
    ended: bool,
}

impl View for Scheduler {
    type V = Timeline;

    closed spec fn view(&self) -> Timeline {
        Timeline {
            config: self.config,
            origin: self.origin,
            due: self.due,
            upcoming: self.upcoming,
            last_presented: self.last_presented,
            presented: self.presented,
            dropped: self.dropped,
            avg_cost: self.avg_cost,
            ended: self.ended,
        }
    }
}

impl Scheduler {
    /// A scheduler that has seen nothing yet. The average render cost
    /// starts at one frame interval.
    pub fn new(config: SchedulerConfig) -> (scheduler: Self)
        ensures
            scheduler@ == Timeline::start(config),
    {
        Scheduler {
            config,
            origin: None,
            due: None,
            upcoming: None,
            last_presented: None,
            presented: 0,
            dropped: 0,
            avg_cost: config.frame_interval,
            ended: false,
        }
    }

    /// Frames shown so far.
    pub fn presented(&self) -> (n: u64)
        ensures
            n == self@.presented,
    {
        self.presented
    }

    /// Frames passed over so far.
    pub fn dropped(&self) -> (n: u64)
        ensures
            n == self@.dropped,
    {
        self.dropped
    }

    /// Moving average of the render cost.
    pub fn average_cost(&self) -> (cost: u64)
        ensures
            cost == self@.avg_cost,
    {
        self.avg_cost
    }

    /// Whether a frame is held back until it is due.
    pub fn holds_upcoming(&self) -> (held: bool)
        ensures
            held == (self@.upcoming is Some),
    {
        self.upcoming.is_some()
    }

    /// Whether the queue has ended.
    pub fn has_ended(&self) -> (ended: bool)
        ensures
            ended == self@.ended,
    {
        self.ended
    }

    /// Playback time at a clock reading.
    pub fn playback_time(&self, now: u64) -> (time: u64)
        ensures
            time == self@.playback_time(now),
    {
        match self.origin {
            Some(origin) => if now > origin {
                now - origin
            } else {
                0
            },
            None => 0,
        }
    }

    /// Starts the playback clock at a clock reading, unless it runs already.
    pub fn start_clock(&mut self, now: u64)
        ensures
            final(self)@ == (Timeline {
                origin: if old(self)@.origin is None {
                    Some(now)
                } else {
                    old(self)@.origin
                },
                ..old(self)@
            }),
    {
        if self.origin.is_none() {
            self.origin = Some(now);
        }
    }

    /// Notes that the queue has ended.
    pub fn mark_ended(&mut self)
        ensures
            final(self)@ == (Timeline { ended: true, ..old(self)@ }),
    {
        self.ended = true;
    }

    /// Whether the renderer counts as overloaded.
    pub fn is_overloaded(&self) -> (overloaded: bool)
        ensures
            overloaded == self@.overloaded(),
    {
        assert(self.avg_cost * 1000 <= u64::MAX * 1000);
        assert(self.config.overload_factor * self.config.frame_interval <= u64::MAX * u64::MAX)
            by (nonlinear_arith)
            requires
                self.config.overload_factor <= u64::MAX,
                self.config.frame_interval <= u64::MAX,
        ;
        self.avg_cost as u128 * 1000 > self.config.overload_factor as u128
            * self.config.frame_interval as u128
    }

    /// How late a frame may be and still be shown.
    pub fn lateness_limit(&self) -> (limit: u64)
        ensures
            limit == self@.allowed_lateness(),
    {
        if self.is_overloaded() {
            self.config.overloaded_lateness_limit
        } else {
            self.config.lateness_limit
        }
    }

    /// Takes the cost of rendering one frame into the moving average.
    pub fn record_render_cost(&mut self, cost: u64)
        ensures
            final(self)@ == (Timeline {
                avg_cost: ewma(old(self)@.avg_cost, cost, old(self)@.config.ewma_weight),
                ..old(self)@
            }),
    {
        let w: u128 = if self.config.ewma_weight > 1000 {
            1000
        } else {
            self.config.ewma_weight as u128
        };
        let avg: u128 = self.avg_cost as u128;
        let sample: u128 = cost as u128;
        assert(w * sample + (1000 - w) * avg <= 1000 * u64::MAX) by (nonlinear_arith)
            requires
                0 <= w <= 1000,
                0 <= sample <= u64::MAX,
                0 <= avg <= u64::MAX,
        ;
        assert(w * sample >= 0 && (1000 - w) * avg >= 0) by (nonlinear_arith)
            requires
                0 <= w <= 1000,
                0 <= sample,
                0 <= avg,
        ;
        self.avg_cost = ((w * sample + (1000 - w) * avg) / 1000) as u64;
    }

    /// Deals with a frame that is due.
    fn take_due(&mut self, frame: TimestampedFrame)
        ensures
            final(self)@ == old(self)@.with_due(frame),
    {
        let floor: Option<u64> = match &self.due {
            Some(held) => Some(held.timestamp),
            None => self.last_presented,
        };
        let stale: bool = match floor {
            Some(ts) => frame.timestamp < ts,
            None => false,
        };
        if stale {
            self.dropped = count_up(self.dropped);
        } else {
            if self.due.is_some() {
                self.dropped = count_up(self.dropped);
            }
            self.due = Some(frame);
        }
    }

    /// Takes one frame from the queue at a playback time. A frame that is
    /// not yet due is held back; the caller then stops taking frames, since
    /// only one frame can be held back. Returns whether the frame was due.
    pub fn offer(&mut self, frame: TimestampedFrame, time: u64) -> (was_due: bool)
        requires
            old(self)@.upcoming is None,
        ensures
            final(self)@ == old(self)@.offered(frame, time),
            was_due == (frame.timestamp <= time),
    {
        if frame.timestamp > time {
            self.upcoming = Some(frame);
            false
        } else {
            self.take_due(frame);
            true
        }
    }

    /// Looks at the frame held back: once it is due it is dealt with like a
    /// frame from the queue. Returns whether no frame is held back any more.
    pub fn promote(&mut self, time: u64) -> (free: bool)
        ensures
            final(self)@ == old(self)@.promoted(time),
            free == (final(self)@.upcoming is None),
    {
        let ready: bool = match &self.upcoming {
            Some(frame) => frame.timestamp <= time,
            None => false,
        };
        if ready {
            let held: Option<TimestampedFrame> = self.upcoming.take();
            match held {
                Some(frame) => {
                    self.take_due(frame);
                },
                None => {},
            }
            true
        } else {
            self.upcoming.is_none()
        }
    }

    /// Decides at a playback time what the player does next. A request to
    /// stop is answered with `Stop` and changes nothing. Otherwise the due
    /// frame, if there is one, is shown or dropped for being too late; where
    /// no frame is shown the answer is a nap, or `Finished` once the queue
    /// has ended and no frame is held back.
    pub fn decide(&mut self, time: u64, cancelled: bool) -> (action: Action)
        ensures
            final(self)@ == old(self)@.decided(time, cancelled),
            action == old(self)@.action(time, cancelled),
    {
        if cancelled {
            return Action::Stop;
        }
        let limit: u64 = self.lateness_limit();
        let tick: u64 = self.config.poll_tick;
        let held: Option<TimestampedFrame> = self.due.take();
        match held {
            Some(frame) => {
                let late: u64 = if time > frame.timestamp {
                    time - frame.timestamp
                } else {
                    0
                };
                let in_order: bool = match self.last_presented {
                    Some(ts) => frame.timestamp >= ts,
                    None => true,
                };
                if late <= limit && in_order {
                    self.last_presented = Some(frame.timestamp);
                    self.presented = count_up(self.presented);
                    return Action::Present(frame);
                }
                self.dropped = count_up(self.dropped);
            },
            None => {},
        }
        match &self.upcoming {
            Some(frame) => {
                if frame.timestamp > time {
                    let wait: u64 = frame.timestamp - time;
                    if wait < tick {
                        Action::Sleep(wait)
                    } else {
                        Action::Sleep(tick)
                    }
                } else {
                    Action::Sleep(0)
                }
            },
            None => {
                if self.ended {
                    Action::Finished
                } else {
                    Action::Sleep(tick)
                }
            },
        }
    }
}

impl Scheduler {
    /// Takes frames from the queue at a playback time until the queue is
    /// empty for now, has ended, gives a frame that is not yet due, or the
    /// round's limit is reached. Nothing is taken while a frame is held back
    /// that is still not due. Returns how many frames were taken.
    ///
    /// What the queue gives is not known beforehand: whatever it gave, the
    /// scheduler ends where promoting and then taking those frames one after
    /// the other leads, and has noted the end of the queue if it was told so.
    pub fn drain(&mut self, rx: &Receiver<TimestampedFrame>, time: u64) -> (taken: usize)
        ensures
            taken <= old(self)@.config.max_drain,
            exists|got: Seq<TimestampedFrame>, closed: bool|
                got.len() == taken && final(self)@ == #[trigger] old(self)@.taken(got, closed, time),
    {
        let ghost start = self@.promoted(time);
        let free: bool = self.promote(time);
        let ghost mut got: Seq<TimestampedFrame> = Seq::empty();
        let ghost mut closed: bool = false;
        let limit: usize = self.config.max_drain;
        let mut taken: usize = 0;
        let mut more: bool = free;
        while more && taken < limit
            invariant
                taken <= limit == old(self)@.config.max_drain,
                got.len() == taken,
                more ==> self@.upcoming is None,
                self@ == (Timeline {
                    ended: old(self)@.ended || closed,
                    ..start.drained(got, time)
                }),
            decreases limit - taken, more as int,
        {
            match poll_frame(rx) {
                Polled::Frame(frame) => {
                    proof {
                        let longer = got.push(frame);
                        assert(longer.drop_last() =~= got);
                        assert(longer.last() == frame);
                        got = longer;
                    }
                    more = self.offer(frame, time);
                    taken = taken + 1;
                },
                Polled::Empty => {
                    more = false;
                },
                Polled::Disconnected => {
                    self.mark_ended();
                    proof {
                        closed = true;
                    }
                    more = false;
                },
            }
        }
        assert(got.len() == taken && self@ == old(self)@.taken(got, closed, time));
        taken
    }

    /// One round of the player's loop at a clock reading: takes what the
    /// queue holds and decides what the player does next. A request to stop
    /// is answered with `Stop` before anything is taken from the queue. The
    /// playback clock starts in the round in which the first frame arrives;
    /// in that round the playback time is zero.
    pub fn poll(&mut self, rx: &Receiver<TimestampedFrame>, now: u64, cancelled: bool) -> (action:
        Action)
        ensures
            cancelled ==> action == Action::Stop && final(self)@ == old(self)@,
            !cancelled ==> exists|got: Seq<TimestampedFrame>, closed: bool|
                got.len() <= old(self)@.config.max_drain && final(self)@ == #[trigger] old(
                    self,
                )@.polled(got, closed, now) && action == old(self)@.polled_action(
                    got,
                    closed,
                    now,
                ),
    {
        if cancelled {
            return Action::Stop;
        }
        let time: u64 = self.playback_time(now);
        let taken: usize = self.drain(rx, time);
        let ghost (got, closed) = choose|got: Seq<TimestampedFrame>, closed: bool|
            got.len() == taken && self@ == #[trigger] old(self)@.taken(got, closed, time);
        if taken > 0 {
            self.start_clock(now);
        }
        let action: Action = self.decide(time, false);
        proof {
            lemma_drained_keeps(old(self)@.promoted(time), got, time);
            assert(self@ == old(self)@.polled(got, closed, now));
            assert(action == old(self)@.polled_action(got, closed, now));
        }
        action
    }
}

/// Taking frames from the queue changes neither the tuning, nor the clock,
/// nor the average cost, nor what is known of the queue's end, nor what was
/// shown.
pub proof fn lemma_drained_keeps(t: Timeline, got: Seq<TimestampedFrame>, time: u64)
    ensures
        t.drained(got, time).config == t.config,
        t.drained(got, time).origin == t.origin,
        t.drained(got, time).avg_cost == t.avg_cost,
        t.drained(got, time).ended == t.ended,
        t.drained(got, time).last_presented == t.last_presented,
        t.drained(got, time).presented == t.presented,
    decreases got.len(),
{
    if got.len() > 0 {
        lemma_drained_keeps(t, got.drop_last(), time);
    }
}

/// Once the player is asked to stop, no frame is shown and nothing is
/// waited for: the answer is `Stop`, and the scheduler is left as it was.
pub proof fn lemma_stop_is_obeyed(t: Timeline, time: u64)
    ensures
        t.action(time, true) == Action::Stop,
        t.decided(time, true) == t,
{
}

/// No nap is longer than one tick, so a request to stop is seen within one
/// tick; and no nap ends after the frame held back has become due.
pub proof fn lemma_naps_are_short(t: Timeline, time: u64)
    ensures
        t.nap(time) <= t.config.poll_tick,
        t.upcoming matches Some(frame) ==> time + t.nap(time) <= frame.timestamp || t.nap(time)
            == 0,
{
}

/// Frames are never shown out of the order of their timestamps: a frame that
/// is shown is not older than the frame shown before it, and is remembered as
/// the frame shown last.
pub proof fn lemma_presented_in_order(t: Timeline, time: u64)
    requires
        t.action(time, false) is Present,
    ensures
        t.due == Some(t.action(time, false)->Present_0),
        t.last_presented matches Some(ts) ==> t.action(time, false)->Present_0.timestamp >= ts,
        t.decided(time, false).last_presented == Some(t.action(time, false)->Present_0.timestamp),
        t.decided(time, false).presented == bump(t.presented),
{
}

/// Where the queue holds frames of rising timestamps that are all due, the
/// newest of them becomes the due frame and every other one is dropped:
/// after `n` such frames, taken when no frame was due and none was shown
/// before, `n - 1` more frames count as dropped.
pub proof fn lemma_drain_keeps_newest(t: Timeline, got: Seq<TimestampedFrame>, time: u64)
    requires
        got.len() > 0,
        t.due is None,
        t.last_presented is None,
        t.dropped + got.len() <= u64::MAX,
        forall|i: int| 0 <= i < got.len() ==> (#[trigger] got[i]).timestamp <= time,
        forall|i: int, j: int|
            0 <= i <= j < got.len() ==> (#[trigger] got[i]).timestamp <= (#[trigger] got[j]).timestamp,
    ensures
        t.drained(got, time).due == Some(got.last()),
        t.drained(got, time).dropped == t.dropped + got.len() - 1,
        t.drained(got, time).upcoming == t.upcoming,
    decreases got.len(),
{
    if got.len() > 1 {
        let head = got.drop_last();
        assert forall|i: int, j: int| 0 <= i <= j < head.len() implies (#[trigger] head[i]).timestamp
            <= (#[trigger] head[j]).timestamp by {
            assert(head[i] == got[i] && head[j] == got[j]);
        }
        assert forall|i: int| 0 <= i < head.len() implies (#[trigger] head[i]).timestamp
            <= time by {
            assert(head[i] == got[i]);
        }
        lemma_drain_keeps_newest(t, head, time);
        lemma_drained_keeps(t, head, time);
        assert(head.last() == got[got.len() - 2]);
        let before = t.drained(head, time);
        assert(got.last() == got[got.len() - 1]);
        assert(!before.is_stale(got.last()));
        assert(t.drained(got, time) == before.offered(got.last(), time));
    } else {
        let head = got.drop_last();
        assert(head.len() == 0);
        assert(t.drained(head, time) == t);
        assert(got.last() == got[0]);
        assert(t.drained(got, time) == t.offered(got.last(), time));
    }
}

} // verus!
