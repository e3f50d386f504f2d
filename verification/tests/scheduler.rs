use crossbeam_channel::bounded;
use term_video::frame_data::{FrameData, TimestampedFrame};
use term_video::channel::Offer;
use term_video::pacing::{
    animation_step, frame_due, lockstep_wait, producer_step, queue_capacity, Pace, ProducerStep,
};
use term_video::scheduler::{effective_fps, frame_interval, Action, Scheduler, SchedulerConfig};

fn frame(ms: u64) -> TimestampedFrame {
    TimestampedFrame::new(FrameData::new(vec![ms as u8; 3], 1, 1), ms * 1000)
}

fn config() -> SchedulerConfig {
    SchedulerConfig::for_interval(33_333)
}

fn presented(action: Action) -> u64 {
    match action {
        Action::Present(f) => f.timestamp,
        other => panic!("expected a frame, got {:?}", other),
    }
}

#[test]
fn drain_selects_newest_due_frame() {
    // frames at 0, 33, 66, 100 and 133 ms are queued, the clock stands at 100 ms
    let mut s = Scheduler::new(config());
    let time = 100_000;
    let mut taken = 0;
    for ms in [0u64, 33, 66, 100, 133] {
        taken += 1;
        if !s.offer(frame(ms), time) {
            break;
        }
    }
    assert_eq!(taken, 5);
    assert!(s.holds_upcoming());
    // the frames at 0, 33 and 66 ms were passed over
    assert_eq!(s.dropped(), 3);
    assert_eq!(presented(s.decide(time, false)), 100_000);
    assert_eq!(s.presented(), 1);
    assert_eq!(s.dropped(), 3);
    // the frame at 133 ms is waited for in naps of one tick
    match s.decide(time, false) {
        Action::Sleep(nap) => assert_eq!(nap, 1000),
        other => panic!("{:?}", other),
    }
    match s.decide(132_500, false) {
        Action::Sleep(nap) => assert_eq!(nap, 500),
        other => panic!("{:?}", other),
    }
    assert!(s.promote(133_000));
    assert_eq!(presented(s.decide(133_000, false)), 133_000);
    assert_eq!(s.dropped(), 3);
}

#[test]
fn drain_after_first_frame_was_shown_drops_two() {
    // the frame at 0 ms started the clock and was shown; at 100 ms the frames
    // at 33, 66, 100 and 133 ms are queued
    let (tx, rx) = bounded::<TimestampedFrame>(8);
    let mut s = Scheduler::new(config());
    tx.send(frame(0)).unwrap();
    assert_eq!(presented(s.poll(&rx, 5_000_000, false)), 0);
    for ms in [33u64, 66, 100, 133] {
        tx.send(frame(ms)).unwrap();
    }
    assert_eq!(s.playback_time(5_100_000), 100_000);
    assert_eq!(presented(s.poll(&rx, 5_100_000, false)), 100_000);
    assert_eq!(s.dropped(), 2);
    assert_eq!(s.presented(), 2);
    assert!(s.holds_upcoming());
    assert!(rx.is_empty());
}

#[test]
fn cancelled_poll_takes_and_shows_nothing() {
    let (tx, rx) = bounded::<TimestampedFrame>(8);
    let mut s = Scheduler::new(config());
    tx.send(frame(0)).unwrap();
    assert!(matches!(s.poll(&rx, 0, true), Action::Stop));
    assert_eq!(rx.len(), 1);
    assert_eq!(s.presented(), 0);
    assert!(matches!(s.decide(0, true), Action::Stop));
    // and goes on where it was once asked again without the request
    assert_eq!(presented(s.poll(&rx, 0, false)), 0);
}

#[test]
fn empty_queue_naps_and_ended_queue_finishes() {
    let (tx, rx) = bounded::<TimestampedFrame>(8);
    let mut s = Scheduler::new(config());
    match s.poll(&rx, 10, false) {
        Action::Sleep(nap) => assert_eq!(nap, 1000),
        other => panic!("{:?}", other),
    }
    assert!(!s.has_ended());
    tx.send(frame(0)).unwrap();
    tx.send(frame(50)).unwrap();
    drop(tx);
    assert_eq!(presented(s.poll(&rx, 1000, false)), 0);
    // the frame at 50 ms is held back; the end of the queue is seen later
    match s.poll(&rx, 1000 + 49_900, false) {
        Action::Sleep(nap) => assert_eq!(nap, 100),
        other => panic!("{:?}", other),
    }
    assert_eq!(presented(s.poll(&rx, 1000 + 50_000, false)), 50_000);
    assert!(s.has_ended());
    assert!(matches!(s.poll(&rx, 1000 + 50_001, false), Action::Finished));
}

#[test]
fn frames_are_never_shown_out_of_order() {
    let mut s = Scheduler::new(config());
    assert!(s.offer(frame(100), 200_000));
    assert_eq!(presented(s.decide(200_000, false)), 100_000);
    // an older frame arrives late: it is dropped
    assert!(s.offer(frame(50), 200_000));
    assert_eq!(s.dropped(), 1);
    match s.decide(200_000, false) {
        Action::Sleep(_) => {}
        other => panic!("{:?}", other),
    }
    // of two due frames the newer stays, whatever the order they came in
    assert!(s.offer(frame(150), 200_000));
    assert!(s.offer(frame(120), 200_000));
    assert_eq!(s.dropped(), 2);
    assert_eq!(presented(s.decide(200_000, false)), 150_000);
}

#[test]
fn drain_is_limited_per_round() {
    let (tx, rx) = bounded::<TimestampedFrame>(16);
    let mut cfg = config();
    cfg.max_drain = 3;
    let mut s = Scheduler::new(cfg);
    for ms in 0..10u64 {
        tx.send(frame(ms)).unwrap();
    }
    s.start_clock(0);
    assert_eq!(s.drain(&rx, 1_000_000), 3);
    assert_eq!(rx.len(), 7);
    assert_eq!(s.dropped(), 2);
    assert_eq!(presented(s.decide(1_000_000, false)), 2_000);
}

#[test]
fn render_cost_average_and_overload() {
    let mut s = Scheduler::new(config());
    assert_eq!(s.average_cost(), 33_333);
    assert!(!s.is_overloaded());
    assert_eq!(s.lateness_limit(), u64::MAX);
    // 0.3 * 100000 + 0.7 * 33333 = 53333.1
    s.record_render_cost(100_000);
    assert_eq!(s.average_cost(), 53_333);
    // 53333 * 1000 > 1200 * 33333 = 39999600: overloaded
    assert!(s.is_overloaded());
    assert_eq!(s.lateness_limit(), 33_333);
    // while overloaded a frame more than one interval late is dropped
    assert!(s.offer(frame(0), 40_000));
    match s.decide(40_000, false) {
        Action::Sleep(nap) => assert_eq!(nap, 1000),
        other => panic!("{:?}", other),
    }
    assert_eq!(s.dropped(), 1);
    assert!(s.offer(frame(10), 40_000));
    assert_eq!(presented(s.decide(40_000, false)), 10_000);
    // cheap frames bring the average down again
    for _ in 0..10 {
        s.record_render_cost(1_000);
    }
    assert!(!s.is_overloaded());
    // just at the factor is not above it
    let mut edge = Scheduler::new(SchedulerConfig { ewma_weight: 1000, ..config() });
    edge.record_render_cost(39_999);
    assert_eq!(edge.average_cost(), 39_999);
    assert!(!edge.is_overloaded());
    edge.record_render_cost(40_000);
    assert!(edge.is_overloaded());
}

#[test]
fn intervals_and_rates() {
    assert_eq!(frame_interval(0), None);
    assert_eq!(frame_interval(3000), Some(33_333));
    assert_eq!(frame_interval(2398), Some(41_701));
    assert_eq!(frame_interval(6000), Some(16_666));
    assert_eq!(effective_fps(5994, Some(2400)), 2400);
    assert_eq!(effective_fps(2398, Some(2400)), 2398);
    assert_eq!(effective_fps(5994, None), 5994);
}

#[test]
fn lockstep_pacing() {
    assert_eq!(frame_due(3, 41_666), 124_998);
    assert_eq!(frame_due(u64::MAX, 2), u64::MAX);
    assert_eq!(lockstep_wait(3, 41_666, 100_000), 24_998);
    // a frame is never shown early, however short the wait
    assert_eq!(lockstep_wait(3, 41_666, 124_898), 100);
    assert_eq!(lockstep_wait(3, 41_666, 124_997), 1);
    assert_eq!(lockstep_wait(3, 41_666, 124_998), 0);
    assert_eq!(lockstep_wait(1, 33_333, 33_300), 33);
    assert_eq!(lockstep_wait(3, 41_666, 200_000), 0);
    assert_eq!(lockstep_wait(0, 41_666, 0), 0);
    assert_eq!(queue_capacity(24), 48);
}

#[test]
fn animation_pacing() {
    assert_eq!(animation_step(2, 16_666, 30_000, 50_000), Pace::Wait(3_332));
    assert_eq!(animation_step(2, 16_666, 33_332, 50_000), Pace::Show);
    assert_eq!(animation_step(2, 16_666, 83_332, 50_000), Pace::Show);
    assert_eq!(animation_step(2, 16_666, 83_333, 50_000), Pace::Skip);
}

#[test]
fn producer_steps() {
    assert_eq!(producer_step(false, Offer::Sent), ProducerStep::ReadNext);
    assert_eq!(producer_step(false, Offer::Full), ProducerStep::NapAndOfferAgain(100));
    assert_eq!(producer_step(false, Offer::Disconnected), ProducerStep::Stop);
    // a producer asked to stop stops, whatever became of the frame
    assert_eq!(producer_step(true, Offer::Sent), ProducerStep::Stop);
    assert_eq!(producer_step(true, Offer::Full), ProducerStep::Stop);
    assert_eq!(producer_step(true, Offer::Disconnected), ProducerStep::Stop);
}
