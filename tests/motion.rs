use motion_core::control::{control_branch, next_phase, ControlBranch, ControlEvent, ControlPhase, CurveKind};
use motion_core::odometry::{connected_count, plan_tick, HeadingSource};
use motion_core::sequencing::{segment_index, ActionCursor, SegmentClock, SegmentEnd};
use motion_core::settle::SettleTimeouts;

#[test]
fn settle_fires_at_exactly_timeout_and_stays() {
    let mut s = SettleTimeouts::new(100, 1000, 0);
    assert!(!s.update_timeouts(true, true, 50));
    assert!(!s.update_timeouts(true, true, 99));
    assert!(s.update_timeouts(true, true, 100));
    assert!(s.update_timeouts(true, true, 101));
    assert!(s.update_timeouts(true, true, 100_000));
}

#[test]
fn settle_rising_above_restarts() {
    let mut s = SettleTimeouts::new(100, 1000, 0);
    assert!(!s.update_timeouts(false, true, 90));
    assert_eq!(s.small.since, 90);
    assert!(!s.update_timeouts(true, true, 150));
    assert!(s.update_timeouts(true, true, 190));
}

#[test]
fn settle_large_watch_alone() {
    let mut s = SettleTimeouts::new(100, 1000, 0);
    assert!(!s.update_timeouts(false, true, 999));
    assert!(s.update_timeouts(false, true, 1000));
    assert!(!s.update_timeouts(false, false, 1001));
    assert_eq!(s.large.since, 1001);
}

#[test]
fn settle_restart() {
    let mut s = SettleTimeouts::new(10, 20, 0);
    s.restart(500);
    assert_eq!(s.small.since, 500);
    assert_eq!(s.large.since, 500);
    assert!(!s.update_timeouts(true, true, 505));
}

#[test]
fn segment_index_clamps() {
    assert_eq!(segment_index(0, 3), 0);
    assert_eq!(segment_index(2, 3), 2);
    assert_eq!(segment_index(3, 3), 2);
    assert_eq!(segment_index(u64::MAX, 1), 0);
}

#[test]
fn actions_dispatch_once_in_order() {
    let mut c = ActionCursor::new();
    let due = vec![true, true, false, true];
    assert_eq!(c.take_due(&due), (0, 2));
    assert_eq!(c.take_due(&due), (2, 2));
    let due = vec![true, true, true, true];
    assert_eq!(c.take_due(&due), (2, 4));
    assert_eq!(c.take_due(&due), (4, 4));
}

#[test]
fn actions_none_due() {
    let mut c = ActionCursor::new();
    assert_eq!(c.take_due(&vec![false, true]), (0, 0));
    assert_eq!(c.take_due(&vec![]), (0, 0));
}

#[test]
fn segment_times_out() {
    let mut c = SegmentClock::new(1000);
    assert_eq!(c.tick(false, 5999, 0, 5000), None);
    assert_eq!(c.tick(false, 6000, 0, 5000), Some(SegmentEnd::TimedOut));
    assert_eq!(c.timeout_start, 6000);
    assert!(!c.waiting);
}

#[test]
fn segment_arrives_after_wait() {
    let mut c = SegmentClock::new(0);
    assert_eq!(c.tick(true, 100, 50, 5000), None);
    assert!(c.waiting);
    assert_eq!(c.wait_start, 100);
    assert_eq!(c.tick(false, 149, 50, 5000), None);
    assert_eq!(c.tick(false, 150, 50, 5000), Some(SegmentEnd::Arrived));
    assert_eq!(c.timeout_start, 150);
}

#[test]
fn segment_arrives_without_wait() {
    let mut c = SegmentClock::new(0);
    assert_eq!(c.tick(true, 10, 0, 5000), Some(SegmentEnd::Arrived));
}

#[test]
fn odometry_counts_connected() {
    assert_eq!(connected_count(&vec![true, false, true]), 2);
    assert_eq!(connected_count(&vec![]), 0);
}

#[test]
fn odometry_skips_dead_side() {
    assert_eq!(plan_tick(&vec![false, false, false], &vec![true, true, true], true, true), None);
    assert_eq!(plan_tick(&vec![true, true, true], &vec![false, false, false], true, true), None);
}

#[test]
fn odometry_heading_source() {
    let l = vec![true, false, false];
    let r = vec![false, false, true];
    assert_eq!(plan_tick(&l, &r, true, true), Some(HeadingSource::Inertial));
    assert_eq!(plan_tick(&l, &r, false, true), Some(HeadingSource::EncoderDifferential));
    assert_eq!(plan_tick(&l, &r, true, false), Some(HeadingSource::EncoderDifferential));
}

fn ev() -> ControlEvent {
    ControlEvent {
        within_settle_radius: false,
        chained: false,
        passed_target: false,
        pid_timed_out: false,
        heading_converged: false,
    }
}

#[test]
fn phases_move_forward() {
    let p = next_phase(ControlPhase::Tracking, &ControlEvent { within_settle_radius: true, ..ev() });
    assert_eq!(p, ControlPhase::Close);
    assert_eq!(next_phase(p, &ev()), ControlPhase::Close);
    let p = next_phase(p, &ControlEvent { passed_target: true, ..ev() });
    assert_eq!(p, ControlPhase::Exiting);
    assert_eq!(next_phase(p, &ev()), ControlPhase::Exiting);
    let p = next_phase(p, &ControlEvent { heading_converged: true, ..ev() });
    assert_eq!(p, ControlPhase::Settled);
    assert_eq!(next_phase(p, &ev()), ControlPhase::Settled);
}

#[test]
fn chained_segment_never_closes() {
    let e = ControlEvent { within_settle_radius: true, chained: true, ..ev() };
    assert_eq!(next_phase(ControlPhase::Tracking, &e), ControlPhase::Tracking);
}

#[test]
fn pid_timeout_raises_exit() {
    let e = ControlEvent { pid_timed_out: true, ..ev() };
    assert_eq!(next_phase(ControlPhase::Tracking, &e), ControlPhase::Exiting);
}

#[test]
fn branch_by_kind_and_phase() {
    assert_eq!(control_branch(ControlPhase::Tracking, false, CurveKind::Linear), ControlBranch::PointToPoint);
    assert_eq!(control_branch(ControlPhase::Close, false, CurveKind::CubicBezier), ControlBranch::Stanley);
    assert_eq!(control_branch(ControlPhase::Tracking, false, CurveKind::CubicPolynomial), ControlBranch::Stanley);
    assert_eq!(control_branch(ControlPhase::Tracking, true, CurveKind::Linear), ControlBranch::HeadingCorrection);
    assert_eq!(control_branch(ControlPhase::Exiting, false, CurveKind::Linear), ControlBranch::HeadingCorrection);
}
