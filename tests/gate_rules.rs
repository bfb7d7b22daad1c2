use std::time::{Duration, Instant};
use waypoints::{GateState, Passage, Waypoints};

fn state(current: usize, earliest_next: Option<u64>) -> GateState {
    GateState { current, earliest_next }
}

#[test]
fn initial_state_is_point_zero_without_deadline() {
    assert_eq!(GateState::initial(), state(0, None));
}

#[test]
fn merge_prior_deadline_and_head_start_counts_from_the_later() {
    let p = state(3, Some(500)).advance(3, 3, Some(40), 200);
    assert_eq!(p, Passage { state: state(4, Some(540)), outcome: Ok(()), hold_until: Some(500) });
    let p = state(3, Some(100)).advance(3, 3, Some(40), 200);
    assert_eq!(p, Passage { state: state(4, Some(240)), outcome: Ok(()), hold_until: None });
}

#[test]
fn merge_pending_deadline_without_head_start_is_kept_and_waited_for() {
    let p = state(3, Some(500)).advance(3, 3, None, 200);
    assert_eq!(p, Passage { state: state(4, Some(500)), outcome: Ok(()), hold_until: Some(500) });
}

#[test]
fn merge_expired_deadline_without_head_start_is_cleared() {
    let p = state(3, Some(200)).advance(3, 3, None, 200);
    assert_eq!(p, Passage { state: state(4, None), outcome: Ok(()), hold_until: None });
}

#[test]
fn merge_head_start_alone_counts_from_now() {
    let p = state(3, None).advance(3, 3, Some(70), 1000);
    assert_eq!(p, Passage { state: state(4, Some(1070)), outcome: Ok(()), hold_until: None });
}

#[test]
fn merge_nothing_leaves_no_deadline() {
    let p = state(3, None).advance(3, 3, None, 1000);
    assert_eq!(p, Passage { state: state(4, None), outcome: Ok(()), hold_until: None });
}

#[test]
fn deadline_past_the_clock_is_held_at_its_end() {
    let p = state(0, None).advance(0, 0, Some(u64::MAX), 5);
    assert_eq!(p.state.earliest_next, Some(u64::MAX));
}

#[test]
fn late_caller_gets_current_and_nothing_changes() {
    let s = state(5, Some(900));
    let p = s.advance(2, 4, Some(10), 100);
    assert_eq!(p, Passage { state: s, outcome: Err(5), hold_until: None });
}

#[test]
fn early_caller_gets_current_and_nothing_changes() {
    let s = state(1, None);
    assert_eq!(s.advance(2, 4, None, 0).outcome, Err(1));
}

#[test]
fn last_index_cannot_be_passed() {
    let s = state(usize::MAX, None);
    assert_eq!(s.advance(0, usize::MAX, None, 0).outcome, Err(usize::MAX));
    let w = Waypoints::new();
    w.set(usize::MAX, None);
    assert_eq!(w.point(usize::MAX, None), Err(usize::MAX));
}

#[test]
fn points_in_order_all_pass() {
    let w = Waypoints::new();
    for n in 0..10 {
        assert_eq!(w.point(n, None), Ok(()));
    }
    assert_eq!(w.point(4, None), Err(10));
}

#[test]
fn second_pass_of_a_point_reports_successor() {
    let w = Waypoints::new();
    w.set(7, None);
    assert_eq!(w.point(7, None), Ok(()));
    assert_eq!(w.point(7, None), Err(8));
}

#[test]
fn window_admits_each_caller_until_it_is_left() {
    let w = Waypoints::new();
    w.set(9, None);
    assert_eq!(w.range(9, 11, None), Ok(()));
    assert_eq!(w.range(9, 11, None), Ok(()));
    assert_eq!(w.range(9, 11, None), Ok(()));
    assert_eq!(w.range(9, 11, None), Err(12));
}

#[test]
fn head_start_holds_the_next_pass() {
    let dt = Duration::from_millis(60);
    let w = Waypoints::new();
    let t0 = Instant::now();
    w.point(0, Some(dt)).unwrap();
    w.point(1, Some(Duration::from_millis(1))).unwrap();
    assert!(t0.elapsed() >= dt);
}

#[test]
fn set_deadline_holds_the_pass_and_records_its_head_start() {
    let dt = Duration::from_millis(50);
    let w = Waypoints::new();
    let t0 = Instant::now();
    w.set(6, Some(t0 + dt));
    w.point(6, Some(dt)).unwrap();
    assert!(t0.elapsed() >= dt);
    w.point(7, None).unwrap();
    assert!(t0.elapsed() >= 2 * dt);
}

#[test]
fn reset_then_point_zero_passes_at_once() {
    let w = Waypoints::new();
    w.set(4, Some(Instant::now() + Duration::from_secs(30)));
    w.reset();
    let t0 = Instant::now();
    assert_eq!(w.point(0, None), Ok(()));
    assert!(t0.elapsed() < Duration::from_secs(5));
}

#[test]
fn deadline_before_the_gate_was_built_has_expired() {
    let earlier = Instant::now().checked_sub(Duration::from_millis(5)).unwrap();
    let w = Waypoints::new();
    w.set(0, Some(earlier));
    let t0 = Instant::now();
    assert_eq!(w.point(0, None), Ok(()));
    assert!(t0.elapsed() < Duration::from_secs(5));
}

#[test]
fn empty_window_always_fails() {
    let w = Waypoints::new();
    w.set(5, None);
    assert_eq!(w.range(3, 2, None), Err(5));
    assert_eq!(w.point(5, None), Ok(()));
}
