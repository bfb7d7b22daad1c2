//! What holds of every run of the waypoints, stated over [`step`] and proved.
use vstd::prelude::*;

use crate::gate::{admits, clamp, later, step, GateState, Passage};

verus! {

/// A call of a pass: the window `(low, high)`, its head start, and the time on
/// the waypoints' clock at which it takes the lock.
pub type Call = (usize, usize, Option<u64>, u64);

/// The state after the calls, taken one after the other.
pub open spec fn run(s: GateState, calls: Seq<Call>) -> GateState
    decreases calls.len(),
{
    if calls.len() == 0 {
        s
    } else {
        let (low, high, head_start, now) = calls[0];
        run(step(s, low, high, head_start, now).state, calls.drop_first())
    }
}

/// Whether every one of the calls, taken one after the other, finds the
/// counter already at its low bound and succeeds.
pub open spec fn all_pass(s: GateState, calls: Seq<Call>) -> bool
    decreases calls.len(),
{
    calls.len() == 0 || {
        let (low, high, head_start, now) = calls[0];
        &&& low <= s.current
        &&& step(s, low, high, head_start, now).outcome is Ok
        &&& all_pass(step(s, low, high, head_start, now).state, calls.drop_first())
    }
}

/// The time at which a pass that began at `now` lets its caller go.
pub open spec fn completes_at(p: Passage, now: u64) -> u64 {
    match p.hold_until {
        Some(t) => t,
        None => now,
    }
}

/// Single points pass in numeric order only: from counter `c`, a series of
/// single-point calls all succeed exactly when they name `c, c + 1, ...` in
/// turn, and the counter then stands past the last of them.
pub proof fn law_points_pass_in_order(s: GateState, calls: Seq<Call>)
    requires
        forall|i: int| 0 <= i < calls.len() ==> (#[trigger] calls[i]).0 == calls[i].1,
        s.current + calls.len() <= usize::MAX,
    ensures
        all_pass(s, calls) <==> forall|i: int| 0 <= i < calls.len() ==> (#[trigger] calls[i]).0 == s.current + i,
        all_pass(s, calls) ==> run(s, calls).current == s.current + calls.len(),
    decreases calls.len(),
{
    if calls.len() > 0 {
        let (low, high, head_start, now) = calls[0];
        let next = step(s, low, high, head_start, now).state;
        let rest = calls.drop_first();
        assert(forall|i: int| 0 <= i < rest.len() ==> rest[i] == calls[i + 1]);
        law_points_pass_in_order(next, rest);
        if all_pass(s, calls) {
            assert forall|i: int| 0 <= i < calls.len() implies (#[trigger] calls[i]).0 == s.current + i by {
                if i > 0 {
                    assert(rest[i - 1] == calls[i]);
                }
            }
        }
        if forall|i: int| 0 <= i < calls.len() ==> (#[trigger] calls[i]).0 == s.current + i {
            assert(calls[0].0 == s.current);
            assert forall|i: int| 0 <= i < rest.len() implies (#[trigger] rest[i]).0 == next.current + i by {
                assert(calls[i + 1].0 == s.current + i + 1);
            }
        }
    }
}

/// A point passes once: of two passes of point `n` found at `n`, the first
/// succeeds and the second fails, reporting `n + 1`.
pub proof fn law_point_passes_once(
    s: GateState,
    first_head_start: Option<u64>,
    first_now: u64,
    second_head_start: Option<u64>,
    second_now: u64,
)
    requires
        s.current < usize::MAX,
    ensures
        ({
            let n = s.current;
            let first = step(s, n, n, first_head_start, first_now);
            let second = step(first.state, n, n, second_head_start, second_now);
            &&& first.outcome is Ok
            &&& second.outcome == Err::<(), usize>((n + 1) as usize)
            &&& second.state == first.state
        }),
{
}

/// A window admits several callers at once: with the counter at `c` inside
/// `[low, high]`, any `k` passes of that window with `c + k - 1` still inside
/// it all find the counter at or past `low` and succeed, in whatever order
/// they come, and leave the counter at `c + k`.
pub proof fn law_window_admits_all(s: GateState, low: usize, high: usize, calls: Seq<Call>)
    requires
        low <= s.current,
        s.current + calls.len() <= high + 1,
        s.current + calls.len() <= usize::MAX,
        forall|i: int| 0 <= i < calls.len() ==> (#[trigger] calls[i]).0 == low && calls[i].1 == high,
    ensures
        all_pass(s, calls),
        run(s, calls).current == s.current + calls.len(),
    decreases calls.len(),
{
    if calls.len() > 0 {
        let (l, h, head_start, now) = calls[0];
        let rest = calls.drop_first();
        assert(forall|i: int| 0 <= i < rest.len() ==> rest[i] == calls[i + 1]);
        law_window_admits_all(step(s, l, h, head_start, now).state, low, high, rest);
    }
}

/// A head start `dt` given on a successful pass at `now` holds the next
/// successful pass, whenever it comes and whatever it asks, until at least
/// `now + dt`.
pub proof fn law_head_start_holds_next(
    s: GateState,
    low: usize,
    high: usize,
    dt: u64,
    now: u64,
    next_low: usize,
    next_high: usize,
    next_head_start: Option<u64>,
    next_now: u64,
)
    requires
        admits(s, low, high),
        now <= next_now,
        step(step(s, low, high, Some(dt), now).state, next_low, next_high, next_head_start, next_now).outcome is Ok,
    ensures
        ({
            let first = step(s, low, high, Some(dt), now);
            let second = step(first.state, next_low, next_high, next_head_start, next_now);
            completes_at(second, next_now) >= clamp(now + dt)
        }),
{
}

/// A deadline set by hand holds the next pass until it, and that pass's own
/// head start is stored on top of it for the pass after.
pub proof fn law_set_deadline_then_head_start(n: usize, t: u64, dt: u64, now: u64)
    requires
        n < usize::MAX,
    ensures
        ({
            let s = GateState { current: n, earliest_next: Some(t) };
            let p = step(s, n, n, Some(dt), now);
            &&& p.outcome is Ok
            &&& completes_at(p, now) >= t
            &&& p.state.earliest_next == Some(clamp(later(now, t) + dt))
            &&& p.state.earliest_next.unwrap() >= clamp(t + dt)
        }),
{
}

/// After a reset, point 0 passes at once: no delay and no index are inherited.
pub proof fn law_reset_then_first_point(head_start: Option<u64>, now: u64)
    ensures
        ({
            let p = step(GateState { current: 0, earliest_next: None }, 0, 0, head_start, now);
            &&& p.outcome is Ok
            &&& p.hold_until is None
            &&& completes_at(p, now) == now
            &&& p.state.current == 1
        }),
{
}

} // verus!
