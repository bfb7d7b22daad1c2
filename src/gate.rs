//! The state behind the lock and the step that one pass takes, as plain values.
//!
//! Times are nanoseconds on a monotonic clock of the waypoints' own, counted from the
//! moment the waypoints were made. A deadline that would lie past `u64::MAX` is
//! held at `u64::MAX` (over five centuries away).
use vstd::prelude::*;

verus! {

/// What the lock guards: the next expected waypoint and the earliest time at
/// which the next pass may complete.
#[derive(Clone, Copy, Debug, PartialEq, Eq)]
pub struct GateState {
    pub current: usize,
    pub earliest_next: Option<u64>,
}

/// What one pass does: the state it leaves, what it reports, and the time until
/// which its caller is held (if any).
#[derive(Clone, Copy, Debug, PartialEq, Eq)]
pub struct Passage {
    pub state: GateState,
    pub outcome: Result<(), usize>,
    pub hold_until: Option<u64>,
}

/// `x` as a point on the clock, held at the clock's last value.
pub open spec fn clamp(x: int) -> u64 {
    if x > u64::MAX { u64::MAX } else { x as u64 }
}

pub open spec fn later(a: u64, b: u64) -> u64 {
    if a < b { b } else { a }
}

/// The deadline that a successful pass stores for the pass after it.
pub open spec fn next_deadline(prev: Option<u64>, head_start: Option<u64>, now: u64) -> Option<u64> {
    match head_start {
        Some(dt) => match prev {
            Some(t) => Some(clamp(later(now, t) + dt)),
            None => Some(clamp(now + dt)),
        },
        None => match prev {
            Some(t) => if now < t { Some(t) } else { None },
            None => None,
        },
    }
}

/// The time until which a successful pass holds its own caller: the deadline
/// it inherited, when that has not expired yet.
pub open spec fn hold_for(prev: Option<u64>, now: u64) -> Option<u64> {
    match prev {
        Some(t) => if now < t { Some(t) } else { None },
        None => None,
    }
}

/// Whether a pass of the window `[low, high]` succeeds on `s`: the counter lies
/// in the window and has a successor.
pub open spec fn admits(s: GateState, low: usize, high: usize) -> bool {
    low <= s.current && s.current <= high && s.current < usize::MAX
}

/// One pass of the window `[low, high]` at time `now`. A pass that does not
/// succeed reports the counter it found and changes nothing.
pub open spec fn step(s: GateState, low: usize, high: usize, head_start: Option<u64>, now: u64) -> Passage {
    if admits(s, low, high) {
        Passage {
            state: GateState {
                current: (s.current + 1) as usize,
                earliest_next: next_deadline(s.earliest_next, head_start, now),
            },
            outcome: Ok(()),
            hold_until: hold_for(s.earliest_next, now),
        }
    } else {
        Passage { state: s, outcome: Err(s.current), hold_until: None }
    }
}

impl GateState {
    /// The state of fresh waypoints: point 0 is next, with no time constraint.
    pub fn initial() -> (r: GateState)
        ensures
            r.current == 0,
            r.earliest_next is None,
    {
        GateState { current: 0, earliest_next: None }
    }

    /// One pass of the window `[low, high]` at time `now`, with an optional head
    /// start for the pass after it.
    pub fn advance(&self, low: usize, high: usize, head_start: Option<u64>, now: u64) -> (r: Passage)
        ensures
            r == step(*self, low, high, head_start, now),
    {
        if low <= self.current && self.current <= high && self.current < usize::MAX {
            let prev = self.earliest_next;
            let stored = match head_start {
                Some(dt) => match prev {
                    Some(t) => Some(later_of(now, t).saturating_add(dt)),
                    None => Some(now.saturating_add(dt)),
                },
                None => match prev {
                    Some(t) => if now < t { Some(t) } else { None },
                    None => None,
                },
            };
            let held = match prev {
                Some(t) => if now < t { Some(t) } else { None },
                None => None,
            };
            Passage {
                state: GateState { current: self.current + 1, earliest_next: stored },
                outcome: Ok(()),
                hold_until: held,
            }
        } else {
            Passage { state: *self, outcome: Err(self.current), hold_until: None }
        }
    }
}

fn later_of(a: u64, b: u64) -> (r: u64)
    ensures
        r == later(a, b),
{
    if a < b { b } else { a }
}

} // verus!
