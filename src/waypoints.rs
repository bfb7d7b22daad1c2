//! The shared waypoints: the state behind one lock, a condition to park on, and the
//! clock that deadlines are measured on.
use std::sync::{Arc, Condvar, LockResult, Mutex, MutexGuard};
use std::time::{Duration, Instant};
use vstd::prelude::*;

use crate::gate::{GateState, Passage};

verus! {

type Guard<'a> = MutexGuard<'a, GateState>;

/// A series of waypoints.
///
/// It holds the next expected waypoint and the earliest time at which it may
/// be passed. All its methods take a shared reference, so threads usually share
/// it through an [`Arc`] (see [`Waypoints::new_arc`]).
#[derive(Debug)]
pub struct Waypoints {
    state: Mutex<GateState>,
    cv: Condvar,
    origin: Instant,
}

/// The value that a mutex was made around.
pub uninterp spec fn made_with(m: Mutex<GateState>) -> GateState;

/// The value under a held lock.
pub uninterp spec fn held(g: MutexGuard<'_, GateState>) -> GateState;

/// Relies on `Mutex::new`: an unlocked mutex around `s`.
#[verifier::external_body]
fn new_lock(s: GateState) -> (r: Mutex<GateState>)
    ensures
        made_with(r) == s,
{
    Mutex::new(s)
}

/// Whether a caller waiting for `low` must keep waiting.
fn short_of(s: &GateState, low: usize) -> (r: bool)
    ensures
        r == (s.current < low),
{
    s.current < low
}

/// Nanoseconds as a point on the clock, held at its last value.
fn saturate(n: u128) -> (r: u64)
    ensures
        r as int == if n > u64::MAX { u64::MAX as int } else { n as int },
{
    if n > u64::MAX as u128 { u64::MAX } else { n as u64 }
}

/// Relies on `MutexGuard`'s `Deref`: the value under the held lock.
#[verifier::external_body]
fn read(g: &Guard<'_>) -> (r: GateState)
    ensures
        r == held(*g),
{
    **g
}

/// Relies on `MutexGuard`'s `DerefMut`: replaces the value under the held lock.
#[verifier::external_body]
fn write(g: &mut Guard<'_>, s: GateState)
    ensures
        held(*final(g)) == s,
{
    **g = s;
}

/// Relies on `Condvar::wait_while`: parks, with the lock released, until the
/// counter has reached `low`, and returns with the lock held again. The
/// condition is only ever used with the one mutex of its `Waypoints`. A
/// poisoned lock ends the wait with `Err` whatever the counter.
#[verifier::external_body]
fn wait_reached<'a>(cv: &Condvar, g: Guard<'a>, low: usize) -> (r: LockResult<Guard<'a>>)
    ensures
        r matches Ok(g) ==> held(g).current >= low,
{
    cv.wait_while(g, |s| short_of(s, low))
}

/// Relies on `Condvar::wait_timeout_while` under a condition that never ends
/// the wait: parks, with the lock released, until `d` has elapsed, wakeups on
/// the condition notwithstanding. The lock is given up on return.
#[verifier::external_body]
fn park_for(cv: &Condvar, g: Guard<'_>, d: Duration) {
    let _ = cv.wait_timeout_while(g, d, |_| true);
}

/// Gives up the lock.
fn release(g: Guard<'_>) {
}

impl Waypoints {
    /// The state the waypoints were made with.
    pub closed spec fn first_state(&self) -> GateState {
        made_with(self.state)
    }

    /// Creates `Waypoints` that expect point 0 next, with no time constraint.
    pub fn new() -> (r: Self)
        ensures
            r.first_state() == (GateState { current: 0, earliest_next: None }),
    {
        Waypoints { state: new_lock(GateState::initial()), cv: Condvar::new(), origin: Instant::now() }
    }

    /// Creates `Waypoints` wrapped in an [`Arc`].
    pub fn new_arc() -> (r: Arc<Self>)
        ensures
            r.first_state() == (GateState { current: 0, earliest_next: None }),
    {
        Arc::new(Self::new())
    }

    fn state_lck(&self) -> Guard<'_> {
        Self::into_guard(self.state.lock())
    }

    /// No operation fails while it holds the lock, so the state under a
    /// poisoned lock is still sound: take it.
    fn into_guard(state: LockResult<Guard<'_>>) -> (r: Guard<'_>)
        ensures
            state matches Ok(g) ==> r == g,
    {
        match state {
            Ok(lck) => lck,
            Err(err) => err.into_inner(),
        }
    }

    /// The present time on the waypoints' clock.
    fn now(&self) -> u64 {
        saturate(self.origin.elapsed().as_nanos())
    }

    /// An instant as a point on the waypoints' clock; one before the waypoints
    /// were made is its first point.
    fn clock_point(&self, t: Instant) -> u64 {
        saturate(t.saturating_duration_since(self.origin).as_nanos())
    }

    /// Resets the `Waypoints` to expect point 0, with no time constraint.
    pub fn reset(&self) {
        self.set(0, None);
    }

    /// Sets the `Waypoints` to expect point `n` next, no earlier than `t`.
    /// Threads already waiting are not woken.
    pub fn set(&self, n: usize, t: Option<Instant>) {
        let earliest_next = match t {
            Some(t) => Some(self.clock_point(t)),
            None => None,
        };
        let mut lck = self.state_lck();
        write(&mut lck, GateState { current: n, earliest_next });
        release(lck);
    }

    /// Passes point `n` once the counter has reached it. See [`Self::range`].
    pub fn point(&self, n: usize, head_start: Option<Duration>) -> (r: Result<(), usize>)
        ensures
            r matches Err(c) ==> c != n || c == usize::MAX,
    {
        self.range(n, n, head_start)
    }

    /// Passes a waypoint once the counter has reached `l`, if it then lies in
    /// `[l, h]`: several threads may pass one such window in any order.
    ///
    /// On success the counter moves on by one. The caller is first held until
    /// a deadline left by an earlier pass, if that lies ahead; a `head_start`
    /// makes the next pass wait at least that long after this one. Then every
    /// waiting thread is woken. Where the counter has already left the window,
    /// its value is the error and nothing changes; so it is at `usize::MAX`,
    /// which has no successor.
    pub fn range(&self, l: usize, h: usize, head_start: Option<Duration>) -> (r: Result<(), usize>)
        ensures
            r matches Err(c) ==> !(l <= c && c <= h && c < usize::MAX),
            l > h ==> r is Err,
    {
        let head_start = match head_start {
            Some(d) => Some(saturate(d.as_nanos())),
            None => None,
        };
        let lck = self.state_lck();
        let mut lck = Self::into_guard(wait_reached(&self.cv, lck, l));
        let s = read(&lck);
        let now = self.now();
        let p: Passage = s.advance(l, h, head_start, now);
        if p.outcome.is_err() {
            release(lck);
            return p.outcome;
        }
        write(&mut lck, p.state);
        match p.hold_until {
            Some(t) => park_for(&self.cv, lck, Duration::from_nanos(t - now)),
            None => release(lck),
        }
        self.cv.notify_all();
        p.outcome
    }
}

} // verus!
