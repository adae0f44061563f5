//! A countdown that decays with wall-clock time at 60 Hz.

use std::time::{Duration, Instant};
use vstd::prelude::*;

verus! {

/// How many times a second a running timer loses one.
pub const FREQUENCY: u128 = 60;

/// The length of a second in the unit the clock is read in.
pub const NANOS_PER_SECOND: u128 = 1_000_000_000;

/// `std::time::Instant`, a reading of the monotonic clock. Nothing is known
/// of what a value of it holds.
#[verifier::external_type_specification]
#[verifier::external_body]
pub struct ExInstant(Instant);

/// Calls `Instant::now`. Nothing is claimed of the reading.
#[verifier::external_body]
fn clock_now() -> (now: Instant) {
    Instant::now()
}

/// Calls `Instant::elapsed`: the time that has passed since `start` was read.
/// Nothing is claimed of its length.
#[verifier::external_body]
fn clock_elapsed(start: &Instant) -> (elapsed: Duration) {
    start.elapsed()
}

/// Calls `Duration::as_nanos`. Nothing is claimed of the number.
#[verifier::external_body]
fn duration_nanos(duration: &Duration) -> (nanos: u128) {
    duration.as_nanos()
}

/// The whole 60 Hz intervals in `nanos` nanoseconds, capped at what a
/// counter of eight bits can lose.
pub open spec fn spec_intervals_elapsed(nanos: u128) -> u8 {
    if nanos * FREQUENCY / (NANOS_PER_SECOND as int) >= 255 {
        255u8
    } else {
        (nanos * FREQUENCY / (NANOS_PER_SECOND as int)) as u8
    }
}

/// `current` after `intervals` have passed: it stops at zero.
pub open spec fn decayed(current: u8, intervals: u8) -> u8 {
    if intervals >= current {
        0u8
    } else {
        (current - intervals) as u8
    }
}

/// The whole 60 Hz intervals in `nanos` nanoseconds, capped at 255.
pub fn intervals_elapsed(nanos: u128) -> (intervals: u8)
    ensures
        intervals == spec_intervals_elapsed(nanos),
{
    // 255 intervals last 4.25 seconds.
    if nanos >= 4_250_000_000 {
        assert(nanos * 60 / 1_000_000_000 >= 255) by (nonlinear_arith)
            requires
                nanos >= 4_250_000_000,
        ;
        255
    } else {
        assert(nanos * 60 / 1_000_000_000 < 255) by (nonlinear_arith)
            requires
                nanos < 4_250_000_000,
        ;
        (nanos * FREQUENCY / NANOS_PER_SECOND) as u8
    }
}

/// An 8-bit countdown and the clock reading of the moment it was last
/// written. It is active while it has not reached zero.
#[derive(Debug)]
pub struct Timer {
    /// What is left of the countdown.
    pub current: u8,
    /// The clock reading of the last write.
    pub last_set: Instant,
}

impl Timer {
    /// A timer that holds `initial`, written now.
    pub fn new(initial: u8) -> (timer: Timer)
        ensures
            timer.current == initial,
    {
        Timer { current: initial, last_set: clock_now() }
    }

    /// Whether the countdown is still above zero.
    pub fn active(&self) -> (active: bool)
        ensures
            active == (self.current > 0),
    {
        self.current > 0
    }

    /// Writes `val` and restarts the clock reading.
    pub fn set(&mut self, val: u8)
        ensures
            final(self).current == val,
    {
        self.current = val;
        self.last_set = clock_now();
    }

    /// Takes `intervals` off the countdown, stopping at zero.
    ///
    /// A step that takes something off is a write and restarts the clock
    /// reading; one that takes nothing off leaves the timer as it was, so that
    /// time shorter than an interval is not lost.
    pub fn tick_by(&mut self, intervals: u8)
        ensures
            final(self).current == decayed(old(self).current, intervals),
            old(self).current == 0 || intervals == 0 ==> *final(self) == *old(self),
    {
        if self.current > 0 && intervals > 0 {
            let left = self.current.saturating_sub(intervals);
            self.set(left);
        }
    }

    /// Reads the clock and takes off the whole 60 Hz intervals that have
    /// passed since the countdown was last written.
    ///
    /// How long that is is the clock's to say. Whatever it says, the countdown
    /// is what `tick_by` leaves for the intervals in some span of time, and a
    /// tick that takes nothing off leaves the timer, clock reading and all.
    pub fn tick(&mut self)
        ensures
            exists|nanos: u128|
                final(self).current == decayed(
                    old(self).current,
                    #[trigger] spec_intervals_elapsed(nanos),
                ),
            final(self).current <= old(self).current,
            final(self).current == old(self).current ==> *final(self) == *old(self),
    {
        if !self.active() {
            assert(self.current == decayed(self.current, spec_intervals_elapsed(0)));
            return ;
        }
        let elapsed = clock_elapsed(&self.last_set);
        let nanos = duration_nanos(&elapsed);
        let intervals = intervals_elapsed(nanos);
        self.tick_by(intervals);
        assert(self.current == decayed(old(self).current, spec_intervals_elapsed(nanos)));
    }
}

} // verus!
