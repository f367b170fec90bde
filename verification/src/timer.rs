//! The frame clock.

use vstd::prelude::*;
use std::time::{Duration, Instant};

verus! {

/// A reading of the monotonic clock. Nothing can be seen inside one.
#[verifier::external_type_specification]
#[verifier::external_body]
pub struct ExInstant(Instant);

/// `Instant::now` reads the clock. What it returns depends on when it is
/// called, so nothing is claimed of it.
pub assume_specification[ Instant::now ]() -> (now: Instant)
;

/// The duration that `Instant::duration_since` gives for two readings.
pub uninterp spec fn time_between(later: Instant, earlier: Instant) -> Duration;

/// `Instant::duration_since` gives the time from `earlier` to `later`, or
/// zero where `earlier` is the later of the two. It returns on every input,
/// and what it returns depends on the two readings alone.
pub assume_specification[ Instant::duration_since ](later: &Instant, earlier: Instant) -> (elapsed:
    Duration)
    ensures
        elapsed == time_between(*later, earlier),
;

/// Measures the time since it was made and the time from frame to frame.
pub struct Timer {
    start: Instant,
    last_frame: Instant,
}

impl Timer {
    /// The reading at which the timer was made.
    pub closed spec fn started(&self) -> Instant {
        self.start
    }

    /// The reading at which the last frame began.
    pub closed spec fn frame_started(&self) -> Instant {
        self.last_frame
    }

    /// A timer whose first frame begins now.
    pub fn new() -> (timer: Timer)
        ensures
            timer.frame_started() == timer.started(),
    {
        let now = Instant::now();
        Timer { start: now, last_frame: now }
    }

    /// Begins the next frame at a new reading of the clock and returns how
    /// long the last one took: the time from its beginning to that reading.
    /// The reading at which the timer was made stays.
    pub fn tick(&mut self) -> (delta_time: Duration)
        ensures
            final(self).started() == old(self).started(),
            delta_time == time_between(final(self).frame_started(), old(self).frame_started()),
    {
        let current_time = Instant::now();
        let delta_time = current_time.duration_since(self.last_frame);
        self.last_frame = current_time;
        delta_time
    }

    /// The time since the timer was made: from the reading taken then to
    /// one taken now.
    pub fn elapsed(&self) -> (elapsed: Duration)
        ensures
            exists|now: Instant| elapsed == time_between(now, self.started()),
    {
        let now = Instant::now();
        let elapsed = now.duration_since(self.start);
        assert(elapsed == time_between(now, self.started()));
        elapsed
    }
}

impl Default for Timer {
    fn default() -> (timer: Timer)
        ensures
            timer.frame_started() == timer.started(),
    {
        Timer::new()
    }
}

} // verus!
