use vstd::prelude::*;
use std::time::Instant;

verus! {

#[verifier::external_type_specification]
#[verifier::external_body]
pub struct ExInstant(Instant);

/// Relies on `Instant::now`: a reading of the monotonic clock.
#[verifier::external_body]
fn instant_now() -> Instant {
    Instant::now()
}

/// Relies on `Instant::elapsed`: the time since `start`, in nanoseconds.
/// Nothing is promised of its value.
#[verifier::external_body]
fn nanos_since(start: &Instant) -> u128 {
    start.elapsed().as_nanos()
}

/// Frame timing: the time since the start and the length of the last frame,
/// in nanoseconds.
#[derive(Debug)]
pub struct Time {
    pub start: Instant,
    pub now: u128,
    pub delta_time: u128,
}

impl Time {
    /// Timing from this moment.
    pub fn start() -> Time {
        let start = instant_now();
        let now = nanos_since(&start);
        let delta_time = nanos_since(&start);
        Time { start, now, delta_time }
    }

    /// Starts over from this moment, with no last frame.
    pub fn reset(&mut self)
        ensures
            final(self).delta_time == 0,
    {
        self.start = instant_now();
        self.now = nanos_since(&self.start);
        self.delta_time = 0;
    }

    /// Ends a frame at the clock's present reading.
    pub fn tick(&mut self)
        ensures
            final(self).start == old(self).start,
            final(self).now >= old(self).now ==> final(self).delta_time == final(self).now - old(self).now,
    {
        let elapsed = nanos_since(&self.start);
        self.advance(elapsed);
    }

    /// Ends a frame at `elapsed` nanoseconds after the start: the frame lasted
    /// from the end of the last one, or nothing where the reading went back.
    pub fn advance(&mut self, elapsed: u128)
        ensures
            final(self).start == old(self).start,
            final(self).now == elapsed,
            final(self).delta_time == (if elapsed >= old(self).now {
                elapsed - old(self).now
            } else {
                0
            }),
    {
        self.delta_time = if elapsed >= self.now {
            elapsed - self.now
        } else {
            0
        };
        self.now = elapsed;
    }

    /// Nanoseconds from the start to the end of the last frame.
    pub fn now(&self) -> (r: u128)
        ensures
            r == self.now,
    {
        self.now
    }

    /// Nanoseconds that the last frame lasted.
    pub fn delta_time(&self) -> (r: u128)
        ensures
            r == self.delta_time,
    {
        self.delta_time
    }
}

} // verus!
