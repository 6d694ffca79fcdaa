//! A stopwatch over the monotonic clock.
//!
//! The timer accumulates the time spent stopped, so that the total time
//! reports only the running time since the last reset. Instants of the
//! monotonic clock are opaque; durations are carried as whole
//! nanoseconds, and the arithmetic on them saturates instead of wrapping.

use vstd::prelude::*;

use std::time::Duration;
use std::time::Instant;

verus! {

#[verifier::external_type_specification]
#[verifier::external_body]
pub struct ExInstant(Instant);

/// Relies on `std::time::Instant::now`: an instant of the monotonic
/// clock. Nothing is assumed of its value.
#[verifier::external_body]
fn instant_now() -> Instant {
    Instant::now()
}

/// Relies on `std::time::Instant::duration_since`: the time from
/// `earlier` to `later`, or zero if `earlier` is the later of the two.
/// Nothing is assumed of its value.
#[verifier::external_body]
fn duration_between(later: &Instant, earlier: &Instant) -> Duration {
    later.duration_since(*earlier)
}

/// Relies on `std::time::Duration::as_nanos`: the whole duration in
/// nanoseconds. Nothing is assumed of its value.
#[verifier::external_body]
fn duration_nanos(d: &Duration) -> u128 {
    d.as_nanos()
}

/// A stopwatch: measures the time since its last reset, not counting the
/// stretches during which it was stopped.
pub struct Timer {
    base_time: Instant,
    paused_nanos: u128,
    stop_time: Instant,
    delta_nanos: u128,
    curr_time: Instant,
    stopped: bool,
}

impl Timer {
    /// Whether the timer is stopped.
    pub closed spec fn spec_stopped(self) -> bool {
        self.stopped
    }

    /// The nanoseconds accumulated while stopped.
    pub closed spec fn spec_paused_nanos(self) -> u128 {
        self.paused_nanos
    }

    /// The nanoseconds measured by the last tick.
    pub closed spec fn spec_delta_nanos(self) -> u128 {
        self.delta_nanos
    }

    /// The instant of the last reset.
    pub closed spec fn spec_base_time(self) -> Instant {
        self.base_time
    }

    /// The instant of the last tick.
    pub closed spec fn spec_curr_time(self) -> Instant {
        self.curr_time
    }

    /// The instant of the last stop.
    pub closed spec fn spec_stop_time(self) -> Instant {
        self.stop_time
    }

    /// A fresh, running timer with no accumulated pause and no measured
    /// delta.
    pub fn new() -> (r: Timer)
        ensures
            !r.spec_stopped(),
            r.spec_paused_nanos() == 0,
            r.spec_delta_nanos() == 0,
    {
        Timer {
            base_time: instant_now(),
            paused_nanos: 0,
            stop_time: instant_now(),
            delta_nanos: 0,
            curr_time: instant_now(),
            stopped: false,
        }
    }

    /// The nanoseconds elapsed since the last reset, not counting the
    /// accumulated pause; zero if the pause exceeds the elapsed time.
    pub fn total_time(&self) -> u128 {
        let elapsed: u128 = if self.stopped {
            duration_nanos(&duration_between(&self.stop_time, &self.base_time))
        } else {
            duration_nanos(&duration_between(&self.curr_time, &self.base_time))
        };
        if elapsed >= self.paused_nanos {
            elapsed - self.paused_nanos
        } else {
            0
        }
    }

    /// The nanoseconds measured by the last tick.
    pub fn delta_time(&self) -> (r: u128)
        ensures
            r == self.spec_delta_nanos(),
    {
        self.delta_nanos
    }

    /// Restarts the measurement at the current instant and leaves the
    /// timer running. The accumulated pause and the last delta are kept.
    pub fn reset(&mut self)
        ensures
            !final(self).spec_stopped(),
            final(self).spec_paused_nanos() == old(self).spec_paused_nanos(),
            final(self).spec_delta_nanos() == old(self).spec_delta_nanos(),
            final(self).spec_base_time() == final(self).spec_curr_time(),
            final(self).spec_stop_time() == old(self).spec_stop_time(),
    {
        let curr_time = instant_now();
        self.base_time = curr_time;
        self.curr_time = curr_time;
        self.stopped = false;
    }

    /// Starts a stopped timer, adding the time since it was stopped to
    /// the accumulated pause. A running timer is left untouched.
    pub fn start(&mut self)
        ensures
            !final(self).spec_stopped(),
            final(self).spec_base_time() == old(self).spec_base_time(),
            final(self).spec_delta_nanos() == old(self).spec_delta_nanos(),
            final(self).spec_stop_time() == old(self).spec_stop_time(),
            !old(self).spec_stopped() ==> *final(self) == *old(self),
            old(self).spec_stopped() ==> final(self).spec_paused_nanos() >= old(
                self,
            ).spec_paused_nanos(),
    {
        if self.stopped {
            let curr_time = instant_now();
            let gap: u128 = duration_nanos(&duration_between(&curr_time, &self.stop_time));
            self.paused_nanos = if self.paused_nanos <= u128::MAX - gap {
                self.paused_nanos + gap
            } else {
                u128::MAX
            };
            self.curr_time = curr_time;
            self.stopped = false;
        }
    }

    /// Stops a running timer, remembering the instant it was stopped at.
    /// A stopped timer is left untouched.
    pub fn stop(&mut self)
        ensures
            final(self).spec_stopped(),
            final(self).spec_base_time() == old(self).spec_base_time(),
            final(self).spec_curr_time() == old(self).spec_curr_time(),
            final(self).spec_paused_nanos() == old(self).spec_paused_nanos(),
            final(self).spec_delta_nanos() == old(self).spec_delta_nanos(),
            old(self).spec_stopped() ==> *final(self) == *old(self),
    {
        if !self.stopped {
            self.stop_time = instant_now();
            self.stopped = true;
        }
    }

    /// Measures the time since the last tick. On a stopped timer the
    /// delta is zero and nothing else changes.
    pub fn tick(&mut self)
        ensures
            final(self).spec_stopped() == old(self).spec_stopped(),
            final(self).spec_base_time() == old(self).spec_base_time(),
            final(self).spec_stop_time() == old(self).spec_stop_time(),
            final(self).spec_paused_nanos() == old(self).spec_paused_nanos(),
            old(self).spec_stopped() ==> final(self).spec_delta_nanos() == 0
                && final(self).spec_curr_time() == old(self).spec_curr_time(),
    {
        if self.stopped {
            self.delta_nanos = 0;
            return ;
        }
        let curr_time = instant_now();
        self.delta_nanos = duration_nanos(&duration_between(&curr_time, &self.curr_time));
        self.curr_time = curr_time;
    }
}

} // verus!
