//! A countdown timer driven by the monotonic clock, counting in nanoseconds.

use vstd::prelude::*;

verus! {

/// A span of time in whole nanoseconds, saturating at `u64::MAX` (some 584 years).
pub(crate) fn duration_nanos(d: &core::time::Duration) -> (r: u64)
{
    let secs = d.as_secs();
    let sub = d.subsec_nanos();
    if secs >= 18_446_744_073 {
        u64::MAX
    } else {
        secs * 1_000_000_000 + sub as u64
    }
}

/// Nanoseconds in a millisecond.
pub const NANOS_PER_MILLI: u64 = 1_000_000;

/// A timer that, while running, accumulates elapsed time and finishes once
/// `time` reaches `max_time`. Both are in nanoseconds.
pub struct Timer {
    pub finished: bool,
    pub running: bool,
    pub max_time: u64,
    pub time: u64,
    pub last_update: std::time::Instant,
}

impl Timer {
    /// The value of `t` after a running tick in which `elapsed` nanoseconds
    /// passed: time saturates at `u64::MAX`, and reaching `max_time` finishes
    /// and stops the timer.
    pub open spec fn advanced(self, elapsed: nat) -> (bool, bool, u64) {
        let time = if self.time + elapsed > u64::MAX { u64::MAX } else { (self.time + elapsed) as u64 };
        if time >= self.max_time {
            (true, false, time)
        } else {
            (self.finished, true, time)
        }
    }

    /// `b` is `a` started: running, and otherwise as it was.
    pub open spec fn is_started_from(b: Timer, a: Timer) -> bool {
        &&& b.running
        &&& b.finished == a.finished
        &&& b.time == a.time
        &&& b.max_time == a.max_time
    }

    /// `b` holds the same count and flags as `a`.
    pub open spec fn same_count(b: Timer, a: Timer) -> bool {
        &&& b.running == a.running
        &&& b.finished == a.finished
        &&& b.time == a.time
        &&& b.max_time == a.max_time
    }

    /// A stopped timer at zero that finishes after `max_time_ms` milliseconds.
    pub fn new(max_time_ms: u64) -> (r: Timer)
        requires
            max_time_ms <= u64::MAX / NANOS_PER_MILLI,
        ensures
            !r.finished,
            !r.running,
            r.time == 0,
            r.max_time == max_time_ms * NANOS_PER_MILLI,
    {
        Timer {
            finished: false,
            running: false,
            max_time: max_time_ms * NANOS_PER_MILLI,
            time: 0,
            last_update: std::time::Instant::now(),
        }
    }

    /// Stops the timer and clears its count.
    pub fn reset(&mut self)
        ensures
            !final(self).finished,
            !final(self).running,
            final(self).time == 0,
            final(self).max_time == old(self).max_time,
    {
        self.finished = false;
        self.running = false;
        self.time = 0;
    }

    /// Starts (or restarts) counting from now.
    pub fn start(&mut self)
        ensures
            Timer::is_started_from(*final(self), *old(self)),
    {
        self.running = true;
        self.last_update = std::time::Instant::now();
    }

    /// Accounts for `elapsed` nanoseconds: nothing happens to a stopped
    /// timer; a running one adds them and finishes on reaching `max_time`.
    pub fn advance(&mut self, elapsed: u64)
        ensures
            final(self).max_time == old(self).max_time,
            old(self).running ==> (final(self).finished, final(self).running, final(self).time)
                == old(self).advanced(elapsed as nat),
            !old(self).running ==> Timer::same_count(*final(self), *old(self)),
    {
        if self.running {
            self.time = self.time.saturating_add(elapsed);
            if self.time >= self.max_time {
                self.finished = true;
                self.running = false;
            }
        }
    }

    /// Reads the clock and, if running, adds the time since the last reading.
    pub fn update(&mut self)
        ensures
            final(self).max_time == old(self).max_time,
            old(self).running ==> exists|e: nat|
                (final(self).finished, final(self).running, final(self).time)
                    == #[trigger] old(self).advanced(e),
            !old(self).running ==> Timer::same_count(*final(self), *old(self)),
    {
        if self.running {
            let now = std::time::Instant::now();
            let elapsed = duration_nanos(&now.duration_since(self.last_update));
            self.last_update = now;
            self.advance(elapsed);
            assert((self.finished, self.running, self.time) == old(self).advanced(elapsed as nat));
        }
    }

    /// Reads the clock and adds the time since the last reading, whether or
    /// not the timer runs, without finishing it.
    pub fn unchecked_update(&mut self)
        ensures
            final(self).time >= old(self).time,
            final(self).finished == old(self).finished,
            final(self).running == old(self).running,
            final(self).max_time == old(self).max_time,
    {
        let now = std::time::Instant::now();
        let elapsed = duration_nanos(&now.duration_since(self.last_update));
        self.last_update = now;
        self.time = self.time.saturating_add(elapsed);
    }
}

} // verus!
