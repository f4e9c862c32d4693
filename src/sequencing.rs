//! Moving through a trajectory: which segment is active, when a segment is
//! done, and which timed actions are dispatched. Progress comparisons that
//! need real numbers are made by the caller and handed in as flags.

use vstd::prelude::*;

verus! {

/// The segment that whole progress `whole` selects among `len` segments:
/// never past the last one.
pub open spec fn clamped_index(whole: nat, len: nat) -> nat
    recommends
        len > 0,
{
    if whole < len {
        whole
    } else {
        (len - 1) as nat
    }
}

/// The active segment for whole progress `whole` (the integer part of the
/// trajectory's progress value) among `len` segments.
pub fn segment_index(whole: u64, len: usize) -> (r: usize)
    requires
        len > 0,
    ensures
        r as nat == clamped_index(whole as nat, len as nat),
        r < len,
{
    if whole < len as u64 {
        whole as usize
    } else {
        len - 1
    }
}

/// The end of the run of due actions that starts at `from`: the first index
/// at or after `from` that is not due, or the length.
pub open spec fn due_run_end(due: Seq<bool>, from: int, end: int) -> bool {
    &&& from <= end <= due.len()
    &&& forall|k: int| from <= k < end ==> #[trigger] due[k]
    &&& end == due.len() || !due[end]
}

/// A cursor into a time-sorted action list: actions before `next` have been
/// dispatched.
#[derive(Debug, Clone, Copy, PartialEq, Eq, Structural)]
pub struct ActionCursor {
    pub next: usize,
}

impl ActionCursor {
    pub fn new() -> (r: ActionCursor)
        ensures
            r.next == 0,
    {
        ActionCursor { next: 0 }
    }

    /// Given which actions are due now (`due[i]` for the action at index
    /// `i`), returns the range `start..end` to dispatch, in order: the due
    /// actions from the cursor up to the first one that is not yet due. The
    /// cursor moves past them, so no action is dispatched twice.
    pub fn take_due(&mut self, due: &Vec<bool>) -> (r: (usize, usize))
        requires
            old(self).next <= due.len(),
        ensures
            r.0 == old(self).next,
            r.1 == final(self).next,
            due_run_end(due@, r.0 as int, r.1 as int),
    {
        let start = self.next;
        let mut end = start;
        while end < due.len() && due[end]
            invariant
                start <= end <= due.len(),
                forall|k: int| start <= k < end ==> #[trigger] due@[k],
            decreases due.len() - end,
        {
            end = end + 1;
        }
        self.next = end;
        (start, end)
    }
}

/// Why a segment ended.
#[derive(Debug, Clone, Copy, PartialEq, Eq, Structural)]
pub enum SegmentEnd {
    /// The control law reported arrival and the post-arrival wait is over.
    Arrived,
    /// The segment's timeout ran out first: move on regardless.
    TimedOut,
}

/// The time bookkeeping of the active segment; times are milliseconds of a
/// monotonic clock.
#[derive(Debug, Clone, Copy, PartialEq, Eq, Structural)]
pub struct SegmentClock {
    pub timeout_start: u64,
    pub waiting: bool,
    pub wait_start: u64,
}

/// Whether at least `span` has passed from `start` to `now`.
pub open spec fn passed(start: u64, now: u64, span: u64) -> bool {
    now as int - start as int >= span as int
}

/// The outcome of one tick of the active segment: its new clock and whether
/// (and why) it ends.
pub open spec fn segment_tick(
    c: SegmentClock,
    arrived: bool,
    now: u64,
    wait: u64,
    timeout: u64,
) -> (SegmentClock, Option<SegmentEnd>) {
    if passed(c.timeout_start, now, timeout) {
        (SegmentClock { timeout_start: now, waiting: false, wait_start: now }, Some(SegmentEnd::TimedOut))
    } else if arrived || c.waiting {
        let wait_start = if c.waiting { c.wait_start } else { now };
        if passed(wait_start, now, wait) {
            (SegmentClock { timeout_start: now, waiting: false, wait_start: now }, Some(SegmentEnd::Arrived))
        } else {
            (SegmentClock { waiting: true, wait_start, ..c }, None)
        }
    } else {
        (c, None)
    }
}

impl SegmentClock {
    /// A clock for a segment that begins at `now`.
    pub fn new(now: u64) -> (r: SegmentClock)
        ensures
            r == (SegmentClock { timeout_start: now, waiting: false, wait_start: now }),
    {
        SegmentClock { timeout_start: now, waiting: false, wait_start: now }
    }

    /// One tick at `now`. `arrived` tells whether the control law raised its
    /// exit condition; once raised, the post-arrival `wait` runs. The segment
    /// ends when that wait is over, or when `timeout` has passed since the
    /// segment began; the clock then restarts for the next segment.
    pub fn tick(&mut self, arrived: bool, now: u64, wait: u64, timeout: u64) -> (r: Option<SegmentEnd>)
        ensures
            (*final(self), r) == segment_tick(*old(self), arrived, now, wait, timeout),
    {
        if now >= self.timeout_start && now - self.timeout_start >= timeout {
            *self = SegmentClock::new(now);
            return Some(SegmentEnd::TimedOut);
        }
        if arrived || self.waiting {
            if !self.waiting {
                self.waiting = true;
                self.wait_start = now;
            }
            if now >= self.wait_start && now - self.wait_start >= wait {
                *self = SegmentClock::new(now);
                return Some(SegmentEnd::Arrived);
            }
        }
        None
    }
}

/// Once the timeout has passed, a tick ends the segment whatever the control
/// law reports: a stuck robot always moves on.
pub proof fn lemma_timeout_forces_advance(
    c: SegmentClock,
    arrived: bool,
    now: u64,
    wait: u64,
    timeout: u64,
)
    requires
        passed(c.timeout_start, now, timeout),
    ensures
        segment_tick(c, arrived, now, wait, timeout).1 == Some(SegmentEnd::TimedOut),
{
}

} // verus!
