//! Settle detection for a control axis: two independent (threshold, timeout)
//! watches, a tight one with short patience and a loose one with long
//! patience. The caller compares its error with each threshold; the watches
//! keep the time since the error was last at or above it.

use vstd::prelude::*;

verus! {

/// One (threshold, timeout) pair: `since` is the last time the watched value
/// was seen at or above the threshold, `timeout` how long it must then stay
/// below. Times are in any one monotonic unit.
#[derive(Debug, Clone, Copy, PartialEq, Eq, Structural)]
pub struct SettleWatch {
    pub timeout: u64,
    pub since: u64,
}

/// A sample: whether the value is below the threshold, and when.
pub type Sample = (bool, u64);

/// The watch after a sample: a value at or above the threshold restarts it.
pub open spec fn watch_step(w: SettleWatch, below: bool, now: u64) -> SettleWatch {
    if below {
        w
    } else {
        SettleWatch { since: now, ..w }
    }
}

/// Whether a sample, taken with the watch as it stands after it, signals:
/// the value is below and has been for at least the timeout.
pub open spec fn watch_fires(w: SettleWatch, below: bool, now: u64) -> bool {
    below && now as int - w.since as int >= w.timeout as int
}

/// The watch after a run of samples, oldest first.
pub open spec fn watch_run(w: SettleWatch, samples: Seq<Sample>) -> SettleWatch
    decreases samples.len(),
{
    if samples.len() == 0 {
        w
    } else {
        let s = samples.last();
        watch_step(watch_run(w, samples.drop_last()), s.0, s.1)
    }
}

/// The last time in `samples` at which the value was at or above the
/// threshold; `start` if there is none.
pub open spec fn last_above(start: u64, samples: Seq<Sample>) -> u64
    decreases samples.len(),
{
    if samples.len() == 0 {
        start
    } else if !samples.last().0 {
        samples.last().1
    } else {
        last_above(start, samples.drop_last())
    }
}

/// Times that never go backwards.
pub open spec fn monotonic(samples: Seq<Sample>) -> bool {
    forall|i: int, j: int| 0 <= i <= j < samples.len() ==> samples[i].1 <= samples[j].1
}

proof fn lemma_run_since(w: SettleWatch, samples: Seq<Sample>)
    ensures
        watch_run(w, samples).since == last_above(w.since, samples),
        watch_run(w, samples).timeout == w.timeout,
    decreases samples.len(),
{
    if samples.len() > 0 {
        lemma_run_since(w, samples.drop_last());
    }
}

/// After any run of samples, the last one signals exactly when the value is
/// below the threshold and the time since it was last at or above it (or
/// since the watch began) is at least the timeout.
pub proof fn lemma_fires_iff_below_long_enough(w: SettleWatch, samples: Seq<Sample>)
    requires
        samples.len() > 0,
    ensures
        watch_fires(watch_run(w, samples), samples.last().0, samples.last().1) == (samples.last().0
            && samples.last().1 as int - last_above(w.since, samples) as int >= w.timeout as int),
{
    lemma_run_since(w, samples);
}

/// Once a watch signals, it keeps signalling on every later sample that is
/// still below the threshold: it does not flap at the boundary.
pub proof fn lemma_no_flap(w: SettleWatch, samples: Seq<Sample>, i: int)
    requires
        monotonic(samples),
        0 <= i < samples.len(),
        watch_fires(watch_run(w, samples.take(i + 1)), samples[i].0, samples[i].1),
        forall|k: int| i <= k < samples.len() ==> #[trigger] samples[k].0,
    ensures
        forall|j: int|
            i <= j < samples.len() ==> watch_fires(
                #[trigger] watch_run(w, samples.take(j + 1)),
                samples[j].0,
                samples[j].1,
            ),
{
    assert forall|j: int| i <= j < samples.len() implies watch_fires(
        #[trigger] watch_run(w, samples.take(j + 1)),
        samples[j].0,
        samples[j].1,
    ) by {
        lemma_run_kept_while_below(w, samples, i, j);
        assert(samples[i].1 <= samples[j].1);
    }
}

proof fn lemma_run_kept_while_below(w: SettleWatch, samples: Seq<Sample>, i: int, j: int)
    requires
        0 <= i <= j < samples.len(),
        forall|k: int| i <= k < samples.len() ==> #[trigger] samples[k].0,
    ensures
        watch_run(w, samples.take(j + 1)) == watch_run(w, samples.take(i + 1)),
    decreases j - i,
{
    if j > i {
        lemma_run_kept_while_below(w, samples, i, j - 1);
        let s = samples.take(j + 1);
        assert(s.drop_last() =~= samples.take(j));
        assert(s.last() == samples[j]);
    }
}

/// The two watches of a control axis.
#[derive(Debug, Clone, Copy, PartialEq, Eq, Structural)]
pub struct SettleTimeouts {
    pub small: SettleWatch,
    pub large: SettleWatch,
}

impl SettleTimeouts {
    /// Both watches with their timeouts, beginning at `now`.
    pub fn new(small_timeout: u64, large_timeout: u64, now: u64) -> (r: SettleTimeouts)
        ensures
            r.small == (SettleWatch { timeout: small_timeout, since: now }),
            r.large == (SettleWatch { timeout: large_timeout, since: now }),
    {
        SettleTimeouts {
            small: SettleWatch { timeout: small_timeout, since: now },
            large: SettleWatch { timeout: large_timeout, since: now },
        }
    }

    /// Restarts both watches at `now`.
    pub fn restart(&mut self, now: u64)
        ensures
            final(self).small == (SettleWatch { since: now, ..old(self).small }),
            final(self).large == (SettleWatch { since: now, ..old(self).large }),
    {
        self.small.since = now;
        self.large.since = now;
    }

    /// Takes one sample of the axis error at `now`: `below_small` and
    /// `below_large` tell whether it is under each threshold. Returns true
    /// when either watch signals that the axis is stuck or has arrived.
    pub fn update_timeouts(&mut self, below_small: bool, below_large: bool, now: u64) -> (r: bool)
        ensures
            final(self).small == watch_step(old(self).small, below_small, now),
            final(self).large == watch_step(old(self).large, below_large, now),
            r == (watch_fires(final(self).small, below_small, now) || watch_fires(
                final(self).large,
                below_large,
                now,
            )),
    {
        if !below_small {
            self.small.since = now;
        }
        if !below_large {
            self.large.since = now;
        }
        let small = below_small && now >= self.small.since && now - self.small.since >= self.small.timeout;
        let large = below_large && now >= self.large.since && now - self.large.since >= self.large.timeout;
        small || large
    }
}

/// One call's inputs: below the small threshold, below the large one, and when.
pub type PairSample = (bool, bool, u64);

/// The small watch's view of a run of calls.
pub open spec fn small_samples(s: Seq<PairSample>) -> Seq<Sample> {
    s.map_values(|x: PairSample| (x.0, x.2))
}

/// The large watch's view of a run of calls.
pub open spec fn large_samples(s: Seq<PairSample>) -> Seq<Sample> {
    s.map_values(|x: PairSample| (x.1, x.2))
}

/// The watches after a run of calls of `update_timeouts`, oldest first.
pub open spec fn timeouts_run(t: SettleTimeouts, s: Seq<PairSample>) -> SettleTimeouts {
    SettleTimeouts { small: watch_run(t.small, small_samples(s)), large: watch_run(t.large, large_samples(s)) }
}

/// Over any run of calls, the last call of `update_timeouts` returns true
/// exactly when the value is below a threshold and has stayed below it,
/// since it was last seen at or above it (or since the watches began), for
/// at least that threshold's timeout.
pub proof fn lemma_update_timeouts_iff(t: SettleTimeouts, s: Seq<PairSample>)
    requires
        s.len() > 0,
    ensures
        ({
            let before = timeouts_run(t, s.drop_last());
            let (bs, bl, now) = s.last();
            (watch_fires(watch_step(before.small, bs, now), bs, now) || watch_fires(
                watch_step(before.large, bl, now),
                bl,
                now,
            )) == ((bs && now as int - last_above(t.small.since, small_samples(s)) as int
                >= t.small.timeout as int) || (bl && now as int - last_above(
                t.large.since,
                large_samples(s),
            ) as int >= t.large.timeout as int))
        }),
{
    let ss = small_samples(s);
    let ls = large_samples(s);
    assert(ss.drop_last() =~= small_samples(s.drop_last()));
    assert(ls.drop_last() =~= large_samples(s.drop_last()));
    lemma_fires_iff_below_long_enough(t.small, ss);
    lemma_fires_iff_below_long_enough(t.large, ls);
}

} // verus!
