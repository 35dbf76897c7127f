//! The rolling window of recent scheduling drifts, and the rule that decides
//! when their average exceeds the jitter threshold.
//!
//! Drifts are kept in whole microseconds, the unit in which they are
//! measured; the average is compared with the threshold exactly, as a ratio.
use vstd::prelude::*;
use crate::stats::{seq_sum, sum_of};

verus! {

/// The window after one more drift is recorded: when the window is full its
/// oldest drift leaves first.
pub open spec fn slide(window: Seq<u64>, drift: u64, size: nat) -> Seq<u64> {
    if window.len() >= size {
        window.drop_first().push(drift)
    } else {
        window.push(drift)
    }
}

/// The last `size` drifts of a history (all of them if there are fewer).
pub open spec fn last_n(history: Seq<u64>, size: nat) -> Seq<u64> {
    if history.len() <= size {
        history
    } else {
        history.skip(history.len() - size)
    }
}

/// Whether a full window's average drift is above the threshold.
pub open spec fn exceeds(window: Seq<u64>, size: nat, threshold_us: u64) -> bool {
    window.len() >= size && seq_sum(window) > threshold_us * window.len()
}

/// Tracks the most recent drifts, up to a fixed number of them.
pub struct JitterTracker {
    recent_drifts: Vec<u64>,
    window_size: usize,
    jitter_threshold_us: u64,
}

impl View for JitterTracker {
    type V = Seq<u64>;

    closed spec fn view(&self) -> Seq<u64> {
        self.recent_drifts@
    }
}

impl JitterTracker {
    /// How many drifts the window holds when full.
    pub closed spec fn window(&self) -> nat {
        self.window_size as nat
    }

    /// The average drift, in microseconds, above which jitter is exceeded.
    pub closed spec fn threshold(&self) -> u64 {
        self.jitter_threshold_us
    }

    /// The window never holds more drifts than its size.
    #[verifier::type_invariant]
    spec fn wf(&self) -> bool {
        self.recent_drifts@.len() <= self.window_size
    }

    /// An empty window of `window_size` drifts with the given threshold.
    pub fn new(window_size: usize, threshold_us: u64) -> (t: Self)
        ensures
            t@ == Seq::<u64>::empty(),
            t.window() == window_size,
            t.threshold() == threshold_us,
    {
        JitterTracker { recent_drifts: Vec::new(), window_size, jitter_threshold_us: threshold_us }
    }

    /// The number of drifts in the window.
    pub fn len(&self) -> (n: usize)
        ensures
            n == self@.len(),
    {
        self.recent_drifts.len()
    }

    /// Records one drift; a full window first lets its oldest drift go.
    pub fn record(&mut self, drift_us: u64)
        requires
            old(self).window() > 0,
        ensures
            final(self).window() == old(self).window(),
            final(self).threshold() == old(self).threshold(),
            final(self)@ == slide(old(self)@, drift_us, old(self).window()),
    {
        proof {
            use_type_invariant(&*self);
        }
        let mut drifts: Vec<u64> = Vec::new();
        std::mem::swap(&mut drifts, &mut self.recent_drifts);
        if drifts.len() >= self.window_size {
            drifts.remove(0);
        }
        drifts.push(drift_us);
        proof {
            assert(old(self)@.len() >= self.window_size ==> old(self)@.remove(0) =~= old(self)@.drop_first());
        }
        self.recent_drifts = drifts;
    }

    /// The sum of the drifts in the window, in microseconds.
    pub fn total_drift_us(&self) -> (s: u128)
        ensures
            s == seq_sum(self@),
    {
        sum_of(self.recent_drifts.as_slice())
    }

    /// Whether the window is full and the average of its drifts is above the
    /// threshold.
    pub fn is_jitter_exceeded(&self) -> (r: bool)
        ensures
            r == exceeds(self@, self.window(), self.threshold()),
            r == (self@.len() >= self.window() && seq_sum(self@) > self.threshold() * self@.len()),
    {
        let n = self.recent_drifts.len();
        if n < self.window_size {
            return false;
        }
        let total = self.total_drift_us();
        proof {
            vstd::arithmetic::mul::lemma_mul_upper_bound(
                self.jitter_threshold_us as int,
                0xffff_ffff_ffff_ffff,
                n as int,
                0xffff_ffff_ffff_ffff,
            );
        }
        let limit: u128 = (self.jitter_threshold_us as u128) * (n as u128);
        total > limit
    }
}

/// However many drifts were recorded, the window holds the last
/// `window_size` of them, in the order they came: recording a drift into the
/// last `size` drifts of a history gives the last `size` drifts of the
/// history with that drift appended.
pub proof fn lemma_window_keeps_latest(history: Seq<u64>, drift: u64, size: nat)
    requires
        size > 0,
    ensures
        slide(last_n(history, size), drift, size) == last_n(history.push(drift), size),
        last_n(history, size).len() <= size,
{
    let w = last_n(history, size);
    let h2 = history.push(drift);
    if history.len() < size {
        assert(slide(w, drift, size) =~= last_n(h2, size));
    } else {
        assert(w.len() == size);
        assert(slide(w, drift, size) =~= last_n(h2, size));
    }
}

/// Changing one drift of a window changes its sum by the difference.
pub proof fn lemma_sum_update(s: Seq<u64>, i: int, v: u64)
    requires
        0 <= i < s.len(),
    ensures
        seq_sum(s.update(i, v)) == seq_sum(s) - s[i] + v,
    decreases s.len(),
{
    let u = s.update(i, v);
    if i == s.len() - 1 {
        assert(u.drop_last() =~= s.drop_last());
    } else {
        lemma_sum_update(s.drop_last(), i, v);
        assert(u.drop_last() =~= s.drop_last().update(i, v));
    }
}

/// Jitter is judged by the average of the window: a full window exceeds the
/// threshold exactly when the mean of its drifts (their sum over their
/// number) is above it, and a window that is not yet full never does. No
/// single drift decides it: one slow drift among fast ones leaves the
/// system out of degraded mode as long as the mean stays at or below the
/// threshold, and where the drifts stand in the window does not matter.
pub proof fn lemma_jitter_is_average(w: Seq<u64>, size: nat, threshold_us: u64, i: int, j: int)
    requires
        0 <= i < w.len(),
        0 <= j < w.len(),
    ensures
        exceeds(w, size, threshold_us) <==> (w.len() >= size && seq_sum(w) > threshold_us * w.len()),
        w.len() < size ==> !exceeds(w, size, threshold_us),
        w.len() >= size && seq_sum(w) <= threshold_us * w.len() ==> !exceeds(w, size, threshold_us),
        exceeds(w.update(i, w[j]).update(j, w[i]), size, threshold_us) == exceeds(w, size, threshold_us),
{
    let w1 = w.update(i, w[j]);
    lemma_sum_update(w, i, w[j]);
    lemma_sum_update(w1, j, w[i]);
    if i != j {
        assert(w1[j] == w[j]);
    }
}

} // verus!
