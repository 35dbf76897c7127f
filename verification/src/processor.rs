//! The processor's rules for each edit it takes from the queues: the
//! micro-deadline check, jitter tracking and degraded mode, the dropping of
//! bot edits while degraded, the acknowledgement of network resets, the
//! latency record and the periodic summary.
//!
//! The caller owns the loop: it takes an edit, measures its drift, reads the
//! shared degraded and reset flags, and hands these to `check_drift` and
//! `accept`; then it performs what they decide (entering degraded mode,
//! clearing the reset request, updating the leaderboards, printing the
//! summary).
use vstd::prelude::*;
use crate::jitter::{exceeds, slide, JitterTracker};

verus! {

/// What the check of one edit's drift found.
#[derive(PartialEq, Eq, Structural, Debug, Clone, Copy)]
pub struct DriftCheck {
    /// The drift was longer than the deadline.
    pub deadline_missed: bool,
    /// What the processor writes into the shared degraded-mode flag:
    /// `Some(true)` when the jitter window now exceeds its threshold while the
    /// system was not degraded, and nothing otherwise. The processor never
    /// switches degraded mode off; only the watchdog does.
    pub degraded_store: Option<bool>,
}

/// An edit that went through: its number among those processed, whether a
/// requested network reset is acknowledged with it, and whether a summary is
/// due after it.
#[derive(PartialEq, Eq, Structural, Debug, Clone, Copy)]
pub struct Admitted {
    pub total: u64,
    pub acknowledge_reset: bool,
    pub summary_due: bool,
}

/// The processor's running state.
pub struct ProcessorState {
    total: u64,
    deadline_misses: u64,
    human_drift: Vec<u64>,
    bot_drift: Vec<u64>,
    jitter: JitterTracker,
    deadline_us: u64,
    summary_every: u64,
}

impl ProcessorState {
    /// Edits processed (not dropped) so far.
    pub closed spec fn total_spec(&self) -> u64 {
        self.total
    }

    /// Edits whose drift exceeded the deadline so far.
    pub closed spec fn misses_spec(&self) -> u64 {
        self.deadline_misses
    }

    /// Drifts of processed human edits, in microseconds, oldest first.
    pub closed spec fn human_spec(&self) -> Seq<u64> {
        self.human_drift@
    }

    /// Drifts of processed bot edits, in microseconds, oldest first.
    pub closed spec fn bot_spec(&self) -> Seq<u64> {
        self.bot_drift@
    }

    /// The recent drifts of every edit checked, processed or dropped.
    pub closed spec fn jitter_spec(&self) -> Seq<u64> {
        self.jitter@
    }

    pub closed spec fn window_spec(&self) -> nat {
        self.jitter.window()
    }

    pub closed spec fn threshold_spec(&self) -> u64 {
        self.jitter.threshold()
    }

    pub closed spec fn deadline_spec(&self) -> u64 {
        self.deadline_us
    }

    pub closed spec fn summary_every_spec(&self) -> u64 {
        self.summary_every
    }

    /// Every processed edit left exactly one drift in one of the two records.
    #[verifier::type_invariant]
    spec fn wf(&self) -> bool {
        &&& self.total as int == self.human_drift@.len() + self.bot_drift@.len()
        &&& self.jitter.window() > 0
        &&& self.summary_every > 0
    }

    /// A processor that has seen no edit yet.
    pub fn new(deadline_us: u64, jitter_window: usize, jitter_threshold_us: u64, summary_every: u64) -> (s: Self)
        requires
            jitter_window > 0,
            summary_every > 0,
        ensures
            s.total_spec() == 0,
            s.misses_spec() == 0,
            s.human_spec() == Seq::<u64>::empty(),
            s.bot_spec() == Seq::<u64>::empty(),
            s.jitter_spec() == Seq::<u64>::empty(),
            s.window_spec() == jitter_window,
            s.threshold_spec() == jitter_threshold_us,
            s.deadline_spec() == deadline_us,
            s.summary_every_spec() == summary_every,
    {
        ProcessorState {
            total: 0,
            deadline_misses: 0,
            human_drift: Vec::new(),
            bot_drift: Vec::new(),
            jitter: JitterTracker::new(jitter_window, jitter_threshold_us),
            deadline_us,
            summary_every,
        }
    }

    /// Checks one edit's drift against the deadline and records it in the
    /// jitter window. `degraded` is whether degraded mode is on.
    pub fn check_drift(&mut self, drift_us: u64, degraded: bool) -> (r: DriftCheck)
        requires
            drift_us > old(self).deadline_spec() ==> old(self).misses_spec() < u64::MAX,
        ensures
            r.deadline_missed == (drift_us > old(self).deadline_spec()),
            final(self).misses_spec() == old(self).misses_spec() + (if r.deadline_missed { 1int } else { 0int }),
            final(self).jitter_spec() == slide(old(self).jitter_spec(), drift_us, old(self).window_spec()),
            r.degraded_store == (if exceeds(final(self).jitter_spec(), old(self).window_spec(), old(self).threshold_spec())
                && !degraded {
                Some(true)
            } else {
                None
            }),
            r.degraded_store != Some(false),
            final(self).total_spec() == old(self).total_spec(),
            final(self).human_spec() == old(self).human_spec(),
            final(self).bot_spec() == old(self).bot_spec(),
            final(self).window_spec() == old(self).window_spec(),
            final(self).threshold_spec() == old(self).threshold_spec(),
            final(self).deadline_spec() == old(self).deadline_spec(),
            final(self).summary_every_spec() == old(self).summary_every_spec(),
    {
        proof {
            use_type_invariant(&*self);
        }
        let missed = drift_us > self.deadline_us;
        if missed {
            self.deadline_misses = self.deadline_misses + 1;
        }
        let mut jitter = JitterTracker::new(1, 0);
        std::mem::swap(&mut jitter, &mut self.jitter);
        jitter.record(drift_us);
        let exceeded = jitter.is_jitter_exceeded();
        self.jitter = jitter;
        let store = if exceeded && !degraded {
            Some(true)
        } else {
            None
        };
        DriftCheck { deadline_missed: missed, degraded_store: store }
    }

    /// Decides whether a checked edit goes on: in degraded mode a bot edit is
    /// dropped and nothing changes; any other edit acknowledges a requested
    /// network reset, has its drift recorded with its kind and is counted.
    /// `degraded` is whether degraded mode is on, `reset_requested` whether a
    /// network reset waits for acknowledgement.
    pub fn accept(&mut self, is_bot: bool, drift_us: u64, degraded: bool, reset_requested: bool) -> (r: Option<Admitted>)
        requires
            !(degraded && is_bot) ==> old(self).total_spec() < u64::MAX,
        ensures
            degraded && is_bot ==> r is None && *final(self) == *old(self),
            !(degraded && is_bot) ==> {
                &&& final(self).total_spec() == old(self).total_spec() + 1
                &&& r == Some(Admitted {
                    total: final(self).total_spec(),
                    acknowledge_reset: reset_requested,
                    summary_due: final(self).total_spec() % old(self).summary_every_spec() == 0,
                })
                &&& final(self).human_spec() == (if is_bot {
                    old(self).human_spec()
                } else {
                    old(self).human_spec().push(drift_us)
                })
                &&& final(self).bot_spec() == (if is_bot {
                    old(self).bot_spec().push(drift_us)
                } else {
                    old(self).bot_spec()
                })
                &&& final(self).misses_spec() == old(self).misses_spec()
                &&& final(self).jitter_spec() == old(self).jitter_spec()
                &&& final(self).window_spec() == old(self).window_spec()
                &&& final(self).threshold_spec() == old(self).threshold_spec()
                &&& final(self).deadline_spec() == old(self).deadline_spec()
                &&& final(self).summary_every_spec() == old(self).summary_every_spec()
            },
    {
        if degraded && is_bot {
            return None;
        }
        let mut cur = ProcessorState::new(0, 1, 0, 1);
        std::mem::swap(&mut cur, self);
        proof {
            use_type_invariant(&cur);
        }
        let ProcessorState {
            total,
            deadline_misses,
            human_drift,
            bot_drift,
            jitter,
            deadline_us,
            summary_every,
        } = cur;
        let mut human_drift = human_drift;
        let mut bot_drift = bot_drift;
        if is_bot {
            bot_drift.push(drift_us);
        } else {
            human_drift.push(drift_us);
        }
        let total = total + 1;
        *self = ProcessorState { total, deadline_misses, human_drift, bot_drift, jitter, deadline_us, summary_every };
        Some(
            Admitted {
                total,
                acknowledge_reset: reset_requested,
                summary_due: total % summary_every == 0,
            },
        )
    }

    /// Edits processed so far: always the number of drifts on record, human
    /// and bot together.
    pub fn total(&self) -> (t: u64)
        ensures
            t == self.total_spec(),
            t as int == self.human_spec().len() + self.bot_spec().len(),
    {
        proof {
            use_type_invariant(self);
        }
        self.total
    }

    /// Edits that missed their deadline so far.
    pub fn deadline_misses(&self) -> (m: u64)
        ensures
            m == self.misses_spec(),
    {
        self.deadline_misses
    }

    /// Drifts of processed human edits, in microseconds.
    pub fn human_drift(&self) -> (d: &Vec<u64>)
        ensures
            d@ == self.human_spec(),
    {
        &self.human_drift
    }

    /// Drifts of processed bot edits, in microseconds.
    pub fn bot_drift(&self) -> (d: &Vec<u64>)
        ensures
            d@ == self.bot_spec(),
    {
        &self.bot_drift
    }

    /// The jitter window.
    pub fn jitter(&self) -> (j: &JitterTracker)
        ensures
            j@ == self.jitter_spec(),
            j.window() == self.window_spec(),
            j.threshold() == self.threshold_spec(),
    {
        &self.jitter
    }
}

} // verus!
