//! The domain leaderboards and the record of how long their updates took.
//!
//! The three leaderboards keep the same per-domain counts. They differ in how
//! the stream's tasks share them: the caller holds a `MutexLeaderboard` behind
//! a mutex, a `RwLockLeaderboard` behind a read-write lock, and an
//! `AtomicLeaderboard` keeps, beside its counts, a running total of edits.
use vstd::prelude::*;
use vstd::arithmetic::div_mod::*;
use crate::clock::{elapsed_nanos, instant_now};
use crate::tally::{count_of, is_ranking, lemma_total_after_increment, lemma_total_empty, pairs_view, total_of, DomainTally};

verus! {

/// How many leaders `top3` reports.
pub const TOP_DOMAINS: usize = 3;

/// Leaderboard of edits per domain, meant to be shared behind a mutex.
pub struct MutexLeaderboard {
    data: DomainTally,
}

impl View for MutexLeaderboard {
    type V = Map<Seq<char>, u64>;

    closed spec fn view(&self) -> Map<Seq<char>, u64> {
        self.data@
    }
}

impl MutexLeaderboard {
    /// The counts always form a well-formed tally.
    #[verifier::type_invariant]
    spec fn wf(&self) -> bool {
        self.data.wf()
    }

    /// A leaderboard with no domain in it.
    pub fn new() -> (lb: Self)
        ensures
            lb@ == Map::<Seq<char>, u64>::empty(),
    {
        MutexLeaderboard { data: DomainTally::new() }
    }

    /// The number of edits counted for `domain` so far.
    pub fn count(&self, domain: &str) -> (c: u64)
        ensures
            c == count_of(self@, domain@),
    {
        proof {
            use_type_invariant(self);
        }
        self.data.count(domain)
    }

    /// Counts one more edit for `domain`; returns the nanoseconds the update
    /// took.
    pub fn increment(&mut self, domain: &str) -> (nanos: u64)
        requires
            count_of(old(self)@, domain@) < u64::MAX,
        ensures
            final(self)@ == old(self)@.insert(domain@, (count_of(old(self)@, domain@) + 1) as u64),
    {
        let start = instant_now();
        self.increment_since(domain, &start)
    }

    /// Counts one more edit for `domain`; returns the nanoseconds from
    /// `started` to the end of the update. A caller that takes `started`
    /// before acquiring the lock around the leaderboard times the lock too.
    pub fn increment_since(&mut self, domain: &str, started: &std::time::Instant) -> (nanos: u64)
        requires
            count_of(old(self)@, domain@) < u64::MAX,
        ensures
            final(self)@ == old(self)@.insert(domain@, (count_of(old(self)@, domain@) + 1) as u64),
    {
        proof {
            use_type_invariant(&*self);
        }
        let mut data = DomainTally::new();
        std::mem::swap(&mut data, &mut self.data);
        data.increment(domain);
        self.data = data;
        elapsed_nanos(started)
    }

    /// The three busiest domains with their counts, busiest first.
    pub fn top3(&self) -> (res: Vec<(String, u64)>)
        ensures
            is_ranking(pairs_view(res@), self@, 3),
    {
        proof {
            use_type_invariant(self);
        }
        self.data.top(TOP_DOMAINS)
    }
}

/// Leaderboard of edits per domain, meant to be shared behind a read-write lock.
pub struct RwLockLeaderboard {
    data: DomainTally,
}

impl View for RwLockLeaderboard {
    type V = Map<Seq<char>, u64>;

    closed spec fn view(&self) -> Map<Seq<char>, u64> {
        self.data@
    }
}

impl RwLockLeaderboard {
    /// The counts always form a well-formed tally.
    #[verifier::type_invariant]
    spec fn wf(&self) -> bool {
        self.data.wf()
    }

    /// A leaderboard with no domain in it.
    pub fn new() -> (lb: Self)
        ensures
            lb@ == Map::<Seq<char>, u64>::empty(),
    {
        RwLockLeaderboard { data: DomainTally::new() }
    }

    /// The number of edits counted for `domain` so far.
    pub fn count(&self, domain: &str) -> (c: u64)
        ensures
            c == count_of(self@, domain@),
    {
        proof {
            use_type_invariant(self);
        }
        self.data.count(domain)
    }

    /// Counts one more edit for `domain`; returns the nanoseconds the update
    /// took.
    pub fn increment(&mut self, domain: &str) -> (nanos: u64)
        requires
            count_of(old(self)@, domain@) < u64::MAX,
        ensures
            final(self)@ == old(self)@.insert(domain@, (count_of(old(self)@, domain@) + 1) as u64),
    {
        let start = instant_now();
        self.increment_since(domain, &start)
    }

    /// Counts one more edit for `domain`; returns the nanoseconds from
    /// `started` to the end of the update. A caller that takes `started`
    /// before acquiring the lock around the leaderboard times the lock too.
    pub fn increment_since(&mut self, domain: &str, started: &std::time::Instant) -> (nanos: u64)
        requires
            count_of(old(self)@, domain@) < u64::MAX,
        ensures
            final(self)@ == old(self)@.insert(domain@, (count_of(old(self)@, domain@) + 1) as u64),
    {
        proof {
            use_type_invariant(&*self);
        }
        let mut data = DomainTally::new();
        std::mem::swap(&mut data, &mut self.data);
        data.increment(domain);
        self.data = data;
        elapsed_nanos(started)
    }

    /// The three busiest domains with their counts, busiest first.
    pub fn top3(&self) -> (res: Vec<(String, u64)>)
        ensures
            is_ranking(pairs_view(res@), self@, 3),
    {
        proof {
            use_type_invariant(self);
        }
        self.data.top(TOP_DOMAINS)
    }
}

/// Leaderboard of edits per domain with a running total of all edits counted.
pub struct AtomicLeaderboard {
    total: u64,
    data: DomainTally,
    increments: Ghost<nat>,
}

impl View for AtomicLeaderboard {
    type V = Map<Seq<char>, u64>;

    closed spec fn view(&self) -> Map<Seq<char>, u64> {
        self.data@
    }
}

/// The number of values a `u64` holds: the total wraps around at this.
pub open spec fn u64_modulus() -> int {
    0x1_0000_0000_0000_0000
}

impl AtomicLeaderboard {
    /// The running total, as `get_total` reads it.
    pub closed spec fn total_count(&self) -> u64 {
        self.total
    }

    /// How many edits have been counted since the leaderboard was made.
    pub closed spec fn increments(&self) -> nat {
        self.increments@
    }

    /// The counts are those of a tally, their sum is the number of
    /// increments, and the total is that number modulo 2^64.
    #[verifier::type_invariant]
    spec fn wf(&self) -> bool {
        &&& self.data.wf()
        &&& total_of(self.data@) == self.increments@
        &&& self.total as int == (self.increments@ as int) % u64_modulus()
    }

    /// A leaderboard with no domain in it and a total of zero.
    pub fn new() -> (lb: Self)
        ensures
            lb@ == Map::<Seq<char>, u64>::empty(),
            lb.total_count() == 0,
            lb.increments() == 0,
    {
        proof {
            lemma_total_empty();
        }
        AtomicLeaderboard { total: 0, data: DomainTally::new(), increments: Ghost(0) }
    }

    /// The number of edits counted for `domain` so far.
    pub fn count(&self, domain: &str) -> (c: u64)
        ensures
            c == count_of(self@, domain@),
    {
        proof {
            use_type_invariant(self);
        }
        self.data.count(domain)
    }

    /// Counts one more edit for `domain`, and one more in the total (which
    /// wraps around past `u64::MAX`); returns the nanoseconds the update took.
    pub fn increment(&mut self, domain: &str) -> (nanos: u64)
        requires
            count_of(old(self)@, domain@) < u64::MAX,
        ensures
            final(self)@ == old(self)@.insert(domain@, (count_of(old(self)@, domain@) + 1) as u64),
            final(self).total_count() == old(self).total_count().wrapping_add(1),
            final(self).increments() == old(self).increments() + 1,
    {
        let start = instant_now();
        self.increment_since(domain, &start)
    }

    /// Counts one more edit for `domain`, and one more in the total (which
    /// wraps around past `u64::MAX`); returns the nanoseconds from `started`
    /// to the end of the update. A caller that takes `started` before
    /// acquiring the lock around the leaderboard times the lock too.
    pub fn increment_since(&mut self, domain: &str, started: &std::time::Instant) -> (nanos: u64)
        requires
            count_of(old(self)@, domain@) < u64::MAX,
        ensures
            final(self)@ == old(self)@.insert(domain@, (count_of(old(self)@, domain@) + 1) as u64),
            final(self).total_count() == old(self).total_count().wrapping_add(1),
            final(self).increments() == old(self).increments() + 1,
    {
        let mut cur = AtomicLeaderboard::new();
        std::mem::swap(&mut cur, self);
        proof {
            use_type_invariant(&cur);
        }
        let AtomicLeaderboard { total, data, increments } = cur;
        let mut data = data;
        let ghost before = data@;
        proof {
            data.lemma_finite();
            lemma_total_after_increment(before, domain@);
            lemma_add_mod_noop(increments@ as int, 1, u64_modulus());
        }
        data.increment(domain);
        *self = AtomicLeaderboard { total: total.wrapping_add(1), data, increments: Ghost(increments@ + 1) };
        elapsed_nanos(started)
    }

    /// The running total of edits counted. It is always the sum of the
    /// per-domain counts modulo 2^64, that sum is the number of increments
    /// made, and until the total wraps around it is exactly that number.
    pub fn get_total(&self) -> (t: u64)
        ensures
            t == self.total_count(),
            t as int == total_of(self@) % u64_modulus(),
            total_of(self@) == self.increments(),
            self.increments() < u64_modulus() ==> t == self.increments(),
    {
        proof {
            use_type_invariant(self);
            if self.increments() < u64_modulus() {
                vstd::arithmetic::div_mod::lemma_small_mod(self.increments(), u64_modulus() as nat);
            }
        }
        self.total
    }

    /// The three busiest domains with their counts, busiest first.
    pub fn top3(&self) -> (res: Vec<(String, u64)>)
        ensures
            is_ranking(pairs_view(res@), self@, 3),
    {
        proof {
            use_type_invariant(self);
        }
        self.data.top(TOP_DOMAINS)
    }
}

/// Counting an edit raises exactly one domain's count, by one, and leaves
/// every other domain's count as it was.
pub proof fn lemma_increment_touches_one_domain(
    before: Map<Seq<char>, u64>,
    after: Map<Seq<char>, u64>,
    domain: Seq<char>,
    count: u64,
)
    requires
        count == count_of(before, domain) + 1,
        after == before.insert(domain, count),
    ensures
        count_of(after, domain) == count_of(before, domain) + 1,
        forall|other: Seq<char>| other != domain ==> #[trigger] count_of(after, other) == count_of(before, other),
        after.dom() == before.dom().insert(domain),
{
    assert(after.dom() =~= before.dom().insert(domain));
}

/// The time each leaderboard update took, in nanoseconds, one list per kind
/// of leaderboard.
pub struct SyncBenchmark {
    pub mutex_times: Vec<u64>,
    pub rwlock_times: Vec<u64>,
    pub atomic_times: Vec<u64>,
}

impl SyncBenchmark {
    /// A benchmark with no timings yet.
    pub fn new() -> (b: Self)
        ensures
            b.mutex_times@ == Seq::<u64>::empty(),
            b.rwlock_times@ == Seq::<u64>::empty(),
            b.atomic_times@ == Seq::<u64>::empty(),
    {
        SyncBenchmark { mutex_times: Vec::new(), rwlock_times: Vec::new(), atomic_times: Vec::new() }
    }

    /// Records the duration of one mutex-leaderboard update.
    pub fn record_mutex(&mut self, nanos: u64)
        ensures
            final(self).mutex_times@ == old(self).mutex_times@.push(nanos),
            final(self).rwlock_times@ == old(self).rwlock_times@,
            final(self).atomic_times@ == old(self).atomic_times@,
    {
        self.mutex_times.push(nanos);
    }

    /// Records the duration of one read-write-lock-leaderboard update.
    pub fn record_rwlock(&mut self, nanos: u64)
        ensures
            final(self).mutex_times@ == old(self).mutex_times@,
            final(self).rwlock_times@ == old(self).rwlock_times@.push(nanos),
            final(self).atomic_times@ == old(self).atomic_times@,
    {
        self.rwlock_times.push(nanos);
    }

    /// Records the duration of one atomic-leaderboard update.
    pub fn record_atomic(&mut self, nanos: u64)
        ensures
            final(self).mutex_times@ == old(self).mutex_times@,
            final(self).rwlock_times@ == old(self).rwlock_times@,
            final(self).atomic_times@ == old(self).atomic_times@.push(nanos),
    {
        self.atomic_times.push(nanos);
    }
}

} // verus!
