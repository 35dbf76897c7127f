//! Summary statistics over lists of durations: sums, maxima and
//! nearest-rank percentiles, as the drift and benchmark reports show them.
use vstd::prelude::*;
use vstd::relations::*;

verus! {

/// The sum of a list of durations.
pub open spec fn seq_sum(s: Seq<u64>) -> int
    decreases s.len(),
{
    if s.len() == 0 {
        0
    } else {
        seq_sum(s.drop_last()) + s.last()
    }
}

/// The largest of a list of durations; zero for an empty list.
pub open spec fn seq_max(s: Seq<u64>) -> u64
    decreases s.len(),
{
    if s.len() == 0 {
        0
    } else {
        let m = seq_max(s.drop_last());
        if s.last() > m {
            s.last()
        } else {
            m
        }
    }
}

/// The ascending order on durations.
pub open spec fn ascending() -> spec_fn(u64, u64) -> bool {
    |a: u64, b: u64| a <= b
}

/// A list of durations in ascending order.
pub open spec fn sorted_ascending(s: Seq<u64>) -> Seq<u64> {
    s.sort_by(ascending())
}

/// Where the `p`-th percentile stands among `n` sorted values by the
/// nearest-rank rule: the `ceil(p * n / 100)`-th value, counting from one,
/// kept inside the list.
pub open spec fn rank_index(n: nat, p: nat) -> int {
    let c = (p * n + 99) / 100;
    let i = if c >= 1 {
        c - 1
    } else {
        0
    };
    if i < n - 1 {
        i
    } else {
        n - 1
    }
}

/// The nearest-rank `p`-th percentile of a list of durations; zero for an
/// empty list.
pub open spec fn percentile_of(s: Seq<u64>, p: nat) -> u64 {
    if s.len() == 0 {
        0
    } else {
        sorted_ascending(s)[rank_index(s.len(), p)]
    }
}

/// Sorts the vector in place, in ascending order (`slice::sort_unstable`): the
/// contract claims that the result is in ascending order and holds the same
/// values, each as often as before, as std's documentation says.
#[verifier::external_body]
fn sort_in_place(v: &mut Vec<u64>)
    ensures
        final(v)@.to_multiset() == old(v)@.to_multiset(),
        sorted_by(final(v)@, ascending()),
{
    v.sort_unstable();
}

proof fn lemma_ascending_total()
    ensures
        total_ordering(ascending()),
{
    let r = ascending();
    assert(reflexive(r));
    assert(antisymmetric(r));
    assert(transitive(r));
    assert(strongly_connected(r));
}

/// A sorted copy of the durations.
pub fn sorted_copy(values: &[u64]) -> (r: Vec<u64>)
    ensures
        r@ == sorted_ascending(values@),
{
    let mut v: Vec<u64> = Vec::new();
    let n = values.len();
    let mut i: usize = 0;
    while i < n
        invariant
            n == values@.len(),
            i <= n,
            v@ == values@.take(i as int),
        decreases n - i,
    {
        v.push(values[i]);
        i = i + 1;
        proof {
            assert(v@ =~= values@.take(i as int));
        }
    }
    proof {
        assert(values@.take(n as int) =~= values@);
    }
    let ghost before = v@;
    sort_in_place(&mut v);
    proof {
        lemma_ascending_total();
        before.lemma_sort_by_ensures(ascending());
        vstd::seq_lib::lemma_sorted_unique(v@, sorted_ascending(before), ascending());
    }
    v
}

/// Where the `p`-th percentile stands among `n` sorted values.
pub fn rank_of(n: usize, p: u64) -> (i: usize)
    requires
        n > 0,
    ensures
        i as int == rank_index(n as nat, p as nat),
        i < n,
{
    proof {
        vstd::arithmetic::mul::lemma_mul_upper_bound(
            p as int,
            0xffff_ffff_ffff_ffff,
            n as int,
            0xffff_ffff_ffff_ffff,
        );
    }
    let prod: u128 = (p as u128) * (n as u128);
    let c: u128 = (prod + 99) / 100;
    let i: u128 = if c >= 1 {
        c - 1
    } else {
        0
    };
    let last: u128 = (n - 1) as u128;
    if i < last {
        i as usize
    } else {
        n - 1
    }
}

/// The nearest-rank `p`-th percentile of the durations; zero when there are none.
pub fn percentile(values: &[u64], p: u64) -> (r: u64)
    ensures
        r == percentile_of(values@, p as nat),
{
    if values.len() == 0 {
        return 0;
    }
    let sorted = sorted_copy(values);
    proof {
        lemma_ascending_total();
        values@.lemma_sort_by_ensures(ascending());
        assert(sorted@.len() == values@.len()) by {
            vstd::seq_lib::to_multiset_len(sorted@);
            vstd::seq_lib::to_multiset_len(values@);
        }
    }
    sorted[rank_of(values.len(), p)]
}

/// The sum of the durations.
pub fn sum_of(values: &[u64]) -> (r: u128)
    ensures
        r == seq_sum(values@),
{
    let n = values.len();
    let mut acc: u128 = 0;
    let mut i: usize = 0;
    while i < n
        invariant
            n == values@.len(),
            i <= n,
            acc == seq_sum(values@.take(i as int)),
            acc <= i * 0xffff_ffff_ffff_ffff,
        decreases n - i,
    {
        proof {
            assert(values@.take(i + 1).drop_last() =~= values@.take(i as int));
            assert(i * 0xffff_ffff_ffff_ffff + 0xffff_ffff_ffff_ffff < 0x1_0000_0000_0000_0000_0000_0000_0000_0000)
                by (nonlinear_arith)
                requires
                    i < 0xffff_ffff_ffff_ffff,
            ;
        }
        acc = acc + values[i] as u128;
        i = i + 1;
    }
    proof {
        assert(values@.take(n as int) =~= values@);
    }
    acc
}

/// The largest of the durations; zero when there are none.
pub fn max_of(values: &[u64]) -> (r: u64)
    ensures
        r == seq_max(values@),
{
    let n = values.len();
    let mut best: u64 = 0;
    let mut i: usize = 0;
    while i < n
        invariant
            n == values@.len(),
            i <= n,
            best == seq_max(values@.take(i as int)),
        decreases n - i,
    {
        proof {
            assert(values@.take(i + 1).drop_last() =~= values@.take(i as int));
        }
        if values[i] > best {
            best = values[i];
        }
        i = i + 1;
    }
    proof {
        assert(values@.take(n as int) =~= values@);
    }
    best
}

/// Every value of a list is at most its maximum, and the maximum of a
/// non-empty list is one of its values.
pub proof fn lemma_max_bounds(s: Seq<u64>)
    ensures
        forall|i: int| 0 <= i < s.len() ==> #[trigger] s[i] <= seq_max(s),
        s.len() > 0 ==> s.contains(seq_max(s)),
    decreases s.len(),
{
    if s.len() > 0 {
        let init = s.drop_last();
        lemma_max_bounds(init);
        assert forall|i: int| 0 <= i < s.len() implies #[trigger] s[i] <= seq_max(s) by {
            if i < s.len() - 1 {
                assert(s[i] == init[i]);
            }
        }
        if s.last() <= seq_max(init) && init.len() > 0 {
            let k = choose|k: int| 0 <= k < init.len() && init[k] == seq_max(init);
            assert(s[k] == init[k]);
        } else {
            assert(s[s.len() - 1] == s.last());
        }
    }
}

/// A percentile never exceeds the maximum.
pub proof fn lemma_percentile_at_most_max(s: Seq<u64>, p: nat)
    ensures
        percentile_of(s, p) <= seq_max(s),
{
    lemma_max_bounds(s);
    if s.len() > 0 {
        lemma_ascending_total();
        s.lemma_sort_by_ensures(ascending());
        vstd::seq_lib::to_multiset_len(s);
        vstd::seq_lib::to_multiset_len(sorted_ascending(s));
        let t = sorted_ascending(s);
        let i = rank_index(s.len(), p);
        assert(0 <= i < t.len());
        assert(t.contains(t[i]));
        assert(s.contains(t[i]));
    }
}

/// Higher percentiles are never smaller: the 50th is at most the 90th, which
/// is at most the 99th, which is at most the maximum.
pub proof fn lemma_percentile_monotone(s: Seq<u64>, p: nat, q: nat)
    requires
        p <= q,
    ensures
        percentile_of(s, p) <= percentile_of(s, q),
        percentile_of(s, q) <= seq_max(s),
{
    lemma_percentile_at_most_max(s, q);
    if s.len() > 0 {
        lemma_ascending_total();
        s.lemma_sort_by_ensures(ascending());
        vstd::seq_lib::to_multiset_len(s);
        vstd::seq_lib::to_multiset_len(sorted_ascending(s));
        let n = s.len();
        assert(p * n <= q * n) by (nonlinear_arith)
            requires
                p <= q,
        ;
        assert((p * n + 99) / 100 <= (q * n + 99) / 100) by (nonlinear_arith)
            requires
                p * n <= q * n,
        ;
        let t = sorted_ascending(s);
        let i = rank_index(n, p);
        let j = rank_index(n, q);
        assert(i <= j);
        if i < j {
            assert(ascending()(t[i], t[j]));
        }
    }
}

/// What a drift report shows of one kind of edit.
pub struct DriftSummary {
    pub samples: usize,
    pub total_us: u128,
    pub p50_us: u64,
    pub p90_us: u64,
    pub p99_us: u64,
    pub max_us: u64,
}

/// The count, sum, median, 90th and 99th percentiles and maximum of the drifts.
pub fn summarize(values: &[u64]) -> (s: DriftSummary)
    ensures
        s.samples == values@.len(),
        s.total_us == seq_sum(values@),
        s.p50_us == percentile_of(values@, 50),
        s.p90_us == percentile_of(values@, 90),
        s.p99_us == percentile_of(values@, 99),
        s.max_us == seq_max(values@),
{
    DriftSummary {
        samples: values.len(),
        total_us: sum_of(values),
        p50_us: percentile(values, 50),
        p90_us: percentile(values, 90),
        p99_us: percentile(values, 99),
        max_us: max_of(values),
    }
}

/// How human edits' tail latency compares with bots': `Some(true)` when the
/// human 99th percentile is the lower, `Some(false)` when it is not, and
/// `None` when either is zero, so that no ratio can be taken.
pub fn human_tail_better(human_p99: u64, bot_p99: u64) -> (r: Option<bool>)
    ensures
        r == (if human_p99 > 0 && bot_p99 > 0 {
            Some(human_p99 < bot_p99)
        } else {
            None
        }),
{
    if human_p99 > 0 && bot_p99 > 0 {
        Some(human_p99 < bot_p99)
    } else {
        None
    }
}

/// What a deadline report says.
#[derive(PartialEq, Eq, Structural, Debug, Clone, Copy)]
pub enum DeadlineVerdict {
    /// Nothing was processed: there is nothing to report.
    NothingProcessed,
    /// Every processed edit met its deadline.
    AllMet,
    /// Some edits missed their deadline.
    SomeMissed,
}

/// The verdict of the deadline report on `misses` late edits out of `total`.
pub fn deadline_verdict(misses: u64, total: u64) -> (v: DeadlineVerdict)
    ensures
        v == (if total == 0 {
            DeadlineVerdict::NothingProcessed
        } else if misses == 0 {
            DeadlineVerdict::AllMet
        } else {
            DeadlineVerdict::SomeMissed
        }),
{
    if total == 0 {
        DeadlineVerdict::NothingProcessed
    } else if misses == 0 {
        DeadlineVerdict::AllMet
    } else {
        DeadlineVerdict::SomeMissed
    }
}

} // verus!
