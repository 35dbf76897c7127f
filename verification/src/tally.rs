//! Per-domain edit counts: the map that each leaderboard keeps, with the
//! ranking of its busiest domains.
use vstd::prelude::*;
use vstd::set::fold::*;
use vstd::set::*;

verus! {

/// How many edits the map records for `key`: zero for a domain it has not seen.
pub open spec fn count_of(m: Map<Seq<char>, u64>, key: Seq<char>) -> int {
    if m.contains_key(key) {
        m[key] as int
    } else {
        0
    }
}

/// The step of the sum of all counts: add the count of one more domain.
pub open spec fn add_count(m: Map<Seq<char>, u64>) -> spec_fn(int, Seq<char>) -> int {
    |acc: int, key: Seq<char>| acc + m[key]
}

/// The sum of the counts of every domain in the map.
pub open spec fn total_of(m: Map<Seq<char>, u64>) -> int {
    m.dom().fold(0int, add_count(m))
}

/// A (domain, count) pair as the contracts see it.
pub open spec fn pair_view(p: (String, u64)) -> (Seq<char>, u64) {
    (p.0@, p.1)
}

/// A list of (domain, count) pairs as the contracts see it.
pub open spec fn pairs_view(s: Seq<(String, u64)>) -> Seq<(Seq<char>, u64)> {
    s.map_values(|p: (String, u64)| pair_view(p))
}

/// The domains of a ranking, in its order.
pub open spec fn ranked_keys(r: Seq<(Seq<char>, u64)>) -> Seq<Seq<char>> {
    r.map_values(|p: (Seq<char>, u64)| p.0)
}

/// `r` ranks the `k` busiest domains of `m`: it holds `min(k, |m|)` distinct
/// domains with their counts, busiest first, and no domain left out has a
/// higher count than one that is in. Domains of equal count may come in any
/// order, and which of them make the cut at the boundary is left open.
pub open spec fn is_ranking(r: Seq<(Seq<char>, u64)>, m: Map<Seq<char>, u64>, k: nat) -> bool {
    &&& r.len() == (if m.len() < k { m.len() } else { k })
    &&& forall|i: int| 0 <= i < r.len() ==> #[trigger] m.contains_key(r[i].0) && m[r[i].0] == r[i].1
    &&& forall|i: int, j: int| 0 <= i < j < r.len() ==> #[trigger] r[i].0 != #[trigger] r[j].0
    &&& forall|i: int, j: int| 0 <= i < j < r.len() ==> #[trigger] r[i].1 >= #[trigger] r[j].1
    &&& forall|key: Seq<char>, i: int|
        #![trigger m.contains_key(key), r[i]]
        m.contains_key(key) && !ranked_keys(r).contains(key) && 0 <= i < r.len() ==> m[key] <= r[i].1
}

proof fn lemma_add_count_commutative(m: Map<Seq<char>, u64>)
    ensures
        is_fun_commutative(add_count(m)),
{
    let f = add_count(m);
    assert forall|a1: Seq<char>, a2: Seq<char>, b: int| #[trigger] f(f(b, a2), a1) == f(f(b, a1), a2) by {}
}

/// Folding two maps that agree on a set gives the same sum over that set.
proof fn lemma_fold_agree(s: Set<Seq<char>>, m1: Map<Seq<char>, u64>, m2: Map<Seq<char>, u64>)
    requires
        s.finite(),
        forall|x: Seq<char>| s.contains(x) ==> m1[x] == m2[x],
    ensures
        s.fold(0int, add_count(m1)) == s.fold(0int, add_count(m2)),
    decreases s.len(),
{
    lemma_add_count_commutative(m1);
    lemma_add_count_commutative(m2);
    if s.len() == 0 {
        assert(s =~= Set::<Seq<char>>::empty());
        lemma_fold_empty(0int, add_count(m1));
        lemma_fold_empty(0int, add_count(m2));
    } else {
        let a = s.choose();
        let r = s.remove(a);
        assert(s =~= r.insert(a));
        lemma_fold_agree(r, m1, m2);
        lemma_fold_insert(r, 0int, add_count(m1), a);
        lemma_fold_insert(r, 0int, add_count(m2), a);
    }
}

/// Adding a domain that the map does not hold adds its count to the total.
proof fn lemma_total_insert_new(m: Map<Seq<char>, u64>, key: Seq<char>, v: u64)
    requires
        m.dom().finite(),
        !m.contains_key(key),
    ensures
        total_of(m.insert(key, v)) == total_of(m) + v,
{
    let m2 = m.insert(key, v);
    lemma_add_count_commutative(m2);
    assert(m2.dom() =~= m.dom().insert(key));
    lemma_fold_insert(m.dom(), 0int, add_count(m2), key);
    lemma_fold_agree(m.dom(), m, m2);
}

/// Changing the count of a domain the map holds changes the total by the difference.
proof fn lemma_total_update(m: Map<Seq<char>, u64>, key: Seq<char>, v: u64)
    requires
        m.dom().finite(),
        m.contains_key(key),
    ensures
        total_of(m.insert(key, v)) == total_of(m) - m[key] + v,
{
    let m2 = m.insert(key, v);
    lemma_add_count_commutative(m);
    lemma_add_count_commutative(m2);
    let rest = m.dom().remove(key);
    assert(m.dom() =~= rest.insert(key));
    assert(m2.dom() =~= rest.insert(key));
    lemma_fold_insert(rest, 0int, add_count(m), key);
    lemma_fold_insert(rest, 0int, add_count(m2), key);
    lemma_fold_agree(rest, m, m2);
}

/// One more edit for `key` adds one to the total of all counts.
pub proof fn lemma_total_after_increment(m: Map<Seq<char>, u64>, key: Seq<char>)
    requires
        m.dom().finite(),
        count_of(m, key) < u64::MAX,
    ensures
        total_of(m.insert(key, (count_of(m, key) + 1) as u64)) == total_of(m) + 1,
{
    if m.contains_key(key) {
        lemma_total_update(m, key, (count_of(m, key) + 1) as u64);
    } else {
        lemma_total_insert_new(m, key, 1);
    }
}

/// The empty map has total zero.
pub proof fn lemma_total_empty()
    ensures
        total_of(Map::<Seq<char>, u64>::empty()) == 0,
{
    assert(Map::<Seq<char>, u64>::empty().dom() =~= Set::<Seq<char>>::empty());
    lemma_fold_empty(0int, add_count(Map::<Seq<char>, u64>::empty()));
}

/// The first domain of a ranking is a busiest domain: no domain of the map
/// has a higher count.
pub proof fn lemma_leader_is_busiest(r: Seq<(Seq<char>, u64)>, m: Map<Seq<char>, u64>, k: nat)
    requires
        is_ranking(r, m, k),
        r.len() > 0,
    ensures
        forall|key: Seq<char>| #[trigger] m.contains_key(key) ==> m[key] <= r[0].1,
{
    assert forall|key: Seq<char>| #[trigger] m.contains_key(key) implies m[key] <= r[0].1 by {
        if ranked_keys(r).contains(key) {
            let i = choose|i: int| 0 <= i < ranked_keys(r).len() && ranked_keys(r)[i] == key;
            assert(r[i].0 == key);
            if i > 0 {
                assert(r[0].1 >= r[i].1);
            }
        } else {
            assert(m[key] <= r[0].1);
        }
    }
}

/// The edit count of each domain seen so far: the store behind each
/// leaderboard, which keeps it well formed.
pub(crate) struct DomainTally {
    entries: Vec<(String, u64)>,
    counts: Ghost<Map<Seq<char>, u64>>,
}

impl View for DomainTally {
    type V = Map<Seq<char>, u64>;

    closed spec fn view(&self) -> Map<Seq<char>, u64> {
        self.counts@
    }
}

impl DomainTally {
    /// The list of pairs holds each domain once, with the count that the map gives it.
    pub(crate) closed spec fn wf(&self) -> bool {
        let e = self.entries@;
        let m = self.counts@;
        &&& m.dom().finite()
        &&& m.dom().len() == e.len()
        &&& forall|i: int| 0 <= i < e.len() ==> m.contains_key(#[trigger] e[i].0@) && m[e[i].0@] == e[i].1
        &&& forall|i: int, j: int| 0 <= i < j < e.len() ==> (#[trigger] e[i]).0@ != (#[trigger] e[j]).0@
        &&& forall|k: Seq<char>| #[trigger] m.contains_key(k) ==> exists|i: int| 0 <= i < e.len() && e[i].0@ == k
    }

    /// A well-formed tally holds finitely many domains.
    pub(crate) proof fn lemma_finite(&self)
        requires
            self.wf(),
        ensures
            self@.dom().finite(),
    {
    }

    /// An empty tally.
    pub(crate) fn new() -> (t: Self)
        ensures
            t.wf(),
            t@ == Map::<Seq<char>, u64>::empty(),
    {
        let t = DomainTally { entries: Vec::new(), counts: Ghost(Map::empty()) };
        proof {
            assert(t.counts@.dom() =~= Set::<Seq<char>>::empty());
        }
        t
    }

    /// The slot of `key` in the list, if it has one.
    fn position(&self, key: &String) -> (r: Option<usize>)
        requires
            self.wf(),
        ensures
            match r {
                Some(i) => i < self.entries@.len() && self.entries@[i as int].0@ == key@,
                None => !self@.contains_key(key@),
            },
    {
        let n = self.entries.len();
        let mut i: usize = 0;
        while i < n
            invariant
                n == self.entries@.len(),
                i <= n,
                self.wf(),
                forall|j: int| 0 <= j < i ==> (#[trigger] self.entries@[j]).0@ != key@,
            decreases n - i,
        {
            if self.entries[i].0 == *key {
                return Some(i);
            }
            i = i + 1;
        }
        None
    }

    /// The number of edits counted for `domain`, zero if it has none.
    pub(crate) fn count(&self, domain: &str) -> (c: u64)
        requires
            self.wf(),
        ensures
            c == count_of(self@, domain@),
    {
        let key = domain.to_owned();
        match self.position(&key) {
            Some(i) => self.entries[i].1,
            None => 0,
        }
    }

    /// Counts one more edit for `domain` and returns its new count.
    pub(crate) fn increment(&mut self, domain: &str) -> (count: u64)
        requires
            old(self).wf(),
            count_of(old(self)@, domain@) < u64::MAX,
        ensures
            final(self).wf(),
            count == count_of(old(self)@, domain@) + 1,
            final(self)@ == old(self)@.insert(domain@, count),
    {
        let key = domain.to_owned();
        match self.position(&key) {
            Some(i) => {
                let c = self.entries[i].1;
                let nc = c + 1;
                let ghost old_e = self.entries@;
                self.entries.set(i, (key, nc));
                self.counts = Ghost(self.counts@.insert(domain@, nc));
                proof {
                    assert(self.counts@.dom() =~= old(self).counts@.dom());
                    let e = self.entries@;
                    assert forall|j: int| 0 <= j < e.len() implies self.counts@.contains_key(
                        #[trigger] e[j].0@,
                    ) && self.counts@[e[j].0@] == e[j].1 by {
                        if j != i {
                            assert(old_e[j] == e[j]);
                        }
                    }
                    assert forall|k: Seq<char>| #[trigger]
                        self.counts@.contains_key(k) implies exists|j: int|
                        0 <= j < e.len() && e[j].0@ == k by {
                        let j = choose|j: int| 0 <= j < old_e.len() && old_e[j].0@ == k;
                        assert(e[j].0@ == k);
                    }
                }
                nc
            },
            None => {
                let ghost old_e = self.entries@;
                self.entries.push((key, 1));
                self.counts = Ghost(self.counts@.insert(domain@, 1));
                proof {
                    let e = self.entries@;
                    assert(self.counts@.dom() =~= old(self).counts@.dom().insert(domain@));
                    assert forall|j: int| 0 <= j < e.len() implies self.counts@.contains_key(
                        #[trigger] e[j].0@,
                    ) && self.counts@[e[j].0@] == e[j].1 by {
                        if j < old_e.len() {
                            assert(old_e[j] == e[j]);
                        }
                    }
                    assert forall|a: int, b: int| 0 <= a < b < e.len() implies (#[trigger] e[a]).0@
                        != (#[trigger] e[b]).0@ by {
                        assert(old_e[a] == e[a]);
                        if b < old_e.len() {
                            assert(old_e[b] == e[b]);
                        } else {
                            assert(old(self).counts@.contains_key(old_e[a].0@));
                        }
                    }
                    assert forall|k: Seq<char>| #[trigger]
                        self.counts@.contains_key(k) implies exists|j: int|
                        0 <= j < e.len() && e[j].0@ == k by {
                        if k == domain@ {
                            assert(e[e.len() - 1].0@ == k);
                        } else {
                            let j = choose|j: int| 0 <= j < old_e.len() && old_e[j].0@ == k;
                            assert(e[j] == old_e[j]);
                        }
                    }
                }
                1
            },
        }
    }

    /// The `k` busiest domains with their counts, busiest first.
    pub(crate) fn top(&self, k: usize) -> (res: Vec<(String, u64)>)
        requires
            self.wf(),
        ensures
            is_ranking(pairs_view(res@), self@, k as nat),
    {
        let n = self.entries.len();
        let ghost e = pairs_view(self.entries@);
        let mut top: Vec<usize> = Vec::new();
        let mut i: usize = 0;
        while i < n
            invariant
                n == self.entries@.len(),
                e == pairs_view(self.entries@),
                i <= n,
                top@.len() == (if i < k { i as int } else { k as int }),
                forall|j: int| 0 <= j < top@.len() ==> #[trigger] top@[j] < i,
                forall|a: int, b: int| 0 <= a < b < top@.len() ==> #[trigger] top@[a] != #[trigger] top@[b],
                forall|a: int, b: int|
                    0 <= a < b < top@.len() ==> e[#[trigger] top@[a] as int].1 >= e[#[trigger] top@[b] as int].1,
                forall|x: int, j: int|
                    #![trigger e[x], top@[j]]
                    0 <= x < i && !top@.contains(x as usize) && 0 <= j < top@.len() ==> e[x].1 <= e[top@[j] as int].1,
                forall|x: int| #![trigger top@.contains(x as usize)] 0 <= x < i && !top@.contains(x as usize) ==> top@.len() == k,
            decreases n - i,
        {
            let c = self.entries[i].1;
            assert(e[i as int].1 == c);
            let tl = top.len();
            let mut p: usize = 0;
            while p < tl && self.entries[top[p]].1 >= c
                invariant
                    tl == top@.len(),
                    p <= tl,
                    n == self.entries@.len(),
                    e == pairs_view(self.entries@),
                    e[i as int].1 == c,
                    i < n,
                    forall|j: int| 0 <= j < top@.len() ==> #[trigger] top@[j] < i,
                    forall|j: int| 0 <= j < p ==> e[#[trigger] top@[j] as int].1 >= c,
                decreases tl - p,
            {
                p = p + 1;
            }
            let ghost old_top = top@;
            if p < k {
                top.insert(p, i);
                if top.len() > k {
                    top.pop();
                }
            }
            proof {
                let t = top@;
                assert forall|j: int| p <= j < old_top.len() implies e[#[trigger] old_top[j] as int].1 < c by {
                    // the scan stopped at p, and the counts in old_top only fall from there
                    assert(e[old_top[p as int] as int].1 < c);
                    if j > p {
                        assert(e[old_top[p as int] as int].1 >= e[old_top[j] as int].1);
                    }
                }
                if p < k {
                    assert forall|j: int| 0 <= j < t.len() implies (if j < p {
                        t[j] == old_top[j]
                    } else if j == p {
                        t[j] == i
                    } else {
                        t[j] == old_top[j - 1]
                    }) by {}
                    assert forall|j: int| 0 <= j < t.len() implies #[trigger] t[j] < i + 1 by {}
                    assert forall|a: int, b: int| 0 <= a < b < t.len() implies #[trigger] t[a] != #[trigger] t[b] by {}
                    assert forall|a: int, b: int| 0 <= a < b < t.len() implies e[#[trigger] t[a] as int].1
                        >= e[#[trigger] t[b] as int].1 by {}
                    assert forall|x: int, j: int|
                        #![trigger e[x], t[j]]
                        0 <= x < i + 1 && !t.contains(x as usize) && 0 <= j < t.len() implies e[x].1
                        <= e[t[j] as int].1 by {
                        if x == i {
                            assert(t[p as int] == i);
                        } else if old_top.contains(x as usize) {
                            // x was pushed past the end by the insertion
                            let q = choose|q: int| 0 <= q < old_top.len() && old_top[q] == x as usize;
                            if q < k - 1 {
                                if q < p {
                                    assert(t[q] == old_top[q]);
                                } else {
                                    assert(t[q + 1] == old_top[q]);
                                }
                            }
                            assert(q == old_top.len() - 1);
                            assert(old_top.len() == k);
                            assert(q >= p);
                            if j > p {
                                assert(t[j] == old_top[j - 1]);
                            }
                        } else {
                            assert(old_top.len() == k);
                            assert(e[x].1 <= e[old_top[old_top.len() - 1] as int].1);
                            if j < p {
                                assert(t[j] == old_top[j]);
                            } else if j > p {
                                assert(t[j] == old_top[j - 1]);
                            }
                        }
                    }
                    assert forall|x: int| #![trigger t.contains(x as usize)] 0 <= x < i + 1 && !t.contains(x as usize) implies t.len() == k by {
                        if x == i {
                            assert(t[p as int] == i);
                        } else if old_top.contains(x as usize) {
                            let q = choose|q: int| 0 <= q < old_top.len() && old_top[q] == x as usize;
                            if q < p {
                                assert(t[q] == old_top[q]);
                            } else if q + 1 < t.len() {
                                assert(t[q + 1] == old_top[q]);
                            }
                        }
                    }
                } else {
                    assert(t == old_top);
                    assert(p == tl);
                    assert(old_top.len() == k);
                    assert forall|x: int, j: int|
                        #![trigger e[x], t[j]]
                        0 <= x < i + 1 && !t.contains(x as usize) && 0 <= j < t.len() implies e[x].1
                        <= e[t[j] as int].1 by {}
                }
            }
            i = i + 1;
        }
        let mut res: Vec<(String, u64)> = Vec::new();
        let tl = top.len();
        let mut j: usize = 0;
        while j < tl
            invariant
                tl == top@.len(),
                j <= tl,
                n == self.entries@.len(),
                forall|q: int| 0 <= q < tl ==> #[trigger] top@[q] < n,
                res@.len() == j,
                forall|q: int| 0 <= q < j ==> pair_view(#[trigger] res@[q]) == pair_view(self.entries@[top@[q] as int]),
            decreases tl - j,
        {
            let idx = top[j];
            let name = self.entries[idx].0.clone();
            res.push((name, self.entries[idx].1));
            j = j + 1;
        }
        proof {
            let r = pairs_view(res@);
            let m = self@;
            assert(r.len() == top@.len());
            assert forall|q: int| 0 <= q < r.len() implies r[q] == e[top@[q] as int] by {}
            assert forall|q: int| 0 <= q < r.len() implies #[trigger] m.contains_key(r[q].0) && m[r[q].0]
                == r[q].1 by {
                assert(r[q] == e[top@[q] as int]);
                assert(self.entries@[top@[q] as int].0@ == r[q].0);
            }
            assert forall|a: int, b: int| 0 <= a < b < r.len() implies #[trigger] r[a].0 != #[trigger] r[b].0 by {
                assert(r[a] == e[top@[a] as int]);
                assert(r[b] == e[top@[b] as int]);
                let ta = top@[a] as int;
                let tb = top@[b] as int;
                if ta < tb {
                    assert(self.entries@[ta].0@ != self.entries@[tb].0@);
                } else {
                    assert(self.entries@[tb].0@ != self.entries@[ta].0@);
                }
            }
            assert forall|a: int, b: int| 0 <= a < b < r.len() implies #[trigger] r[a].1 >= #[trigger] r[b].1 by {
                assert(r[a] == e[top@[a] as int]);
                assert(r[b] == e[top@[b] as int]);
            }
            assert forall|key: Seq<char>, q: int|
                #![trigger m.contains_key(key), r[q]]
                m.contains_key(key) && !ranked_keys(r).contains(key) && 0 <= q < r.len() implies m[key]
                <= r[q].1 by {
                let x = choose|x: int| 0 <= x < self.entries@.len() && self.entries@[x].0@ == key;
                assert(e[x].0 == key);
                if top@.contains(x as usize) {
                    let w = choose|w: int| 0 <= w < top@.len() && top@[w] == x as usize;
                    assert(r[w] == e[x]);
                    assert(ranked_keys(r)[w] == key);
                }
                assert(r[q] == e[top@[q] as int]);
            }
        }
        res
    }
}

} // verus!
