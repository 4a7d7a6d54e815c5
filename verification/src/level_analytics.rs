use vstd::prelude::*;
use std::collections::HashMap;

verus! {

broadcast use vstd::std_specs::hash::group_hash_axioms;

/// Per-level fill counts of the grid, keyed by grid level id.
pub struct LevelAnalytics {
    fill_counts: HashMap<u64, u64>,
    /// Fills that carried a level id (grid-originated).
    fills_with_level: u64,
    /// Fills without a level id (other strategies, manual).
    fills_without_level: u64,
}

/// Whether `ids` lists distinct levels in order of non-increasing fill count.
pub open spec fn sorted_by_fills_desc(ids: Seq<u64>, m: Map<u64, u64>) -> bool {
    forall|i: int, j: int| 0 <= i < j < ids.len() ==> m[ids[i]] >= m[ids[j]]
}

impl LevelAnalytics {
    /// Fill count of every level that has been filled at least once.
    pub closed spec fn counts(&self) -> Map<u64, u64> {
        self.fill_counts@
    }

    /// Fills that carried a level id (grid-originated).
    pub closed spec fn with_level(&self) -> u64 {
        self.fills_with_level
    }

    /// Fills without a level id (other strategies, manual).
    pub closed spec fn without_level(&self) -> u64 {
        self.fills_without_level
    }

    pub fn fills_with_level(&self) -> (n: u64)
        ensures
            n == self.with_level(),
    {
        self.fills_with_level
    }

    pub fn fills_without_level(&self) -> (n: u64)
        ensures
            n == self.without_level(),
    {
        self.fills_without_level
    }

    /// No level has more fills than all grid fills together.
    pub closed spec fn wf(&self) -> bool {
        forall|id: u64| #[trigger] self.fill_counts@.contains_key(id) ==> self.fill_counts@[id] <= self.fills_with_level
    }

    pub fn new() -> (a: Self)
        ensures
            a.wf(),
            a.counts() == Map::<u64, u64>::empty(),
            a.with_level() == 0,
            a.without_level() == 0,
    {
        LevelAnalytics { fill_counts: HashMap::new(), fills_with_level: 0, fills_without_level: 0 }
    }

    /// Records one fill: a grid fill adds one to its level's count, any
    /// other fill is only counted.
    pub fn record_fill(&mut self, level_id: Option<u64>)
        requires
            old(self).wf(),
            old(self).with_level() < u64::MAX,
            old(self).without_level() < u64::MAX,
        ensures
            final(self).wf(),
            match level_id {
                Some(id) => {
                    &&& final(self).counts() == old(self).counts().insert(
                        id,
                        (if old(self).counts().contains_key(id) { old(self).counts()[id] + 1 } else { 1 }) as u64,
                    )
                    &&& final(self).with_level() == old(self).with_level() + 1
                    &&& final(self).without_level() == old(self).without_level()
                },
                None => {
                    &&& final(self).counts() == old(self).counts()
                    &&& final(self).with_level() == old(self).with_level()
                    &&& final(self).without_level() == old(self).without_level() + 1
                },
            },
    {
        match level_id {
            Some(id) => {
                let current: u64 = match self.fill_counts.get(&id) {
                    Some(c) => *c,
                    None => 0,
                };
                self.fill_counts.insert(id, current + 1);
                self.fills_with_level = self.fills_with_level + 1;
            },
            None => {
                self.fills_without_level = self.fills_without_level + 1;
            },
        }
    }

    /// Fill count of one level (0 when it was never filled).
    pub fn fill_count(&self, level_id: u64) -> (c: u64)
        ensures
            c == (if self.counts().contains_key(level_id) { self.counts()[level_id] } else { 0 }),
    {
        match self.fill_counts.get(&level_id) {
            Some(c) => *c,
            None => 0,
        }
    }

    /// Number of levels filled at least once.
    pub fn tracked_levels(&self) -> (n: usize)
        ensures
            n == self.counts().len(),
    {
        self.fill_counts.len()
    }

    /// Ids of the levels with at least `min_fills` fills, busiest first.
    pub fn hot_levels(&self, min_fills: u64) -> (ids: Vec<u64>)
        ensures
            ids@.no_duplicates(),
            forall|i: int| 0 <= i < ids@.len() ==> #[trigger] self.counts().contains_key(ids@[i]) && self.counts()[ids@[i]] >= min_fills,
            forall|id: u64| #[trigger] self.counts().contains_key(id) && self.counts()[id] >= min_fills ==> ids@.contains(id),
            sorted_by_fills_desc(ids@, self.counts()),
    {
        let ghost m = self.fill_counts@;
        let mut pairs: Vec<(u64, u64)> = Vec::new();
        for key in it: self.fill_counts.keys()
            invariant
                m == self.fill_counts@,
                it.seq().unref().to_set() == m.dom(),
                it.seq().unref().no_duplicates(),
                it.index() <= it.seq().len(),
                pairs_valid(pairs@, m, min_fills),
                pairs_from_prefix(pairs@, it.seq().unref(), it.index()),
                prefix_covered(pairs@, it.seq().unref(), it.index(), m, min_fills),
                pairs_sorted_desc(pairs@),
                pairs_distinct(pairs@),
            ensures
                pairs_valid(pairs@, m, min_fills),
                forall|a: u64| m.contains_key(a) && m[a] >= min_fills ==> exists|x: int| 0 <= x < pairs@.len() && #[trigger] pairs@[x].0 == a,
                pairs_sorted_desc(pairs@),
                pairs_distinct(pairs@),
        {
            let k: u64 = *key;
            let ghost idx = it.index();
            let ghost s = it.seq().unref();
            assert(s[idx] == k);
            assert(m.contains_key(k)) by {
                assert(s.to_set().contains(k));
            }
            let c: u64 = match self.fill_counts.get(&k) {
                Some(v) => *v,
                None => 0,
            };
            if c >= min_fills {
                let mut p: usize = 0;
                while p < pairs.len() && pairs[p].1 >= c
                    invariant
                        p <= pairs@.len(),
                        forall|q: int| 0 <= q < p ==> pairs@[q].1 >= c,
                    decreases pairs@.len() - p,
                {
                    p = p + 1;
                }
                let ghost old_pairs = pairs@;
                pairs.insert(p, (k, c));
                proof {
                    lemma_insert_step(old_pairs, p as int, k, c, s, idx, m, min_fills);
                }
            } else {
                proof {
                    lemma_skip_step(pairs@, k, s, idx, m, min_fills);
                }
            }
        }
        let mut ids: Vec<u64> = Vec::new();
        let mut n: usize = 0;
        while n < pairs.len()
            invariant
                n <= pairs@.len(),
                ids@.len() == n,
                forall|x: int| 0 <= x < n ==> ids@[x] == pairs@[x].0,
            decreases pairs@.len() - n,
        {
            ids.push(pairs[n].0);
            n = n + 1;
        }
        proof {
            assert forall|id: u64| #[trigger] m.contains_key(id) && m[id] >= min_fills implies ids@.contains(id) by {
                let x = choose|x: int| 0 <= x < pairs@.len() && #[trigger] pairs@[x].0 == id;
                assert(ids@[x] == id);
            }
            assert forall|i: int, j: int| 0 <= i < j < ids@.len() implies ids@[i] != ids@[j] by {
                assert(pairs@[i].0 != pairs@[j].0);
            }
            assert forall|i: int, j: int| 0 <= i < j < ids@.len() implies m[ids@[i]] >= m[ids@[j]] by {
                assert(pairs@[i].1 >= pairs@[j].1);
                assert(m.contains_key(pairs@[i].0));
                assert(m.contains_key(pairs@[j].0));
            }
            assert forall|i: int| 0 <= i < ids@.len() implies #[trigger] m.contains_key(ids@[i]) && m[ids@[i]] >= min_fills by {
                assert(m.contains_key(pairs@[i].0));
            }
        }
        ids
    }
}

/// Every collected (level, fills) pair is a level of `m` with its count, at least `min`.
pub open spec fn pairs_valid(pairs: Seq<(u64, u64)>, m: Map<u64, u64>, min: u64) -> bool {
    forall|x: int| 0 <= x < pairs.len() ==> {
        &&& m.contains_key(#[trigger] pairs[x].0)
        &&& m[pairs[x].0] == pairs[x].1
        &&& pairs[x].1 >= min
    }
}

/// Every collected level is among the first `n` keys visited.
pub open spec fn pairs_from_prefix(pairs: Seq<(u64, u64)>, s: Seq<u64>, n: int) -> bool {
    forall|x: int| 0 <= x < pairs.len() ==> exists|j: int| 0 <= j < n && s[j] == #[trigger] pairs[x].0
}

/// Every qualifying level among the first `n` keys visited was collected.
pub open spec fn prefix_covered(pairs: Seq<(u64, u64)>, s: Seq<u64>, n: int, m: Map<u64, u64>, min: u64) -> bool {
    forall|j: int| 0 <= j < n && m[s[j]] >= min ==> exists|x: int| 0 <= x < pairs.len() && #[trigger] pairs[x].0 == s[j]
}

pub open spec fn pairs_sorted_desc(pairs: Seq<(u64, u64)>) -> bool {
    forall|x: int, y: int| 0 <= x < y < pairs.len() ==> pairs[x].1 >= pairs[y].1
}

pub open spec fn pairs_distinct(pairs: Seq<(u64, u64)>) -> bool {
    forall|x: int, y: int| 0 <= x < y < pairs.len() ==> pairs[x].0 != pairs[y].0
}

proof fn lemma_insert_step(
    old_pairs: Seq<(u64, u64)>,
    p: int,
    k: u64,
    c: u64,
    s: Seq<u64>,
    idx: int,
    m: Map<u64, u64>,
    min: u64,
)
    requires
        0 <= idx < s.len(),
        s.no_duplicates(),
        s[idx] == k,
        m.contains_key(k),
        m[k] == c,
        c >= min,
        0 <= p <= old_pairs.len(),
        forall|q: int| 0 <= q < p ==> old_pairs[q].1 >= c,
        p < old_pairs.len() ==> old_pairs[p].1 < c,
        pairs_valid(old_pairs, m, min),
        pairs_from_prefix(old_pairs, s, idx),
        prefix_covered(old_pairs, s, idx, m, min),
        pairs_sorted_desc(old_pairs),
        pairs_distinct(old_pairs),
    ensures
        pairs_valid(old_pairs.insert(p, (k, c)), m, min),
        pairs_from_prefix(old_pairs.insert(p, (k, c)), s, idx + 1),
        prefix_covered(old_pairs.insert(p, (k, c)), s, idx + 1, m, min),
        pairs_sorted_desc(old_pairs.insert(p, (k, c))),
        pairs_distinct(old_pairs.insert(p, (k, c))),
{
    old_pairs.insert_ensures(p, (k, c));
    lemma_insert_valid(old_pairs, p, k, c, m, min);
    lemma_insert_from_prefix(old_pairs, p, k, c, s, idx);
    lemma_insert_covered(old_pairs, p, k, c, s, idx, m, min);
    lemma_insert_sorted(old_pairs, p, k, c);
    lemma_key_is_new(old_pairs, k, s, idx);
    lemma_insert_distinct(old_pairs, p, k, c);
}

proof fn lemma_insert_valid(old_pairs: Seq<(u64, u64)>, p: int, k: u64, c: u64, m: Map<u64, u64>, min: u64)
    requires
        0 <= p <= old_pairs.len(),
        m.contains_key(k),
        m[k] == c,
        c >= min,
        pairs_valid(old_pairs, m, min),
    ensures
        pairs_valid(old_pairs.insert(p, (k, c)), m, min),
{
    let np = old_pairs.insert(p, (k, c));
    old_pairs.insert_ensures(p, (k, c));
    assert forall|x: int| 0 <= x < np.len() implies {
        &&& m.contains_key(#[trigger] np[x].0)
        &&& m[np[x].0] == np[x].1
        &&& np[x].1 >= min
    } by {
        if x < p {
            assert(np[x] == old_pairs[x]);
        } else if x > p {
            assert(np[x] == old_pairs[x - 1]);
        }
    }
}

proof fn lemma_insert_from_prefix(old_pairs: Seq<(u64, u64)>, p: int, k: u64, c: u64, s: Seq<u64>, idx: int)
    requires
        0 <= idx < s.len(),
        s[idx] == k,
        0 <= p <= old_pairs.len(),
        pairs_from_prefix(old_pairs, s, idx),
    ensures
        pairs_from_prefix(old_pairs.insert(p, (k, c)), s, idx + 1),
{
    let np = old_pairs.insert(p, (k, c));
    old_pairs.insert_ensures(p, (k, c));
    assert forall|x: int| 0 <= x < np.len() implies exists|j: int| 0 <= j < idx + 1 && s[j] == #[trigger] np[x].0 by {
        if x < p {
            assert(np[x] == old_pairs[x]);
            let j = choose|j: int| 0 <= j < idx && s[j] == #[trigger] old_pairs[x].0;
            assert(s[j] == np[x].0);
        } else if x == p {
            assert(s[idx] == np[x].0);
        } else {
            assert(np[x] == old_pairs[x - 1]);
            let j = choose|j: int| 0 <= j < idx && s[j] == #[trigger] old_pairs[x - 1].0;
            assert(s[j] == np[x].0);
        }
    }
}

proof fn lemma_insert_covered(
    old_pairs: Seq<(u64, u64)>,
    p: int,
    k: u64,
    c: u64,
    s: Seq<u64>,
    idx: int,
    m: Map<u64, u64>,
    min: u64,
)
    requires
        0 <= idx < s.len(),
        s[idx] == k,
        0 <= p <= old_pairs.len(),
        prefix_covered(old_pairs, s, idx, m, min),
    ensures
        prefix_covered(old_pairs.insert(p, (k, c)), s, idx + 1, m, min),
{
    let np = old_pairs.insert(p, (k, c));
    old_pairs.insert_ensures(p, (k, c));
    assert forall|j: int| 0 <= j < idx + 1 && m[s[j]] >= min implies exists|x: int| 0 <= x < np.len() && #[trigger] np[x].0 == s[j] by {
        if j == idx {
            assert(np[p].0 == s[j]);
        } else {
            let x0 = choose|x: int| 0 <= x < old_pairs.len() && #[trigger] old_pairs[x].0 == s[j];
            if x0 < p {
                assert(np[x0].0 == s[j]);
            } else {
                assert(np[x0 + 1].0 == s[j]);
            }
        }
    }
}

proof fn lemma_insert_sorted(old_pairs: Seq<(u64, u64)>, p: int, k: u64, c: u64)
    requires
        0 <= p <= old_pairs.len(),
        forall|q: int| 0 <= q < p ==> old_pairs[q].1 >= c,
        p < old_pairs.len() ==> old_pairs[p].1 < c,
        pairs_sorted_desc(old_pairs),
    ensures
        pairs_sorted_desc(old_pairs.insert(p, (k, c))),
{
    let np = old_pairs.insert(p, (k, c));
    old_pairs.insert_ensures(p, (k, c));
    assert forall|q: int| p <= q < old_pairs.len() implies old_pairs[q].1 < c by {
        if q > p {
            assert(old_pairs[p].1 >= old_pairs[q].1);
        }
    }
    assert forall|x: int, y: int| 0 <= x < y < np.len() implies np[x].1 >= np[y].1 by {
        if y < p {
            assert(np[x] == old_pairs[x]);
            assert(np[y] == old_pairs[y]);
        } else if y == p {
            assert(np[x] == old_pairs[x]);
        } else if x < p {
            assert(np[x] == old_pairs[x]);
            assert(np[y] == old_pairs[y - 1]);
        } else if x == p {
            assert(np[y] == old_pairs[y - 1]);
        } else {
            assert(np[x] == old_pairs[x - 1]);
            assert(np[y] == old_pairs[y - 1]);
        }
    }
}

proof fn lemma_key_is_new(old_pairs: Seq<(u64, u64)>, k: u64, s: Seq<u64>, idx: int)
    requires
        0 <= idx < s.len(),
        s.no_duplicates(),
        s[idx] == k,
        pairs_from_prefix(old_pairs, s, idx),
    ensures
        forall|x: int| 0 <= x < old_pairs.len() ==> #[trigger] old_pairs[x].0 != k,
{
    assert forall|x: int| 0 <= x < old_pairs.len() implies #[trigger] old_pairs[x].0 != k by {
        let j = choose|j: int| 0 <= j < idx && s[j] == #[trigger] old_pairs[x].0;
        assert(s[j] != s[idx]);
    }
}

proof fn lemma_insert_distinct(old_pairs: Seq<(u64, u64)>, p: int, k: u64, c: u64)
    requires
        0 <= p <= old_pairs.len(),
        forall|x: int| 0 <= x < old_pairs.len() ==> #[trigger] old_pairs[x].0 != k,
        pairs_distinct(old_pairs),
    ensures
        pairs_distinct(old_pairs.insert(p, (k, c))),
{
    let np = old_pairs.insert(p, (k, c));
    old_pairs.insert_ensures(p, (k, c));
    assert forall|x: int, y: int| 0 <= x < y < np.len() implies np[x].0 != np[y].0 by {
        if y < p {
            assert(np[x] == old_pairs[x]);
            assert(np[y] == old_pairs[y]);
        } else if y == p {
            assert(np[x] == old_pairs[x]);
        } else if x < p {
            assert(np[x] == old_pairs[x]);
            assert(np[y] == old_pairs[y - 1]);
        } else if x == p {
            assert(np[y] == old_pairs[y - 1]);
        } else {
            assert(np[x] == old_pairs[x - 1]);
            assert(np[y] == old_pairs[y - 1]);
        }
    }
}

proof fn lemma_skip_step(pairs: Seq<(u64, u64)>, k: u64, s: Seq<u64>, idx: int, m: Map<u64, u64>, min: u64)
    requires
        0 <= idx < s.len(),
        s[idx] == k,
        m.contains_key(k),
        m[k] < min,
        pairs_from_prefix(pairs, s, idx),
        prefix_covered(pairs, s, idx, m, min),
    ensures
        pairs_from_prefix(pairs, s, idx + 1),
        prefix_covered(pairs, s, idx + 1, m, min),
{
    assert forall|x: int| 0 <= x < pairs.len() implies exists|j: int| 0 <= j < idx + 1 && s[j] == #[trigger] pairs[x].0 by {
        let j = choose|j: int| 0 <= j < idx && s[j] == #[trigger] pairs[x].0;
    }
}

} // verus!
