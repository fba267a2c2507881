use vstd::prelude::*;
use std::collections::HashMap;
use crate::batch::TaggedBatch;

verus! {

broadcast use vstd::std_specs::hash::group_hash_axioms;

/// The count a table records for a worker: its entry, or zero where the
/// worker has not been seen yet.
pub open spec fn lookup(t: Map<u8, int>, w: u8) -> int {
    if t.contains_key(w) {
        t[w]
    } else {
        0
    }
}

/// One recording step: the worker's count grows by the batch size.
/// A batch is a pair of the worker's identity and its message count.
pub open spec fn bump(t: Map<u8, int>, b: (u8, int)) -> Map<u8, int> {
    t.insert(b.0, lookup(t, b.0) + b.1)
}

/// `bump` as a function value, for folding over a run of batches.
pub open spec fn bump_fn() -> spec_fn(Map<u8, int>, (u8, int)) -> Map<u8, int> {
    |t: Map<u8, int>, b: (u8, int)| bump(t, b)
}

/// The table after recording a whole run of batches in order.
pub open spec fn apply_all(t: Map<u8, int>, bs: Seq<(u8, int)>) -> Map<u8, int> {
    bs.fold_left(t, bump_fn())
}

/// The sum of the sizes of the batches in `bs` that carry worker `w`'s tag.
pub open spec fn sum_for(bs: Seq<(u8, int)>, w: u8) -> int
    decreases bs.len(),
{
    if bs.len() == 0 {
        0
    } else {
        sum_for(bs.drop_last(), w) + if bs.last().0 == w {
            bs.last().1
        } else {
            0
        }
    }
}

/// After a run of batches, a worker's count has grown by exactly the sum of
/// the sizes of that worker's own batches: batches carrying other tags leave
/// it alone, and every one of its own is counted once.
pub proof fn lemma_count_is_sum(t: Map<u8, int>, bs: Seq<(u8, int)>, w: u8)
    ensures
        lookup(apply_all(t, bs), w) == lookup(t, w) + sum_for(bs, w),
    decreases bs.len(),
{
    if bs.len() > 0 {
        lemma_count_is_sum(t, bs.drop_last(), w);
        assert(apply_all(t, bs) == bump(apply_all(t, bs.drop_last()), bs.last()));
    }
}

/// Aggregation is order-independent: two interleavings that deliver the same
/// batches (as a multiset) leave the table identical.
pub proof fn lemma_order_independent(t: Map<u8, int>, bs1: Seq<(u8, int)>, bs2: Seq<(u8, int)>)
    requires
        bs1.to_multiset() == bs2.to_multiset(),
    ensures
        apply_all(t, bs1) == apply_all(t, bs2),
{
    assert(vstd::seq_lib::commutative_foldl(bump_fn())) by {
        assert forall|x: (u8, int), y: (u8, int), v: Map<u8, int>| #[trigger] bump_fn()(
            bump_fn()(v, x),
            y,
        ) == bump_fn()(bump_fn()(v, y), x) by {
            assert(bump(bump(v, x), y) =~= bump(bump(v, y), x));
        }
    }
    vstd::seq_lib::lemma_fold_left_permutation(bs1, bs2, bump_fn(), t);
}

/// Delivering the same batch twice to a fresh aggregator records twice its
/// size: there is no deduplication.
pub proof fn lemma_redelivery_doubles(b: (u8, int))
    ensures
        lookup(apply_all(Map::<u8, int>::empty(), seq![b, b]), b.0) == 2 * b.1,
{
    let bs = seq![b, b];
    lemma_count_is_sum(Map::<u8, int>::empty(), bs, b.0);
    assert(bs.drop_last() =~= seq![b]);
    assert(seq![b].drop_last() =~= Seq::<(u8, int)>::empty());
    assert(sum_for(Seq::<(u8, int)>::empty(), b.0) == 0);
    assert(sum_for(seq![b], b.0) == b.1);
    assert(sum_for(bs, b.0) == sum_for(seq![b], b.0) + b.1);
}

/// Counts never decrease: recording a batch leaves every worker's count at
/// least where it stood.
pub proof fn lemma_counts_monotone(t: Map<u8, int>, b: (u8, int), w: u8)
    requires
        b.1 >= 0,
    ensures
        lookup(bump(t, b), w) >= lookup(t, w),
{
}

/// A batch of zero messages changes no entry's value: every worker's count,
/// the tagging worker's included, reads as before.
pub proof fn lemma_empty_batch_preserves_counts(t: Map<u8, int>, b: (u8, int), w: u8)
    requires
        b.1 == 0,
    ensures
        lookup(bump(t, b), w) == lookup(t, w),
{
}

/// The single reader of the worker channel and the sole owner of the
/// per-worker counter table.
pub struct Aggregator {
    counters: HashMap<u8, u64>,
}

impl Aggregator {
    /// The table as a mathematical map from worker identity to count.
    pub closed spec fn table(self) -> Map<u8, int> {
        self.counters@.map_values(|v: u64| v as int)
    }

    /// A fresh aggregator records nothing for any worker.
    pub fn new() -> (a: Aggregator)
        ensures
            a.table() == Map::<u8, int>::empty(),
    {
        let a = Aggregator { counters: HashMap::new() };
        proof {
            assert(a.table() =~= Map::<u8, int>::empty());
        }
        a
    }

    /// The current count recorded for worker `w` (zero where none is).
    pub fn count_for(&self, w: u8) -> (n: u64)
        ensures
            n as int == lookup(self.table(), w),
    {
        match self.counters.get(&w) {
            Some(c) => *c,
            None => 0,
        }
    }

    /// Record one tagged batch: the tagging worker's count grows by the
    /// batch's message count; every other worker's count is untouched.
    pub fn record(&mut self, b: TaggedBatch)
        requires
            lookup(old(self).table(), b.worker_id) + b.size() <= u64::MAX,
        ensures
            final(self).table() == bump(old(self).table(), (b.worker_id, b.size())),
    {
        let w = b.worker_id;
        let n = b.batch.len();
        let current: u64 = match self.counters.get(&w) {
            Some(c) => *c,
            None => 0,
        };
        proof {
            assert(current as int == lookup(self.table(), w));
            assert(n as u64 as int == b.batch@.len() as int);
        }
        self.counters.insert(w, current + n as u64);
        proof {
            assert(final(self).table() =~= bump(
                old(self).table(),
                (b.worker_id, b.batch@.len() as int),
            ));
        }
    }
}

} // verus!
