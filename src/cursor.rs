use vstd::prelude::*;
use std::sync::atomic::AtomicI64;
use std::sync::atomic::Ordering;

verus! {

/// A half-open range `[start, end)` of task keys, handed to one worker.
#[derive(Clone, Copy, PartialEq, Eq, Structural, Debug)]
pub struct Batch {
    pub start: i64,
    pub end: i64,
}

/// The batch that begins at `start`, or `None` once `start` is past the task space.
pub open spec fn spec_batch_at(start: int, batch_size: int, total: int) -> Option<Batch> {
    if 0 <= start < total {
        Some(
            Batch {
                start: start as i64,
                end: (if start + batch_size < total {
                    start + batch_size
                } else {
                    total
                }) as i64,
            },
        )
    } else {
        None
    }
}

/// The `k`-th batch handed out by a cursor: the one that begins at `k * batch_size`.
pub open spec fn spec_nth_batch(k: int, batch_size: int, total: int) -> Option<Batch> {
    spec_batch_at(k * batch_size, batch_size, total)
}

/// Whether a batch holds a key.
pub open spec fn batch_holds(b: Option<Batch>, pk: int) -> bool {
    b matches Some(batch) && batch.start <= pk < batch.end
}

/// Cuts the batch that begins at `start` from the task space `[0, total)`.
/// A start before the task space, which no cursor hands out, yields `None`.
pub fn batch_at(start: i64, batch_size: i64, total: i64) -> (r: Option<Batch>)
    requires
        batch_size > 0,
        total > 0,
    ensures
        r == spec_batch_at(start as int, batch_size as int, total as int),
{
    if start < 0 || start >= total {
        None
    } else if batch_size < total - start {
        Some(Batch { start, end: start + batch_size })
    } else {
        Some(Batch { start, end: total })
    }
}

/// The shared source of batches: an atomic counter that each call advances by
/// one batch, so that concurrent workers never receive the same keys.
pub struct TaskCursor {
    next_batch_start: AtomicI64,
    total: i64,
    batch_size: i64,
}

impl TaskCursor {
    /// The number of tasks in the cursor's task space.
    pub closed spec fn spec_total(&self) -> int {
        self.total as int
    }

    /// The number of tasks in every batch but the last.
    pub closed spec fn spec_batch_size(&self) -> int {
        self.batch_size as int
    }

    /// A fresh cursor over `[0, total)`, positioned at the first batch.
    pub fn new(total: i64, batch_size: i64) -> (r: TaskCursor)
        requires
            total > 0,
            batch_size > 0,
        ensures
            r.spec_total() == total,
            r.spec_batch_size() == batch_size,
    {
        TaskCursor { next_batch_start: AtomicI64::new(0), total, batch_size }
    }

    /// The number of tasks in the cursor's task space.
    pub fn total(&self) -> (r: i64)
        ensures
            r == self.spec_total(),
    {
        self.total
    }

    /// The number of tasks in every batch but the last.
    pub fn batch_size(&self) -> (r: i64)
        ensures
            r == self.spec_batch_size(),
    {
        self.batch_size
    }

    /// Takes the next batch, or `None` once the task space is used up.
    /// Which batch a caller gets depends on the other callers; whatever it is,
    /// it lies within the task space and is cut as `spec_batch_at` says.
    pub fn next_batch(&self) -> (r: Option<Batch>)
        requires
            self.spec_total() > 0,
            self.spec_batch_size() > 0,
        ensures
            r matches Some(b) ==> r == spec_batch_at(
                b.start as int,
                self.spec_batch_size(),
                self.spec_total(),
            ),
    {
        let start = self.next_batch_start.fetch_add(self.batch_size, Ordering::Relaxed);
        batch_at(start, self.batch_size, self.total)
    }
}

/// Batches cover the task space exactly once: every key of `[0, total)` lies in
/// the batch numbered `pk / batch_size`, which exists, and in no other batch.
pub proof fn lemma_batches_partition(total: int, batch_size: int, pk: int)
    requires
        total > 0,
        batch_size > 0,
        0 <= pk < total,
        total <= i64::MAX,
    ensures
        spec_nth_batch(pk / batch_size, batch_size, total) is Some,
        batch_holds(spec_nth_batch(pk / batch_size, batch_size, total), pk),
        forall|k: int|
            #![trigger spec_nth_batch(k, batch_size, total)]
            batch_holds(spec_nth_batch(k, batch_size, total), pk) ==> k == pk / batch_size,
{
    let q = pk / batch_size;
    assert(q * batch_size <= pk < q * batch_size + batch_size) by (nonlinear_arith)
        requires
            batch_size > 0,
            q == pk / batch_size,
            pk >= 0,
    ;
    assert forall|k: int|
        #![trigger spec_nth_batch(k, batch_size, total)]
        batch_holds(spec_nth_batch(k, batch_size, total), pk) implies k == q by {
        let s = k * batch_size;
        assert(0 <= s < total);
        assert(s <= pk < s + batch_size);
        assert(k == q) by (nonlinear_arith)
            requires
                batch_size > 0,
                k * batch_size <= pk < k * batch_size + batch_size,
                q * batch_size <= pk < q * batch_size + batch_size,
        ;
    }
}

/// Batches are handed out in order and end at the task space's end: batch
/// `k` exists exactly when `k * batch_size < total`, and each batch ends where
/// the next begins, or at `total`.
pub proof fn lemma_batches_contiguous(total: int, batch_size: int, k: int)
    requires
        total > 0,
        batch_size > 0,
        k >= 0,
        total <= i64::MAX,
    ensures
        (spec_nth_batch(k, batch_size, total) is Some) == (k * batch_size < total),
        spec_nth_batch(k, batch_size, total) matches Some(b) ==> (b.end == total || (b.end
            == (k + 1) * batch_size && (spec_nth_batch(k + 1, batch_size, total) matches Some(
            n) && n.start == b.end))),
        spec_nth_batch(k, batch_size, total) matches Some(b) ==> b.start < b.end,
{
    assert(k * batch_size >= 0) by (nonlinear_arith)
        requires
            k >= 0,
            batch_size > 0,
    ;
    assert((k + 1) * batch_size == k * batch_size + batch_size) by (nonlinear_arith);
}

} // verus!
