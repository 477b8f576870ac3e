use vstd::prelude::*;
use crate::config::{Workload, MAX_TASKS};
use crate::cursor::Batch;

verus! {

/// The row values that belong to key `pk`: `(2 * pk, 3 * pk)`.
pub open spec fn spec_row(pk: int) -> (int, int) {
    (2 * pk, 3 * pk)
}

/// What a worker asks to be done next.
#[derive(Clone, Copy, PartialEq, Eq, Structural, Debug)]
pub enum Action {
    /// Take the next batch from the shared cursor.
    FetchBatch,
    /// Insert the row `(pk, v1, v2)`.
    Insert { pk: i64, v1: i64, v2: i64 },
    /// Read back the row of `pk`.
    Select { pk: i64 },
    /// Stop: the task space is used up, or a fault was found.
    Finish,
}

/// A row read back that differs from the one that belongs to its key.
#[derive(Clone, Copy, PartialEq, Eq, Structural, Debug)]
pub struct CorrectnessFault {
    pub pk: i64,
    pub expected_v1: i64,
    pub expected_v2: i64,
    pub observed_v1: i64,
    pub observed_v2: i64,
}

/// The values to insert for key `pk`.
pub fn row_for(pk: i64) -> (r: (i64, i64))
    requires
        0 <= pk < MAX_TASKS,
    ensures
        r.0 == spec_row(pk as int).0,
        r.1 == spec_row(pk as int).1,
{
    (2 * pk, 3 * pk)
}

/// Checks a row read back for key `pk`: it must be `(2 * pk, 3 * pk)`.
pub fn check_row(pk: i64, v1: i64, v2: i64) -> (r: Result<(), CorrectnessFault>)
    requires
        0 <= pk < MAX_TASKS,
    ensures
        (r is Ok) <==> (v1 == spec_row(pk as int).0 && v2 == spec_row(pk as int).1),
        r matches Err(f) ==> f.pk == pk && f.expected_v1 == 2 * pk && f.expected_v2 == 3 * pk
            && f.observed_v1 == v1 && f.observed_v2 == v2,
{
    let expected = row_for(pk);
    if v1 == expected.0 && v2 == expected.1 {
        Ok(())
    } else {
        Err(
            CorrectnessFault {
                pk,
                expected_v1: expected.0,
                expected_v2: expected.1,
                observed_v1: v1,
                observed_v2: v2,
            },
        )
    }
}

/// The state of a worker, as its contracts speak of it.
pub struct WorkerView {
    pub workload: Workload,
    /// The next key of the current batch.
    pub next_pk: int,
    /// The end of the current batch.
    pub end: int,
    /// Whether the current key is to be read back next.
    pub selecting: bool,
    /// Whether the worker has stopped.
    pub finished: bool,
}

impl WorkerView {
    /// A fresh worker: no batch yet.
    pub open spec fn initial(workload: Workload) -> WorkerView {
        WorkerView {
            workload,
            next_pk: 0,
            end: 0,
            selecting: workload == Workload::Selects,
            finished: false,
        }
    }

    /// The state is consistent: the key lies in a batch of the task space,
    /// and it reads back only where the workload reads.
    pub open spec fn wf(self) -> bool {
        &&& 0 <= self.next_pk <= self.end <= MAX_TASKS
        &&& self.workload == Workload::Inserts ==> !self.selecting
        &&& self.workload == Workload::Selects ==> self.selecting
    }

    /// What the worker asks for in this state.
    pub open spec fn action(self) -> Action {
        if self.finished {
            Action::Finish
        } else if self.next_pk >= self.end {
            Action::FetchBatch
        } else if self.selecting {
            Action::Select { pk: self.next_pk as i64 }
        } else {
            spec_insert_action(self.next_pk)
        }
    }

    /// The state after the cursor gave `batch`: its first key, or the end.
    pub open spec fn with_batch(self, batch: Option<Batch>) -> WorkerView {
        match batch {
            None => WorkerView { finished: true, ..self },
            Some(b) => WorkerView {
                next_pk: b.start as int,
                end: b.end as int,
                selecting: self.workload == Workload::Selects,
                ..self
            },
        }
    }

    /// The state after the current key's row was inserted: under the mixed
    /// workload it is read back next; otherwise the next key follows.
    pub open spec fn after_insert(self) -> WorkerView {
        if self.workload == Workload::Mixed {
            WorkerView { selecting: true, ..self }
        } else {
            WorkerView { next_pk: self.next_pk + 1, ..self }
        }
    }

    /// The state after the current key's row was read back as `(v1, v2)`:
    /// the next key if the row is the key's own, else stopped.
    pub open spec fn after_select(self, v1: int, v2: int) -> WorkerView {
        if (v1, v2) == spec_row(self.next_pk) {
            WorkerView {
                next_pk: self.next_pk + 1,
                selecting: self.workload == Workload::Selects,
                ..self
            }
        } else {
            WorkerView { finished: true, ..self }
        }
    }

    /// The state after the current key's whole task, with every read
    /// returning the key's own row.
    pub open spec fn after_task(self) -> WorkerView {
        let row = spec_row(self.next_pk);
        match self.workload {
            Workload::Inserts => self.after_insert(),
            Workload::Selects => self.after_select(row.0, row.1),
            Workload::Mixed => self.after_insert().after_select(row.0, row.1),
        }
    }

    /// The state after `n` whole tasks.
    pub open spec fn after_tasks(self, n: nat) -> WorkerView
        decreases n,
    {
        if n == 0 {
            self
        } else {
            self.after_tasks((n - 1) as nat).after_task()
        }
    }
}

/// The work of one worker: it takes batches from the cursor and, for each key
/// of a batch in increasing order, inserts its row, reads it back, or both,
/// as the workload says.
pub struct Worker {
    workload: Workload,
    next_pk: i64,
    end: i64,
    selecting: bool,
    finished: bool,
}

impl View for Worker {
    type V = WorkerView;

    closed spec fn view(&self) -> WorkerView {
        WorkerView {
            workload: self.workload,
            next_pk: self.next_pk as int,
            end: self.end as int,
            selecting: self.selecting,
            finished: self.finished,
        }
    }
}

impl Worker {
    /// A worker with no batch yet: its first action is to fetch one.
    pub fn new(workload: Workload) -> (r: Worker)
        ensures
            r@ == WorkerView::initial(workload),
            r@.wf(),
            r@.action() == Action::FetchBatch,
    {
        Worker {
            workload,
            next_pk: 0,
            end: 0,
            selecting: workload == Workload::Selects,
            finished: false,
        }
    }

    /// The worker's workload.
    pub fn workload(&self) -> (r: Workload)
        ensures
            r == self@.workload,
    {
        self.workload
    }

    /// What the worker asks for next.
    pub fn next_action(&self) -> (r: Action)
        requires
            self@.wf(),
        ensures
            r == self@.action(),
    {
        if self.finished {
            Action::Finish
        } else if self.next_pk >= self.end {
            Action::FetchBatch
        } else if self.selecting {
            Action::Select { pk: self.next_pk }
        } else {
            let row = row_for(self.next_pk);
            Action::Insert { pk: self.next_pk, v1: row.0, v2: row.1 }
        }
    }

    /// Hands the worker what the cursor gave: a batch to work through, or
    /// `None`, after which the worker finishes.
    pub fn on_batch(&mut self, batch: Option<Batch>)
        requires
            old(self)@.wf(),
            old(self)@.action() == Action::FetchBatch,
            batch matches Some(b) ==> 0 <= b.start < b.end <= MAX_TASKS,
        ensures
            final(self)@ == old(self)@.with_batch(batch),
            final(self)@.wf(),
    {
        match batch {
            None => {
                self.finished = true;
            },
            Some(b) => {
                self.next_pk = b.start;
                self.end = b.end;
                self.selecting = self.workload == Workload::Selects;
            },
        }
    }

    /// Reports that the requested insert completed.
    pub fn on_inserted(&mut self)
        requires
            old(self)@.wf(),
            (old(self)@.action() is Insert),
        ensures
            final(self)@ == old(self)@.after_insert(),
            final(self)@.wf(),
    {
        if self.workload == Workload::Mixed {
            self.selecting = true;
        } else {
            self.next_pk = self.next_pk + 1;
        }
    }

    /// Reports the row that the requested read returned. A row other than
    /// the key's own is a fault: it is returned and the worker finishes.
    pub fn on_selected(&mut self, v1: i64, v2: i64) -> (r: Result<(), CorrectnessFault>)
        requires
            old(self)@.wf(),
            (old(self)@.action() is Select),
        ensures
            final(self)@ == old(self)@.after_select(v1 as int, v2 as int),
            final(self)@.wf(),
            (r is Ok) <==> ((v1 as int, v2 as int) == spec_row(old(self)@.next_pk)),
            r matches Err(f) ==> f.pk == old(self)@.next_pk && f.expected_v1 == 2
                * old(self)@.next_pk && f.expected_v2 == 3 * old(self)@.next_pk && f.observed_v1
                == v1 && f.observed_v2 == v2,
    {
        let checked = check_row(self.next_pk, v1, v2);
        match checked {
            Ok(()) => {
                self.next_pk = self.next_pk + 1;
                self.selecting = self.workload == Workload::Selects;
            },
            Err(_) => {
                self.finished = true;
            },
        }
        checked
    }
}

/// A batch is worked key by key, in increasing order, each key once: after
/// `i` whole tasks the worker is at key `start + i`, asking for that key's
/// first operation (its insert, or its read under the read-only workload),
/// and under the mixed workload the insert is followed by a read of the same
/// key; once every key is done it asks for the next batch.
pub proof fn lemma_batch_worked_in_order(w: WorkerView, b: Batch, i: nat)
    requires
        w.wf(),
        w.action() == Action::FetchBatch,
        0 <= b.start < b.end <= MAX_TASKS,
        i <= b.end - b.start,
    ensures
        ({
            let s = w.with_batch(Some(b)).after_tasks(i);
            &&& s.wf()
            &&& s.next_pk == b.start + i
            &&& s.end == b.end
            &&& i < b.end - b.start ==> s.action() == (if w.workload == Workload::Selects {
                Action::Select { pk: (b.start + i) as i64 }
            } else {
                spec_insert_action(b.start + i)
            })
            &&& (i < b.end - b.start && w.workload == Workload::Mixed) ==> s.after_insert().action()
                == (Action::Select { pk: (b.start + i) as i64 })
            &&& i == b.end - b.start ==> s.action() == Action::FetchBatch
        }),
    decreases i,
{
    if i > 0 {
        lemma_batch_worked_in_order(w, b, (i - 1) as nat);
    }
}

/// The store of rows after an action: an insert writes its row, other
/// actions leave the store as it is.
pub open spec fn spec_apply(store: Map<int, (int, int)>, a: Action) -> Map<int, (int, int)> {
    match a {
        Action::Insert { pk, v1, v2 } => store.insert(pk as int, (v1 as int, v2 as int)),
        _ => store,
    }
}

/// The store of rows after a sequence of actions, applied in order.
pub open spec fn spec_apply_all(store: Map<int, (int, int)>, actions: Seq<Action>) -> Map<
    int,
    (int, int),
>
    decreases actions.len(),
{
    if actions.len() == 0 {
        store
    } else {
        spec_apply(spec_apply_all(store, actions.drop_last()), actions.last())
    }
}

/// The insert that a worker asks for at key `pk`.
pub open spec fn spec_insert_action(pk: int) -> Action {
    Action::Insert { pk: pk as i64, v1: spec_row(pk).0 as i64, v2: spec_row(pk).1 as i64 }
}

/// An insert of key `pk` followed by any number of reads of `pk` leaves the
/// key's own row in the store, so each of those reads passes the check.
pub proof fn lemma_insert_then_select(store: Map<int, (int, int)>, pk: int, reads: nat)
    requires
        0 <= pk < MAX_TASKS,
    ensures
        ({
            let actions = seq![spec_insert_action(pk)] + Seq::new(
                reads,
                |i: int| Action::Select { pk: pk as i64 },
            );
            let after = spec_apply_all(store, actions);
            after.contains_key(pk) && after[pk] == spec_row(pk)
        }),
    decreases reads,
{
    let actions = seq![spec_insert_action(pk)] + Seq::new(
        reads,
        |i: int| Action::Select { pk: pk as i64 },
    );
    if reads == 0 {
        assert(actions.drop_last() =~= Seq::<Action>::empty());
    } else {
        let fewer = seq![spec_insert_action(pk)] + Seq::new(
            (reads - 1) as nat,
            |i: int| Action::Select { pk: pk as i64 },
        );
        assert(actions.drop_last() =~= fewer);
        lemma_insert_then_select(store, pk, (reads - 1) as nat);
    }
}

} // verus!
