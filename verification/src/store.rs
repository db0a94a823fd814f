use vstd::prelude::*;
use vstd::pervasive::VecAdditionalExecFns;
use crate::task::{Task, TaskView, opt_str_view, opt_int_view};

verus! {

/// A row as the table stores it after a create or an update.
pub open spec fn made_row(id: int, name: Option<Seq<char>>, priority: Option<int>) -> TaskView {
    TaskView { task_id: id, name, priority }
}

/// What an update writes into one row: both columns are set unconditionally,
/// so a row whose identifier matches is replaced whole, and every other row
/// is left as it was.
pub open spec fn update_row(r: TaskView, id: int, name: Option<Seq<char>>, priority: Option<int>) -> TaskView {
    if r.task_id == id {
        made_row(id, name, priority)
    } else {
        r
    }
}

/// The table after an update of `id`: a full replace of the matching row,
/// if any, and no other change.
pub open spec fn spec_update(rows: Seq<TaskView>, id: int, name: Option<Seq<char>>, priority: Option<int>) -> Seq<TaskView> {
    rows.map(|i: int, r: TaskView| update_row(r, id, name, priority))
}

/// The table after a delete of `id`: every row but the matching ones, in
/// their old order.
pub open spec fn spec_delete(rows: Seq<TaskView>, id: int) -> Seq<TaskView>
    decreases rows.len(),
{
    if rows.len() == 0 {
        Seq::empty()
    } else if rows[0].task_id == id {
        spec_delete(rows.drop_first(), id)
    } else {
        seq![rows[0]] + spec_delete(rows.drop_first(), id)
    }
}

/// Whether some row of the table carries `id`.
pub open spec fn contains_id(rows: Seq<TaskView>, id: int) -> bool {
    exists|i: int| 0 <= i < rows.len() && rows[i].task_id == id
}

/// No row survives a delete of its own identifier.
pub proof fn lemma_delete_removes(rows: Seq<TaskView>, id: int)
    ensures
        forall|j: int| 0 <= j < spec_delete(rows, id).len() ==> #[trigger] spec_delete(rows, id)[j].task_id != id,
    decreases rows.len(),
{
    if rows.len() > 0 {
        lemma_delete_removes(rows.drop_first(), id);
    }
}

/// Deleting an identifier that no row carries leaves the table unchanged.
pub proof fn lemma_delete_absent_is_silent(rows: Seq<TaskView>, id: int)
    requires
        !contains_id(rows, id),
    ensures
        spec_delete(rows, id) == rows,
    decreases rows.len(),
{
    if rows.len() > 0 {
        assert(rows[0].task_id != id);
        assert(!contains_id(rows.drop_first(), id)) by {
            assert(forall|i: int| 0 <= i < rows.drop_first().len()
                ==> #[trigger] rows.drop_first()[i] == rows[i + 1]);
        }
        lemma_delete_absent_is_silent(rows.drop_first(), id);
        assert(seq![rows[0]] + rows.drop_first() =~= rows);
    }
}

/// Deleting the same identifier twice is the same as deleting it once.
pub proof fn lemma_delete_idempotent(rows: Seq<TaskView>, id: int)
    ensures
        spec_delete(spec_delete(rows, id), id) == spec_delete(rows, id),
{
    lemma_delete_removes(rows, id);
    lemma_delete_absent_is_silent(spec_delete(rows, id), id);
}

/// Where exactly one row carries `id`, the delete takes that row out and
/// nothing else.
pub proof fn lemma_delete_at(rows: Seq<TaskView>, id: int, i: int)
    requires
        0 <= i < rows.len(),
        rows[i].task_id == id,
        forall|k: int| 0 <= k < rows.len() && k != i ==> #[trigger] rows[k].task_id != id,
    ensures
        spec_delete(rows, id) == rows.remove(i),
    decreases rows.len(),
{
    assert(forall|k: int| 0 <= k < rows.drop_first().len()
        ==> #[trigger] rows.drop_first()[k] == rows[k + 1]);
    if i == 0 {
        assert(!contains_id(rows.drop_first(), id));
        lemma_delete_absent_is_silent(rows.drop_first(), id);
        assert(rows.drop_first() =~= rows.remove(0));
    } else {
        lemma_delete_at(rows.drop_first(), id, i - 1);
        assert(seq![rows[0]] + rows.drop_first().remove(i - 1) =~= rows.remove(i));
    }
}

/// Updating an identifier that no row carries changes nothing. The update
/// response's contract does not look at the table at all, so an update of an
/// absent identifier answers with the very same success envelope as a real
/// one, and silently.
pub proof fn lemma_update_absent_is_silent(rows: Seq<TaskView>, id: int, name: Option<Seq<char>>, priority: Option<int>)
    requires
        !contains_id(rows, id),
    ensures
        spec_update(rows, id, name, priority) == rows,
{
    assert(spec_update(rows, id, name, priority) =~= rows);
}

/// A delete never lengthens the table.
pub proof fn lemma_delete_len_le(rows: Seq<TaskView>, id: int)
    ensures
        spec_delete(rows, id).len() <= rows.len(),
    decreases rows.len(),
{
    if rows.len() > 0 {
        lemma_delete_len_le(rows.drop_first(), id);
    }
}

/// Deleting an identifier that some row carries strictly shortens the
/// table: the first of two equal deletes really removes the row, and only
/// the second finds nothing.
pub proof fn lemma_delete_shrinks(rows: Seq<TaskView>, id: int)
    requires
        contains_id(rows, id),
    ensures
        spec_delete(rows, id).len() < rows.len(),
    decreases rows.len(),
{
    assert(forall|k: int| 0 <= k < rows.drop_first().len()
        ==> #[trigger] rows.drop_first()[k] == rows[k + 1]);
    if rows[0].task_id == id {
        lemma_delete_len_le(rows.drop_first(), id);
    } else {
        let i = choose|i: int| 0 <= i < rows.len() && rows[i].task_id == id;
        assert(rows.drop_first()[i - 1].task_id == id);
        assert(contains_id(rows.drop_first(), id));
        lemma_delete_shrinks(rows.drop_first(), id);
    }
}

/// An in-memory table of tasks, as the storage contract describes it: rows
/// keyed by a unique, storage-assigned, immutable identifier, scanned in
/// ascending identifier order.
pub struct TaskStore {
    pub rows: Vec<Task>,
    pub next_id: i32,
}

impl View for TaskStore {
    type V = Seq<TaskView>;

    open spec fn view(&self) -> Seq<TaskView> {
        crate::task::views_of(self.rows@)
    }
}

impl TaskStore {
    /// The table's invariant: identifiers are at least one, below the next
    /// free identifier, and strictly ascending along the scan.
    pub open spec fn wf(&self) -> bool {
        &&& 1 <= self.next_id
        &&& forall|i: int| 0 <= i < self@.len() ==> 1 <= #[trigger] self@[i].task_id < self.next_id
        &&& forall|i: int, j: int| 0 <= i < j < self@.len() ==> self@[i].task_id < self@[j].task_id
    }

    /// Whether another identifier can still be assigned.
    pub open spec fn can_assign_id(&self) -> bool {
        self.next_id < i32::MAX
    }

    /// An empty table.
    pub fn new() -> (s: TaskStore)
        ensures
            s.wf(),
            s@ == Seq::<TaskView>::empty(),
            s.next_id == 1,
    {
        let s = TaskStore { rows: Vec::new(), next_id: 1 };
        proof {
            assert(s@ =~= Seq::<TaskView>::empty());
        }
        s
    }

    /// The full scan: every row; on a well-formed table the identifiers come
    /// back strictly ascending, whatever order the rows were created in.
    pub fn list(&self) -> (r: Vec<Task>)
        ensures
            r@.len() == self@.len(),
            forall|i: int| 0 <= i < r@.len() ==> #[trigger] r@[i]@ == self@[i],
            self.wf() ==> forall|i: int, j: int|
                0 <= i < j < r@.len() ==> (#[trigger] r@[i]@).task_id < (#[trigger] r@[j]@).task_id,
    {
        let mut r: Vec<Task> = Vec::new();
        let mut i: usize = 0;
        while i < self.rows.len()
            invariant
                i <= self.rows.len(),
                r@.len() == i,
                forall|k: int| 0 <= k < i ==> #[trigger] r@[k]@ == self@[k],
            decreases self.rows.len() - i,
        {
            r.push(self.rows[i].clone_task());
            i = i + 1;
        }
        r
    }

    /// The index of the row carrying `task_id`, if any.
    fn find_index(&self, task_id: i32) -> (r: Option<usize>)
        ensures
            match r {
                Some(i) => i < self@.len() && self@[i as int].task_id == task_id as int,
                None => !contains_id(self@, task_id as int),
            },
    {
        let mut i: usize = 0;
        while i < self.rows.len()
            invariant
                i <= self.rows.len(),
                forall|k: int| 0 <= k < i ==> #[trigger] self@[k].task_id != task_id as int,
            decreases self.rows.len() - i,
        {
            if self.rows[i].task_id == task_id {
                return Some(i);
            }
            i = i + 1;
        }
        None
    }

    /// Creates a row with the given name and priority; the table assigns the
    /// identifier, fresh and larger than every identifier ever assigned.
    pub fn create(&mut self, name: String, priority: Option<i32>) -> (id: i32)
        requires
            old(self).wf(),
            old(self).can_assign_id(),
        ensures
            final(self).wf(),
            id == old(self).next_id,
            1 <= id,
            !contains_id(old(self)@, id as int),
            final(self)@ == old(self)@.push(made_row(id as int, Some(name@), opt_int_view(priority))),
            final(self).next_id == old(self).next_id + 1,
    {
        let id = self.next_id;
        self.next_id = id + 1;
        self.rows.push(Task { task_id: id, name: Some(name), priority });
        proof {
            assert(self@ =~= old(self)@.push(made_row(id as int, Some(name@), opt_int_view(priority))));
        }
        id
    }

    /// Updates the row carrying `task_id`, replacing both columns with the
    /// given values; a column that was not supplied gets null. Where no
    /// row matches, nothing changes and no error is raised.
    pub fn update(&mut self, task_id: i32, name: Option<String>, priority: Option<i32>)
        requires
            old(self).wf(),
        ensures
            final(self).wf(),
            final(self)@ == spec_update(old(self)@, task_id as int, opt_str_view(name), opt_int_view(priority)),
            final(self).next_id == old(self).next_id,
    {
        let found = self.find_index(task_id);
        match found {
            Some(i) => {
                proof {
                    assert(forall|k: int| 0 <= k < old(self)@.len() && k != i as int
                        ==> #[trigger] old(self)@[k].task_id != task_id as int);
                }
                self.rows.set(i, Task { task_id, name, priority });
                proof {
                    assert(self@ =~= spec_update(old(self)@, task_id as int,
                        opt_str_view(name), opt_int_view(priority)));
                }
            },
            None => {
                proof {
                    assert(self@ =~= spec_update(old(self)@, task_id as int,
                        opt_str_view(name), opt_int_view(priority)));
                }
            },
        }
    }

    /// Deletes the row carrying `task_id`. Where no row matches, nothing
    /// changes and no error is raised.
    pub fn delete(&mut self, task_id: i32)
        requires
            old(self).wf(),
        ensures
            final(self).wf(),
            final(self)@ == spec_delete(old(self)@, task_id as int),
            final(self).next_id == old(self).next_id,
    {
        let found = self.find_index(task_id);
        match found {
            Some(i) => {
                proof {
                    assert(forall|k: int| 0 <= k < old(self)@.len() && k != i as int
                        ==> #[trigger] old(self)@[k].task_id != task_id as int);
                }
                self.rows.remove(i);
                proof {
                    assert(self@ =~= old(self)@.remove(i as int));
                    lemma_delete_at(old(self)@, task_id as int, i as int);
                    old(self)@.remove_ensures(i as int);
                }
            },
            None => {
                proof {
                    lemma_delete_absent_is_silent(old(self)@, task_id as int);
                }
            },
        }
    }
}

/// The full scan comes back in strictly ascending identifier order; every
/// operation keeps the table well formed, so this holds after any sequence
/// of creates, updates and deletes.
pub proof fn lemma_list_ascending(s: &TaskStore)
    requires
        s.wf(),
    ensures
        forall|i: int, j: int| 0 <= i < j < s@.len() ==> s@[i].task_id < s@[j].task_id,
{
}

} // verus!
