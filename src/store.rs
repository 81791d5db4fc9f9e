use vstd::prelude::*;
use crate::laws::{created_row_round_trip, update_keeps_absent_fields};
use crate::task::{CreateTask, CreateTaskView, Task, TaskView, UpdateTask, UpdateTaskView, inserted, patched, copy_text};

verus! {

/// The largest id that the store's sequence hands out.
pub const MAX_ID: i64 = 0x7fff_ffff;

/// Why a store operation did not complete.
#[derive(Debug, PartialEq, Eq, Structural)]
pub enum TaskError {
    /// A malformed path parameter or request body.
    Validation,
    /// No row holds the requested id.
    NotFound,
    /// The store rejected or failed the statement.
    Store,
}

/// The task table: its rows in the order of insertion, and the id that the
/// next insert receives.
pub struct TaskTable {
    rows: Vec<Task>,
    next_id: i64,
}

pub struct TableView {
    pub rows: Seq<TaskView>,
    pub next_id: int,
}

pub open spec fn row_views(rows: Seq<Task>) -> Seq<TaskView> {
    rows.map_values(|t: Task| t@)
}

impl View for TaskTable {
    type V = TableView;

    closed spec fn view(&self) -> TableView {
        TableView { rows: row_views(self.rows@), next_id: self.next_id as int }
    }
}

impl TableView {
    /// Ids are positive, below the next id, and increase along the rows, so
    /// that no two rows share one.
    pub open spec fn wf(self) -> bool {
        &&& 1 <= self.next_id <= MAX_ID + 1
        &&& forall|i: int| 0 <= i < self.rows.len() ==> 1 <= #[trigger] self.rows[i].id < self.next_id
        &&& forall|i: int, j: int|
            0 <= i < j < self.rows.len() ==> #[trigger] self.rows[i].id < #[trigger] self.rows[j].id
    }

    pub open spec fn has_id(self, id: int) -> bool {
        exists|i: int| 0 <= i < self.rows.len() && #[trigger] self.rows[i].id == id
    }

    /// The position of the row that holds `id`.
    pub open spec fn index_of(self, id: int) -> int
        recommends
            self.has_id(id),
    {
        choose|i: int| 0 <= i < self.rows.len() && #[trigger] self.rows[i].id == id
    }

    /// The row that holds `id`.
    pub open spec fn row(self, id: int) -> TaskView
        recommends
            self.has_id(id),
    {
        self.rows[self.index_of(id)]
    }

    /// Whether the sequence of ids still has one to hand out.
    pub open spec fn can_insert(self) -> bool {
        self.next_id <= MAX_ID
    }

    /// The row that an insert of `n` adds.
    pub open spec fn new_row(self, n: CreateTaskView) -> TaskView {
        inserted(self.next_id, n)
    }

    /// The table after an insert of `n`.
    pub open spec fn after_create(self, n: CreateTaskView) -> TableView {
        TableView { rows: self.rows.push(self.new_row(n)), next_id: self.next_id + 1 }
    }

    /// The table after the row that holds `id` is patched with `p`.
    pub open spec fn after_update(self, id: int, p: UpdateTaskView) -> TableView {
        if self.has_id(id) {
            TableView {
                rows: self.rows.update(self.index_of(id), patched(self.row(id), p)),
                next_id: self.next_id,
            }
        } else {
            self
        }
    }

    /// The table after the row that holds `id`, if any, is removed.
    pub open spec fn after_delete(self, id: int) -> TableView {
        if self.has_id(id) {
            TableView { rows: self.rows.remove(self.index_of(id)), next_id: self.next_id }
        } else {
            self
        }
    }
}

impl TaskTable {
    pub open spec fn wf(&self) -> bool {
        self@.wf()
    }

    /// An empty table whose first insert receives the id 1.
    pub fn new() -> (r: TaskTable)
        ensures
            r.wf(),
            r@.rows.len() == 0,
            r@.next_id == 1,
    {
        TaskTable { rows: Vec::new(), next_id: 1 }
    }

    /// The position of the row holding `id`, if there is one.
    fn find(&self, id: i32) -> (r: Option<usize>)
        requires
            self.wf(),
        ensures
            match r {
                Some(i) => self@.has_id(id as int) && i as int == self@.index_of(id as int)
                    && i < self.rows.len(),
                None => !self@.has_id(id as int),
            },
    {
        let mut i: usize = 0;
        while i < self.rows.len()
            invariant
                i <= self.rows.len(),
                self.wf(),
                forall|k: int| 0 <= k < i ==> (#[trigger] self@.rows[k]).id != id as int,
            decreases self.rows.len() - i,
        {
            if self.rows[i].id == id {
                proof {
                    let v = self@;
                    assert(v.rows[i as int] == self.rows@[i as int]@);
                    assert(v.rows[i as int].id == id as int);
                    assert(v.has_id(id as int));
                    let j = v.index_of(id as int);
                    if j < i as int {
                        assert(v.rows[j].id < v.rows[i as int].id);
                    } else if j > i as int {
                        assert(v.rows[i as int].id < v.rows[j].id);
                    }
                }
                return Some(i);
            }
            i = i + 1;
        }
        None
    }

    /// Every row of the table.
    pub fn list_all(&self) -> (r: Vec<Task>)
        ensures
            row_views(r@) == self@.rows,
    {
        let mut out: Vec<Task> = Vec::new();
        let mut i: usize = 0;
        while i < self.rows.len()
            invariant
                i <= self.rows.len(),
                row_views(out@) == self@.rows.take(i as int),
            decreases self.rows.len() - i,
        {
            let t = self.rows[i].duplicate();
            let ghost prev = out@;
            out.push(t);
            assert(out@ == prev.push(t));
            assert(row_views(prev.push(t)) =~= row_views(prev).push(t@));
            assert(self@.rows[i as int] == self.rows@[i as int]@);
            assert(self@.rows.take(i + 1) =~= self@.rows.take(i as int).push(self@.rows[i as int]));
            assert(row_views(out@) =~= self@.rows.take(i + 1));
            i = i + 1;
        }
        assert(self@.rows.take(i as int) =~= self@.rows);
        out
    }

    /// Inserts a row with the next id; fails once the sequence of ids is spent.
    pub fn create(&mut self, new_task: &CreateTask) -> (r: Result<Task, TaskError>)
        requires
            old(self).wf(),
        ensures
            final(self).wf(),
            match r {
                Ok(t) => old(self)@.can_insert() && t@ == old(self)@.new_row(new_task@)
                    && final(self)@ == old(self)@.after_create(new_task@)
                    && final(self)@.has_id(t@.id) && final(self)@.row(t@.id) == t@,
                Err(e) => !old(self)@.can_insert() && e == TaskError::Store
                    && final(self)@ == old(self)@,
            },
    {
        if self.next_id > MAX_ID {
            return Err(TaskError::Store);
        }
        let task = Task {
            id: self.next_id as i32,
            title: new_task.title.clone(),
            description: copy_text(&new_task.description),
            completed: None,
        };
        let ghost before = self@;
        self.rows.push(task.duplicate());
        self.next_id = self.next_id + 1;
        assert(self@.rows =~= before.after_create(new_task@).rows);
        proof {
            created_row_round_trip(before, new_task@);
        }
        Ok(task)
    }

    /// Patches the row holding `id` and returns it as it now stands.
    pub fn update(&mut self, id: i32, patch: &UpdateTask) -> (r: Result<Task, TaskError>)
        requires
            old(self).wf(),
        ensures
            final(self).wf(),
            final(self)@ == old(self)@.after_update(id as int, patch@),
            match r {
                Ok(t) => old(self)@.has_id(id as int)
                    && t@ == patched(old(self)@.row(id as int), patch@)
                    && final(self)@.has_id(id as int) && final(self)@.row(id as int) == t@,
                Err(e) => !old(self)@.has_id(id as int) && e == TaskError::NotFound,
            },
    {
        match self.find(id) {
            None => Err(TaskError::NotFound),
            Some(i) => {
                let ghost before = self@;
                let task = self.rows[i].with_update(patch);
                self.rows.set(i, task.duplicate());
                assert(self@.rows =~= before.after_update(id as int, patch@).rows);
                proof {
                    update_keeps_absent_fields(before, id as int, patch@);
                }
                Ok(task)
            },
        }
    }

    /// Removes the row holding `id`; reports whether a row was removed.
    pub fn delete(&mut self, id: i32) -> (deleted: bool)
        requires
            old(self).wf(),
        ensures
            final(self).wf(),
            deleted == old(self)@.has_id(id as int),
            final(self)@ == old(self)@.after_delete(id as int),
    {
        match self.find(id) {
            None => false,
            Some(i) => {
                let ghost before = self@;
                self.rows.remove(i);
                assert(self@.rows =~= before.after_delete(id as int).rows);
                true
            },
        }
    }
}

} // verus!
