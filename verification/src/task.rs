use vstd::prelude::*;

verus! {

/// One row of the tasks table: a storage-assigned identifier, a name and an
/// optional priority. The name is required when a task is created, but an
/// update writes both columns unconditionally, so a stored name can be null;
/// the field is therefore optional here.
pub struct Task {
    pub task_id: i32,
    pub name: Option<String>,
    pub priority: Option<i32>,
}

/// The mathematical value of one row.
#[verifier::ext_equal]
pub ghost struct TaskView {
    pub task_id: int,
    pub name: Option<Seq<char>>,
    pub priority: Option<int>,
}

/// The mathematical value of an optional name.
pub open spec fn opt_str_view(s: Option<String>) -> Option<Seq<char>> {
    match s {
        Some(s) => Some(s@),
        None => None,
    }
}

/// The mathematical value of an optional priority.
pub open spec fn opt_int_view(p: Option<i32>) -> Option<int> {
    match p {
        Some(p) => Some(p as int),
        None => None,
    }
}

impl View for Task {
    type V = TaskView;

    open spec fn view(&self) -> TaskView {
        TaskView {
            task_id: self.task_id as int,
            name: opt_str_view(self.name),
            priority: opt_int_view(self.priority),
        }
    }
}

impl Task {
    /// A deep copy of the row.
    pub fn clone_task(&self) -> (r: Task)
        ensures
            r@ == self@,
    {
        Task {
            task_id: self.task_id,
            name: match &self.name {
                Some(s) => Some(s.clone()),
                None => None,
            },
            priority: self.priority,
        }
    }
}

/// The rows of a vector of tasks, as mathematical values.
pub open spec fn views_of(ts: Seq<Task>) -> Seq<TaskView> {
    ts.map(|i: int, t: Task| t@)
}

} // verus!
