use vstd::prelude::*;

verus! {

/// The statement behind the list operation: a full scan ordered by the
/// identifier, ascending.
pub fn list_sql() -> (r: &'static str)
    ensures
        r@ == "SELECT task_id, name, priority FROM tasks ORDER BY task_id"@,
{
    "SELECT task_id, name, priority FROM tasks ORDER BY task_id"
}

/// The statement behind the create operation: one insert that returns the
/// storage-assigned identifier. `$1` is the name, `$2` the priority.
pub fn create_sql() -> (r: &'static str)
    ensures
        r@ == "INSERT INTO tasks (name, priority) VALUES ($1, $2) RETURNING task_id"@,
{
    "INSERT INTO tasks (name, priority) VALUES ($1, $2) RETURNING task_id"
}

/// The statement behind the update operation: both columns are set
/// unconditionally, so an absent field is written as null. `$1` is the
/// identifier, `$2` the name, `$3` the priority.
pub fn update_sql() -> (r: &'static str)
    ensures
        r@ == "UPDATE tasks SET name = $2, priority = $3 WHERE task_id = $1"@,
{
    "UPDATE tasks SET name = $2, priority = $3 WHERE task_id = $1"
}

/// The statement behind the delete operation. `$1` is the identifier; zero
/// rows affected is not an error.
pub fn delete_sql() -> (r: &'static str)
    ensures
        r@ == "DELETE FROM tasks WHERE task_id = $1"@,
{
    "DELETE FROM tasks WHERE task_id = $1"
}

} // verus!
