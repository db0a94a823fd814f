use vstd::prelude::*;
use crate::task::{Task, views_of};
use crate::response::{
    Response, list_body, create_body, ok_body, error_body,
    render_list_body, render_create_body, render_ok_body, render_error_body,
    STATUS_OK, STATUS_CREATED, STATUS_INTERNAL_ERROR,
};

verus! {

/// The list operation's response: the full ordered table on success, the
/// failure envelope with the storage layer's error text otherwise.
pub fn get_tasks(outcome: Result<Vec<Task>, String>) -> (r: Response)
    ensures
        match outcome {
            Ok(tasks) => r.status == STATUS_OK && r.body@ == list_body(views_of(tasks@)),
            Err(m) => r.status == STATUS_INTERNAL_ERROR && r.body@ == error_body(m@),
        },
{
    match outcome {
        Ok(tasks) => Response { status: STATUS_OK, body: render_list_body(&tasks) },
        Err(m) => Response { status: STATUS_INTERNAL_ERROR, body: render_error_body(m.as_str()) },
    }
}

/// The create operation's response: only the assigned identifier is echoed
/// back on success.
pub fn create_task(outcome: Result<i32, String>) -> (r: Response)
    ensures
        match outcome {
            Ok(id) => r.status == STATUS_CREATED && r.body@ == create_body(id as int),
            Err(m) => r.status == STATUS_INTERNAL_ERROR && r.body@ == error_body(m@),
        },
{
    match outcome {
        Ok(id) => Response { status: STATUS_CREATED, body: render_create_body(id) },
        Err(m) => Response { status: STATUS_INTERNAL_ERROR, body: render_error_body(m.as_str()) },
    }
}

/// The update operation's response: a bare success envelope whatever the
/// statement touched, since no existence check is made; the envelope and the
/// status say nothing about whether a row matched.
pub fn update_task(outcome: Result<(), String>) -> (r: Response)
    ensures
        match outcome {
            Ok(()) => r.status == STATUS_CREATED && r.body@ == ok_body(),
            Err(m) => r.status == STATUS_INTERNAL_ERROR && r.body@ == error_body(m@),
        },
{
    match outcome {
        Ok(()) => Response { status: STATUS_CREATED, body: render_ok_body() },
        Err(m) => Response { status: STATUS_INTERNAL_ERROR, body: render_error_body(m.as_str()) },
    }
}

/// The delete operation's response: the same bare success envelope whether
/// or not a row was there to remove.
pub fn delete_task(outcome: Result<(), String>) -> (r: Response)
    ensures
        match outcome {
            Ok(()) => r.status == STATUS_CREATED && r.body@ == ok_body(),
            Err(m) => r.status == STATUS_INTERNAL_ERROR && r.body@ == error_body(m@),
        },
{
    match outcome {
        Ok(()) => Response { status: STATUS_CREATED, body: render_ok_body() },
        Err(m) => Response { status: STATUS_INTERNAL_ERROR, body: render_error_body(m.as_str()) },
    }
}

} // verus!
