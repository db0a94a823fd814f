use vstd::prelude::*;
use vstd::string::StringExecFns;
use crate::task::{Task, TaskView, views_of};
use crate::json::{escape_seq, dec_int, append_dec_i32, append_escaped, push_char};

verus! {

/// The status of every successful list.
pub const STATUS_OK: u16 = 200;

/// The status of every successful create, update and delete.
pub const STATUS_CREATED: u16 = 201;

/// The status of every storage failure.
pub const STATUS_INTERNAL_ERROR: u16 = 500;

/// An HTTP response: a status code and a JSON body.
pub struct Response {
    pub status: u16,
    pub body: String,
}

/// A JSON string literal: the text escaped, between quotes.
pub open spec fn json_string(s: Seq<char>) -> Seq<char> {
    seq!['"'] + escape_seq(s) + seq!['"']
}

/// An optional name in JSON: a string literal, or null.
pub open spec fn opt_string_json(s: Option<Seq<char>>) -> Seq<char> {
    match s {
        Some(s) => json_string(s),
        None => "null"@,
    }
}

/// An optional priority in JSON: a decimal numeral, or null.
pub open spec fn opt_int_json(v: Option<int>) -> Seq<char> {
    match v {
        Some(v) => dec_int(v),
        None => "null"@,
    }
}

/// One row as a JSON object, fields in table order.
pub open spec fn task_json(t: TaskView) -> Seq<char> {
    "{\"task_id\":"@ + dec_int(t.task_id)
        + ",\"name\":"@ + opt_string_json(t.name)
        + ",\"priority\":"@ + opt_int_json(t.priority)
        + "}"@
}

/// The rows as a JSON array body: the objects in order, separated by commas.
pub open spec fn tasks_json(ts: Seq<TaskView>) -> Seq<char>
    decreases ts.len(),
{
    if ts.len() == 0 {
        Seq::empty()
    } else if ts.len() == 1 {
        task_json(ts[0])
    } else {
        tasks_json(ts.drop_last()) + seq![','] + task_json(ts.last())
    }
}

/// The success envelope of the list operation: the full ordered table under
/// `data`.
pub open spec fn list_body(ts: Seq<TaskView>) -> Seq<char> {
    "{\"success\":true,\"data\":["@ + tasks_json(ts) + "]}"@
}

/// The success envelope of the create operation: only the assigned
/// identifier is echoed back.
pub open spec fn create_body(id: int) -> Seq<char> {
    "{\"success\":true,\"data\":{\"task_id\":"@ + dec_int(id) + "}}"@
}

/// The success envelope of the update and delete operations: no payload.
pub open spec fn ok_body() -> Seq<char> {
    "{\"success\":true}"@
}

/// The failure envelope: the storage layer's error text under `message`.
pub open spec fn error_body(msg: Seq<char>) -> Seq<char> {
    "{\"success\":false,\"message\":"@ + json_string(msg) + "}"@
}

/// A non-empty error text leaves a non-empty message in the envelope.
pub proof fn lemma_error_body_keeps_message(msg: Seq<char>)
    requires
        msg.len() > 0,
    ensures
        escape_seq(msg).len() > 0,
        error_body(msg) == "{\"success\":false,\"message\":\""@ + escape_seq(msg) + "\"}"@,
{
    crate::json::lemma_escape_keeps_nonempty(msg);
    assert(error_body(msg) =~= "{\"success\":false,\"message\":\""@ + escape_seq(msg) + "\"}"@) by {
        reveal_strlit("{\"success\":false,\"message\":");
        reveal_strlit("{\"success\":false,\"message\":\"");
        reveal_strlit("\"}");
        reveal_strlit("}");
    }
}

fn append_opt_string_json(out: &mut String, s: &Option<String>)
    ensures
        final(out)@ == old(out)@ + opt_string_json(crate::task::opt_str_view(*s)),
{
    match s {
        Some(s) => {
            push_char(out, '"');
            append_escaped(out, s.as_str());
            push_char(out, '"');
            assert(out@ =~= old(out)@ + json_string(s@));
        },
        None => {
            out.append("null");
        },
    }
}

fn append_opt_int_json(out: &mut String, v: &Option<i32>)
    ensures
        final(out)@ == old(out)@ + opt_int_json(crate::task::opt_int_view(*v)),
{
    match v {
        Some(v) => {
            append_dec_i32(out, *v);
        },
        None => {
            out.append("null");
        },
    }
}

fn append_task_json(out: &mut String, t: &Task)
    ensures
        final(out)@ == old(out)@ + task_json(t@),
{
    out.append("{\"task_id\":");
    append_dec_i32(out, t.task_id);
    out.append(",\"name\":");
    append_opt_string_json(out, &t.name);
    out.append(",\"priority\":");
    append_opt_int_json(out, &t.priority);
    out.append("}");
    assert(out@ =~= old(out)@ + task_json(t@));
}

/// Renders the success envelope of the list operation.
pub fn render_list_body(tasks: &Vec<Task>) -> (r: String)
    ensures
        r@ == list_body(views_of(tasks@)),
{
    let mut out = String::new();
    out.append("{\"success\":true,\"data\":[");
    let mut i: usize = 0;
    while i < tasks.len()
        invariant
            i <= tasks.len(),
            out@ == "{\"success\":true,\"data\":["@ + tasks_json(views_of(tasks@).take(i as int)),
        decreases tasks.len() - i,
    {
        if i > 0 {
            push_char(&mut out, ',');
        }
        append_task_json(&mut out, &tasks[i]);
        proof {
            let vs = views_of(tasks@);
            assert(vs.take(i as int + 1).drop_last() =~= vs.take(i as int));
            assert(vs.take(i as int + 1).last() == vs[i as int]);
            assert(out@ =~= "{\"success\":true,\"data\":["@ + tasks_json(vs.take(i as int + 1)));
        }
        i = i + 1;
    }
    proof {
        assert(views_of(tasks@).take(tasks@.len() as int) =~= views_of(tasks@));
    }
    out.append("]}");
    proof {
        assert(out@ =~= list_body(views_of(tasks@)));
    }
    out
}

/// Renders the success envelope of the create operation.
pub fn render_create_body(id: i32) -> (r: String)
    ensures
        r@ == create_body(id as int),
{
    let mut out = String::new();
    out.append("{\"success\":true,\"data\":{\"task_id\":");
    append_dec_i32(&mut out, id);
    out.append("}}");
    proof {
        assert(out@ =~= create_body(id as int));
    }
    out
}

/// Renders the success envelope of the update and delete operations.
pub fn render_ok_body() -> (r: String)
    ensures
        r@ == ok_body(),
{
    let mut out = String::new();
    out.append("{\"success\":true}");
    proof {
        assert(out@ =~= ok_body());
    }
    out
}

/// Renders the failure envelope around the storage layer's error text.
pub fn render_error_body(msg: &str) -> (r: String)
    ensures
        r@ == error_body(msg@),
{
    let mut out = String::new();
    out.append("{\"success\":false,\"message\":");
    push_char(&mut out, '"');
    append_escaped(&mut out, msg);
    push_char(&mut out, '"');
    out.append("}");
    proof {
        assert(out@ =~= error_body(msg@));
    }
    out
}

} // verus!
