use task_service::handlers::{create_task, delete_task, get_tasks, update_task};
use task_service::sql::{create_sql, delete_sql, list_sql, update_sql};
use task_service::store::TaskStore;

#[test]
fn create_then_list_shows_the_new_row() {
    let mut s = TaskStore::new();
    let id = s.create(String::from("Buy milk"), Some(2));
    assert!(id >= 1);
    let r = create_task(Ok(id));
    assert_eq!(r.status, 201);
    assert_eq!(r.body, format!("{{\"success\":true,\"data\":{{\"task_id\":{}}}}}", id));
    let l = get_tasks(Ok(s.list()));
    assert_eq!(l.status, 200);
    assert!(l.body.contains("{\"task_id\":1,\"name\":\"Buy milk\",\"priority\":2}"));
}

#[test]
fn create_without_priority_lists_null_priority() {
    let mut s = TaskStore::new();
    let id = s.create(String::from("X"), None);
    let l = get_tasks(Ok(s.list()));
    assert_eq!(l.status, 200);
    assert_eq!(
        l.body,
        format!("{{\"success\":true,\"data\":[{{\"task_id\":{},\"name\":\"X\",\"priority\":null}}]}}", id)
    );
}

#[test]
fn full_replace_round_trip() {
    let mut s = TaskStore::new();
    let id = s.create(String::from("Original"), Some(5));
    s.update(id, Some(String::from("Renamed")), None);
    let r = update_task(Ok(()));
    assert_eq!(r.status, 201);
    assert_eq!(r.body, "{\"success\":true}");
    let l = get_tasks(Ok(s.list()));
    assert_eq!(
        l.body,
        format!("{{\"success\":true,\"data\":[{{\"task_id\":{},\"name\":\"Renamed\",\"priority\":null}}]}}", id)
    );
}

#[test]
fn update_of_absent_id_answers_like_a_real_update() {
    let mut s = TaskStore::new();
    let id = s.create(String::from("keep"), Some(1));
    s.update(id, Some(String::from("kept")), Some(1));
    let real = update_task(Ok(()));
    s.update(id + 100, Some(String::from("ghost")), None);
    let ghost = update_task(Ok(()));
    assert_eq!(real.status, ghost.status);
    assert_eq!(real.body, ghost.body);
    assert_eq!(s.list().len(), 1);
}

#[test]
fn delete_of_absent_id_answers_like_a_real_delete() {
    let mut s = TaskStore::new();
    let id = s.create(String::from("gone"), None);
    s.delete(id);
    let real = delete_task(Ok(()));
    s.delete(id + 100);
    let ghost = delete_task(Ok(()));
    assert_eq!(real.status, ghost.status);
    assert_eq!(real.body, ghost.body);
    assert_eq!(real.body, "{\"success\":true}");
}

#[test]
fn delete_then_list_confirms_absence() {
    let mut s = TaskStore::new();
    let a = s.create(String::from("a"), None);
    let b = s.create(String::from("b"), None);
    s.delete(a);
    let l = get_tasks(Ok(s.list()));
    assert!(!l.body.contains(&format!("\"task_id\":{},", a)));
    assert!(l.body.contains(&format!("\"task_id\":{},", b)));
}

#[test]
fn double_delete_still_reports_success() {
    let mut s = TaskStore::new();
    let a = s.create(String::from("a"), None);
    s.delete(a);
    assert_eq!(s.list().len(), 0);
    let first = delete_task(Ok(()));
    s.delete(a);
    let second = delete_task(Ok(()));
    assert_eq!(first.status, 201);
    assert_eq!(second.status, 201);
    assert_eq!(first.body, second.body);
}

#[test]
fn every_operation_maps_storage_failure_to_500() {
    let msg = "connection refused";
    let l = get_tasks(Err(String::from(msg)));
    let c = create_task(Err(String::from(msg)));
    let u = update_task(Err(String::from(msg)));
    let d = delete_task(Err(String::from(msg)));
    for r in [&l, &c, &u, &d] {
        assert_eq!(r.status, 500);
        assert_eq!(r.body, "{\"success\":false,\"message\":\"connection refused\"}");
        assert!(r.body.contains("\"success\":false"));
        assert!(r.body.contains(msg));
    }
}

#[test]
fn failure_message_with_quotes_stays_valid_json() {
    let r = get_tasks(Err(String::from("relation \"tasks\" does not exist")));
    assert_eq!(r.status, 500);
    assert_eq!(
        r.body,
        "{\"success\":false,\"message\":\"relation \\\"tasks\\\" does not exist\"}"
    );
}

#[test]
fn statement_texts_are_fixed() {
    assert_eq!(list_sql(), "SELECT task_id, name, priority FROM tasks ORDER BY task_id");
    assert_eq!(create_sql(), "INSERT INTO tasks (name, priority) VALUES ($1, $2) RETURNING task_id");
    assert_eq!(update_sql(), "UPDATE tasks SET name = $2, priority = $3 WHERE task_id = $1");
    assert_eq!(delete_sql(), "DELETE FROM tasks WHERE task_id = $1");
}
