use task_service::store::TaskStore;

#[test]
fn create_assigns_fresh_positive_ids() {
    let mut s = TaskStore::new();
    let a = s.create(String::from("Buy milk"), Some(2));
    let b = s.create(String::from("X"), None);
    assert!(a >= 1);
    assert!(b > a);
    let rows = s.list();
    assert_eq!(rows.len(), 2);
    assert_eq!(rows[0].task_id, a);
    assert_eq!(rows[0].name.as_deref(), Some("Buy milk"));
    assert_eq!(rows[0].priority, Some(2));
    assert_eq!(rows[1].task_id, b);
    assert_eq!(rows[1].name.as_deref(), Some("X"));
    assert_eq!(rows[1].priority, None);
}

#[test]
fn listing_stays_strictly_ascending_for_any_insertion_order() {
    let mut s = TaskStore::new();
    let a = s.create(String::from("a"), None);
    let b = s.create(String::from("b"), Some(1));
    let c = s.create(String::from("c"), Some(2));
    s.delete(b);
    let d = s.create(String::from("d"), None);
    s.delete(a);
    let e = s.create(String::from("e"), Some(3));
    let rows = s.list();
    assert_eq!(rows.len(), 3);
    for w in rows.windows(2) {
        assert!(w[0].task_id < w[1].task_id);
    }
    assert_eq!(rows[0].task_id, c);
    assert_eq!(rows[1].task_id, d);
    assert_eq!(rows[2].task_id, e);
}

#[test]
fn update_is_a_full_replace_not_a_merge() {
    let mut s = TaskStore::new();
    let id = s.create(String::from("Original"), Some(5));
    s.update(id, Some(String::from("Renamed")), None);
    let rows = s.list();
    assert_eq!(rows.len(), 1);
    assert_eq!(rows[0].task_id, id);
    assert_eq!(rows[0].name.as_deref(), Some("Renamed"));
    assert_eq!(rows[0].priority, None);
}

#[test]
fn update_with_no_fields_clears_both_columns() {
    let mut s = TaskStore::new();
    let id = s.create(String::from("Named"), Some(9));
    s.update(id, None, None);
    let rows = s.list();
    assert_eq!(rows[0].name, None);
    assert_eq!(rows[0].priority, None);
}

#[test]
fn update_of_absent_id_changes_nothing() {
    let mut s = TaskStore::new();
    let id = s.create(String::from("keep"), Some(1));
    s.update(id + 1, Some(String::from("ghost")), Some(8));
    let rows = s.list();
    assert_eq!(rows.len(), 1);
    assert_eq!(rows[0].task_id, id);
    assert_eq!(rows[0].name.as_deref(), Some("keep"));
    assert_eq!(rows[0].priority, Some(1));
}

#[test]
fn delete_removes_exactly_the_named_row() {
    let mut s = TaskStore::new();
    let a = s.create(String::from("a"), None);
    let b = s.create(String::from("b"), None);
    s.delete(a);
    let rows = s.list();
    assert_eq!(rows.len(), 1);
    assert_eq!(rows[0].task_id, b);
    assert!(rows.iter().all(|t| t.task_id != a));
}

#[test]
fn delete_of_absent_id_changes_nothing() {
    let mut s = TaskStore::new();
    let a = s.create(String::from("a"), Some(3));
    s.delete(a + 10);
    let rows = s.list();
    assert_eq!(rows.len(), 1);
    assert_eq!(rows[0].task_id, a);
}

#[test]
fn deleting_twice_equals_deleting_once() {
    let mut s = TaskStore::new();
    let a = s.create(String::from("a"), None);
    let b = s.create(String::from("b"), None);
    s.delete(a);
    let after_first = s.list();
    s.delete(a);
    let after_second = s.list();
    assert_eq!(after_first.len(), 1);
    assert_eq!(after_second.len(), 1);
    assert_eq!(after_first[0].task_id, after_second[0].task_id);
    assert_eq!(after_second[0].task_id, b);
}

#[test]
fn ids_are_never_reused_after_a_delete() {
    let mut s = TaskStore::new();
    let a = s.create(String::from("a"), None);
    s.delete(a);
    let b = s.create(String::from("b"), None);
    assert!(b > a);
}
