use todo_server::error::ApiError;
use todo_server::model::Todo;
use todo_server::model::TodoCreate;
use todo_server::store::Store;

fn plain_todo(id: &str, title: &str) -> Todo {
    Todo {
        id: id.to_string(),
        title: title.to_string(),
        note: None,
        status: "todo".to_string(),
        priority: 1,
        due_at: None,
        tags: None,
        category_id: None,
        sort_order: 0,
        created_at: 1_000,
        updated_at: 1_000,
        deleted: false,
    }
}

fn create_body(title: &str) -> TodoCreate {
    TodoCreate {
        title: title.to_string(),
        note: None,
        priority: None,
        due_at: None,
        tags: None,
        category_id: None,
    }
}

#[test]
fn empty_store_lists_nothing() {
    let store = Store::new();
    assert!(store.list_todos(&None, false).is_empty());
    assert!(store.list_categories().is_empty());
}

#[test]
fn get_missing_todo_is_not_found() {
    let store = Store::new();
    let r = store.get_todo(&"nope".to_string());
    assert_eq!(r, Err(ApiError::NotFound));
}

#[test]
fn insert_then_get_returns_equal_row() {
    let mut store = Store::new();
    let t = plain_todo("a", "first");
    store.insert_todo(t.clone()).unwrap();
    assert_eq!(store.get_todo(&"a".to_string()).unwrap(), t);
}

#[test]
fn insert_duplicate_id_is_conflict() {
    let mut store = Store::new();
    store.insert_todo(plain_todo("a", "first")).unwrap();
    let r = store.insert_todo(plain_todo("a", "second"));
    assert!(matches!(r, Err(ApiError::Conflict(_))));
    assert_eq!(store.get_todo(&"a".to_string()).unwrap().title, "first");
}

#[test]
fn replace_missing_todo_is_not_found() {
    let mut store = Store::new();
    let r = store.replace_todo(plain_todo("ghost", "x"));
    assert_eq!(r, Err(ApiError::NotFound));
}

#[test]
fn higher_priority_lists_first_regardless_of_insertion_order() {
    let mut store = Store::new();
    let mut low = plain_todo("low", "low priority");
    low.priority = 1;
    let mut high = plain_todo("high", "high priority");
    high.priority = 2;
    store.insert_todo(low.clone()).unwrap();
    store.insert_todo(high.clone()).unwrap();
    let listed = store.list_todos(&None, false);
    assert_eq!(listed, vec![high.clone(), low.clone()]);

    let mut store2 = Store::new();
    store2.insert_todo(high.clone()).unwrap();
    store2.insert_todo(low.clone()).unwrap();
    assert_eq!(store2.list_todos(&None, false), vec![high, low]);
}

#[test]
fn absent_due_date_is_never_soonest() {
    let mut store = Store::new();
    let mut no_due = plain_todo("n", "no due date");
    no_due.due_at = None;
    let mut late = plain_todo("l", "due late");
    late.due_at = Some(9_999_999);
    let mut soon = plain_todo("s", "due soon");
    soon.due_at = Some(5);
    store.insert_todo(no_due.clone()).unwrap();
    store.insert_todo(late.clone()).unwrap();
    store.insert_todo(soon.clone()).unwrap();
    assert_eq!(store.list_todos(&None, false), vec![soon, late, no_due]);
}

#[test]
fn sort_order_then_created_at_break_ties() {
    let mut store = Store::new();
    let mut second = plain_todo("b", "second by sort_order");
    second.sort_order = 2;
    let mut first = plain_todo("a", "first by sort_order");
    first.sort_order = 1;
    let mut third = plain_todo("c", "same sort_order, created later");
    third.sort_order = 2;
    third.created_at = 2_000;
    third.updated_at = 2_000;
    store.insert_todo(third.clone()).unwrap();
    store.insert_todo(second.clone()).unwrap();
    store.insert_todo(first.clone()).unwrap();
    assert_eq!(store.list_todos(&None, false), vec![first, second, third]);
}

#[test]
fn deleted_rows_hidden_unless_requested() {
    let mut store = Store::new();
    let live = plain_todo("live", "kept");
    let mut gone = plain_todo("gone", "soft-deleted");
    gone.deleted = true;
    store.insert_todo(live.clone()).unwrap();
    store.insert_todo(gone.clone()).unwrap();
    assert_eq!(store.list_todos(&None, false), vec![live.clone()]);
    let all = store.list_todos(&None, true);
    assert_eq!(all.len(), 2);
    assert!(all.contains(&gone));
    let fetched = store.get_todo(&"gone".to_string()).unwrap();
    assert_eq!(fetched, gone);
}

#[test]
fn status_filter_matches_exactly() {
    let mut store = Store::new();
    let mut doing = plain_todo("d", "in progress");
    doing.status = "doing".to_string();
    let todo = plain_todo("t", "not started");
    store.insert_todo(doing.clone()).unwrap();
    store.insert_todo(todo.clone()).unwrap();
    assert_eq!(store.list_todos(&Some("doing".to_string()), false), vec![doing]);
    assert_eq!(store.list_todos(&Some("archived".to_string()), false), vec![]);
}

#[test]
fn count_active_references_skips_deleted_todos() {
    let mut store = Store::new();
    let mut a = plain_todo("a", "references cat");
    a.category_id = Some("cat".to_string());
    let mut b = plain_todo("b", "deleted reference");
    b.category_id = Some("cat".to_string());
    b.deleted = true;
    let mut c = plain_todo("c", "other category");
    c.category_id = Some("other".to_string());
    store.insert_todo(a).unwrap();
    store.insert_todo(b).unwrap();
    store.insert_todo(c).unwrap();
    assert_eq!(store.count_active_todos_for_category(&"cat".to_string()), 1);
    assert_eq!(store.count_active_todos_for_category(&"other".to_string()), 1);
    assert_eq!(store.count_active_todos_for_category(&"none".to_string()), 0);
}

#[test]
fn seeding_fills_five_default_categories_once() {
    let mut store = Store::new();
    store.seed_default_categories(500).unwrap();
    let listed = store.list_categories();
    let names: Vec<String> = listed.iter().map(|c| c.name.clone()).collect();
    assert_eq!(names, vec!["General", "Health", "Personal", "Shopping", "Work"]);
    for c in &listed {
        assert_eq!(c.sort_order, 0);
        assert_eq!(c.created_at, 500);
        assert_eq!(c.updated_at, 500);
        assert!(!c.deleted);
        assert!(c.color.is_some());
        assert!(c.description.is_some());
    }
    store.seed_default_categories(900).unwrap();
    assert_eq!(store.list_categories().len(), 5);
}

#[test]
fn health_reports_ok() {
    let h = todo_server::model::health();
    assert!(h.ok);
    assert_eq!(h.db, "ok");
}

#[test]
fn create_defaults_fill_unspecified_fields() {
    let body = create_body("with defaults");
    let t = Todo::new_from_create(body, "id-1".to_string(), 42);
    assert_eq!(t.status, "todo");
    assert_eq!(t.priority, 1);
    assert_eq!(t.sort_order, 0);
    assert_eq!(t.created_at, 42);
    assert_eq!(t.updated_at, 42);
    assert!(!t.deleted);
}

#[test]
fn errors_map_to_their_response_class() {
    assert_eq!(ApiError::NotFound.status_code(), 404);
    assert_eq!(ApiError::NotFound.message(), "not found");
    let bad = ApiError::BadRequest("missing status".to_string());
    assert_eq!(bad.status_code(), 400);
    assert_eq!(bad.message(), "bad request: missing status");
    let conflict = ApiError::Conflict("duplicate todo id".to_string());
    assert_eq!(conflict.status_code(), 500);
    assert_eq!(conflict.message(), "duplicate todo id");
    let storage = ApiError::Storage("disk full".to_string());
    assert_eq!(storage.status_code(), 500);
    assert_eq!(storage.message(), "disk full");
}
