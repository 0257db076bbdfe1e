use todo_server::error::ApiError;
use todo_server::hub::WsHub;
use todo_server::model::CategoryCreate;
use todo_server::model::ReorderItem;
use todo_server::model::TodoCreate;
use todo_server::model::TodoUpdate;
use todo_server::service::create_category_with;
use todo_server::service::create_todo;
use todo_server::service::create_todo_with;
use todo_server::service::delete_category_with;
use todo_server::service::delete_todo_with;
use todo_server::service::reorder_with;
use todo_server::service::update_status_with;
use todo_server::service::update_todo_with;
use todo_server::store::Store;

fn create_body(title: &str) -> TodoCreate {
    TodoCreate {
        title: title.to_string(),
        note: None,
        priority: None,
        due_at: None,
        tags: None,
        category_id: None,
    }
}

fn empty_update() -> TodoUpdate {
    TodoUpdate {
        title: None,
        note: None,
        status: None,
        priority: None,
        due_at: None,
        tags: None,
        category_id: None,
        sort_order: None,
        deleted: None,
    }
}

fn category_body(name: &str) -> CategoryCreate {
    CategoryCreate { name: name.to_string(), color: None, description: None, sort_order: None }
}

#[test]
fn created_todo_has_fresh_id_and_equal_timestamps() {
    let mut store = Store::new();
    let mut hub = WsHub::new();
    let a = create_todo(&mut store, &mut hub, create_body("first")).unwrap();
    let b = create_todo(&mut store, &mut hub, create_body("second")).unwrap();
    assert_eq!(a.id.len(), 36);
    assert_ne!(a.id, b.id);
    assert_eq!(a.created_at, a.updated_at);
    assert_eq!(b.created_at, b.updated_at);
}

#[test]
fn create_with_colliding_id_is_conflict_and_changes_nothing() {
    let mut store = Store::new();
    let mut hub = WsHub::new();
    create_todo_with(&mut store, &mut hub, create_body("first"), "same".to_string(), 10).unwrap();
    let r = create_todo_with(&mut store, &mut hub, create_body("second"), "same".to_string(), 20);
    assert!(matches!(r, Err(ApiError::Conflict(_))));
    assert_eq!(store.list_todos(&None, true).len(), 1);
}

#[test]
fn create_then_get_round_trips_identically() {
    let mut store = Store::new();
    let mut hub = WsHub::new();
    let mut body = create_body("round trip");
    body.note = Some("note".to_string());
    body.priority = Some(3);
    body.due_at = Some(777);
    body.tags = Some("x,y".to_string());
    let created = create_todo(&mut store, &mut hub, body).unwrap();
    let fetched = store.get_todo(&created.id).unwrap();
    assert_eq!(fetched, created);
}

#[test]
fn status_only_update_keeps_other_fields_and_refreshes_updated_at() {
    let mut store = Store::new();
    let mut hub = WsHub::new();
    let mut body = create_body("stable");
    body.note = Some("unchanged".to_string());
    body.priority = Some(2);
    let t = create_todo_with(&mut store, &mut hub, body, "s1".to_string(), 100).unwrap();
    let u = update_status_with(&mut store, &mut hub, &t.id, Some("done".to_string()), 200)
        .unwrap();
    assert_eq!(u.status, "done");
    assert_eq!(u.title, t.title);
    assert_eq!(u.note, t.note);
    assert_eq!(u.priority, t.priority);
    assert_eq!(u.due_at, t.due_at);
    assert_eq!(u.tags, t.tags);
    assert_eq!(u.sort_order, t.sort_order);
    assert_eq!(u.created_at, 100);
    assert_eq!(u.updated_at, 200);
}

#[test]
fn missing_status_parameter_is_bad_request() {
    let mut store = Store::new();
    let mut hub = WsHub::new();
    let t = create_todo_with(&mut store, &mut hub, create_body("x"), "s1".to_string(), 100)
        .unwrap();
    let r = update_status_with(&mut store, &mut hub, &t.id, None, 200);
    assert_eq!(r, Err(ApiError::BadRequest("missing status".to_string())));
    assert_eq!(store.get_todo(&t.id).unwrap(), t);
}

#[test]
fn partial_update_touches_only_present_fields() {
    let mut store = Store::new();
    let mut hub = WsHub::new();
    let mut body = create_body("partial");
    body.note = Some("old note".to_string());
    let t = create_todo_with(&mut store, &mut hub, body, "u1".to_string(), 100).unwrap();
    let mut up = empty_update();
    up.title = Some("renamed".to_string());
    up.sort_order = Some(9);
    let u = update_todo_with(&mut store, &mut hub, &t.id, up, 150).unwrap();
    assert_eq!(u.title, "renamed");
    assert_eq!(u.sort_order, 9);
    assert_eq!(u.note, Some("old note".to_string()));
    assert_eq!(u.status, "todo");
    assert_eq!(u.updated_at, 150);
    assert_eq!(store.get_todo(&t.id).unwrap(), u);
}

#[test]
fn update_missing_todo_is_not_found() {
    let mut store = Store::new();
    let mut hub = WsHub::new();
    let r = update_todo_with(&mut store, &mut hub, &"ghost".to_string(), empty_update(), 1);
    assert_eq!(r, Err(ApiError::NotFound));
}

#[test]
fn soft_delete_keeps_row_addressable() {
    let mut store = Store::new();
    let mut hub = WsHub::new();
    let t = create_todo_with(&mut store, &mut hub, create_body("gone"), "d1".to_string(), 100)
        .unwrap();
    delete_todo_with(&mut store, &mut hub, &t.id, 300).unwrap();
    assert!(store.list_todos(&None, false).is_empty());
    let row = store.get_todo(&t.id).unwrap();
    assert!(row.deleted);
    assert_eq!(row.updated_at, 300);
    assert_eq!(row.title, "gone");
}

#[test]
fn delete_missing_todo_is_not_found() {
    let mut store = Store::new();
    let mut hub = WsHub::new();
    let r = delete_todo_with(&mut store, &mut hub, &"ghost".to_string(), 1);
    assert_eq!(r, Err(ApiError::NotFound));
}

#[test]
fn reorder_applies_every_pair_and_refreshes_updated_at() {
    let mut store = Store::new();
    let mut hub = WsHub::new();
    let a = create_todo_with(&mut store, &mut hub, create_body("a"), "a".to_string(), 10)
        .unwrap();
    let b = create_todo_with(&mut store, &mut hub, create_body("b"), "b".to_string(), 11)
        .unwrap();
    let items = vec![
        ReorderItem { id: a.id.clone(), sort_order: 2 },
        ReorderItem { id: b.id.clone(), sort_order: 1 },
    ];
    reorder_with(&mut store, &mut hub, &items, 99).unwrap();
    let got_a = store.get_todo(&a.id).unwrap();
    let got_b = store.get_todo(&b.id).unwrap();
    assert_eq!(got_a.sort_order, 2);
    assert_eq!(got_b.sort_order, 1);
    assert_eq!(got_a.updated_at, 99);
    assert_eq!(got_b.updated_at, 99);
    let listed = store.list_todos(&None, false);
    assert_eq!(listed[0].id, b.id);
    assert_eq!(listed[1].id, a.id);
}

#[test]
fn reorder_skips_unknown_ids_and_applies_the_rest() {
    let mut store = Store::new();
    let mut hub = WsHub::new();
    for (id, n) in [("a", 10), ("b", 11), ("c", 12), ("d", 13), ("e", 14)] {
        create_todo_with(&mut store, &mut hub, create_body(id), id.to_string(), n).unwrap();
    }
    let events_before = hub.events.len();
    let items = vec![
        ReorderItem { id: "a".to_string(), sort_order: 5 },
        ReorderItem { id: "b".to_string(), sort_order: 4 },
        ReorderItem { id: "ghost".to_string(), sort_order: 3 },
        ReorderItem { id: "d".to_string(), sort_order: 2 },
        ReorderItem { id: "e".to_string(), sort_order: 1 },
    ];
    let r = reorder_with(&mut store, &mut hub, &items, 99);
    assert_eq!(r, Ok(()));
    assert_eq!(store.get_todo(&"a".to_string()).unwrap().sort_order, 5);
    assert_eq!(store.get_todo(&"b".to_string()).unwrap().sort_order, 4);
    assert_eq!(store.get_todo(&"d".to_string()).unwrap().sort_order, 2);
    assert_eq!(store.get_todo(&"e".to_string()).unwrap().sort_order, 1);
    // The entry naming no row is skipped; the untouched row keeps its
    // sort_order and its timestamp.
    let c = store.get_todo(&"c".to_string()).unwrap();
    assert_eq!(c.sort_order, 0);
    assert_eq!(c.updated_at, 12);
    assert_eq!(hub.events.len(), events_before + 1);
}

#[test]
fn reorder_later_entry_for_same_todo_wins() {
    let mut store = Store::new();
    let mut hub = WsHub::new();
    create_todo_with(&mut store, &mut hub, create_body("a"), "a".to_string(), 10).unwrap();
    let items = vec![
        ReorderItem { id: "a".to_string(), sort_order: 7 },
        ReorderItem { id: "a".to_string(), sort_order: 3 },
    ];
    reorder_with(&mut store, &mut hub, &items, 50).unwrap();
    assert_eq!(store.get_todo(&"a".to_string()).unwrap().sort_order, 3);
}

#[test]
fn category_with_live_reference_cannot_be_deleted() {
    let mut store = Store::new();
    let mut hub = WsHub::new();
    let cat = create_category_with(&mut store, &mut hub, category_body("Work"), "c1".to_string(), 5)
        .unwrap();
    let mut body = create_body("attached");
    body.category_id = Some(cat.id.clone());
    let t = create_todo_with(&mut store, &mut hub, body, "t1".to_string(), 6).unwrap();
    let r = delete_category_with(&mut store, &mut hub, &cat.id, 7);
    assert_eq!(
        r,
        Err(ApiError::BadRequest(
            "Cannot delete category that has todos assigned to it".to_string(),
        ))
    );
    assert!(!store.get_category(&cat.id).unwrap().deleted);

    delete_todo_with(&mut store, &mut hub, &t.id, 8).unwrap();
    delete_category_with(&mut store, &mut hub, &cat.id, 9).unwrap();
    let row = store.get_category(&cat.id).unwrap();
    assert!(row.deleted);
    assert_eq!(row.updated_at, 9);
}

#[test]
fn delete_missing_category_is_not_found() {
    let mut store = Store::new();
    let mut hub = WsHub::new();
    let r = delete_category_with(&mut store, &mut hub, &"ghost".to_string(), 1);
    assert_eq!(r, Err(ApiError::NotFound));
}
