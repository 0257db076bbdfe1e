use todo_server::error::ApiError;
use todo_server::hub::Event;
use todo_server::hub::HUB_CAPACITY;
use todo_server::hub::WsHub;
use todo_server::hub::event_type;
use todo_server::model::TodoCreate;
use todo_server::service::create_todo_with;
use todo_server::service::delete_todo_with;
use todo_server::service::update_status_with;
use todo_server::store::Store;

fn create_body(title: &str) -> TodoCreate {
    TodoCreate {
        title: title.to_string(),
        note: None,
        priority: None,
        due_at: None,
        tags: None,
        category_id: None,
    }
}

#[test]
fn each_mutation_publishes_exactly_one_matching_event() {
    let mut store = Store::new();
    let mut hub = WsHub::new();
    let mut sub = hub.subscribe();
    let t = create_todo_with(&mut store, &mut hub, create_body("watched"), "w1".to_string(), 10)
        .unwrap();
    assert_eq!(hub.events.len(), 1);
    match sub.recv(&hub) {
        Some(Event::TodoCreated(data)) => {
            assert_eq!(data, store.get_todo(&t.id).unwrap());
        },
        other => panic!("expected a creation event, got {:?}", other),
    }
    assert!(sub.recv(&hub).is_none());

    update_status_with(&mut store, &mut hub, &t.id, Some("done".to_string()), 20).unwrap();
    assert_eq!(hub.events.len(), 2);
    match sub.recv(&hub) {
        Some(Event::TodoUpdated(data)) => {
            assert_eq!(data, store.get_todo(&t.id).unwrap());
        },
        other => panic!("expected an update event, got {:?}", other),
    }

    delete_todo_with(&mut store, &mut hub, &t.id, 30).unwrap();
    assert_eq!(hub.events.len(), 3);
    match sub.recv(&hub) {
        Some(Event::TodoDeleted(id)) => assert_eq!(id, t.id),
        other => panic!("expected a deletion event, got {:?}", other),
    }
    assert!(sub.recv(&hub).is_none());
}

#[test]
fn failed_mutation_publishes_nothing() {
    let mut store = Store::new();
    let mut hub = WsHub::new();
    let r = update_status_with(&mut store, &mut hub, &"ghost".to_string(), None, 1);
    assert!(matches!(r, Err(ApiError::BadRequest(_))));
    let r = delete_todo_with(&mut store, &mut hub, &"ghost".to_string(), 1);
    assert_eq!(r, Err(ApiError::NotFound));
    assert!(hub.events.is_empty());
}

#[test]
fn late_subscriber_sees_only_later_events() {
    let mut hub = WsHub::new();
    for i in 0..7i64 {
        hub.publish(Event::TodoDeleted(format!("early-{}", i)));
    }
    let mut sub = hub.subscribe();
    assert!(sub.recv(&hub).is_none());
    hub.publish(Event::TodoDeleted("late".to_string()));
    assert_eq!(sub.recv(&hub), Some(Event::TodoDeleted("late".to_string())));
    assert!(sub.recv(&hub).is_none());
}

#[test]
fn events_arrive_in_publish_order() {
    let mut hub = WsHub::new();
    let mut sub = hub.subscribe();
    for i in 0..20i64 {
        hub.publish(Event::TodoDeleted(format!("n{}", i)));
    }
    let mut seen = Vec::new();
    while let Some(Event::TodoDeleted(id)) = sub.recv(&hub) {
        seen.push(id);
    }
    let expected: Vec<String> = (0..20i64).map(|i| format!("n{}", i)).collect();
    assert_eq!(seen, expected);
}

#[test]
fn slow_subscriber_skips_oldest_but_keeps_order() {
    let mut hub = WsHub::new();
    let mut sub = hub.subscribe();
    let total = HUB_CAPACITY + 40;
    for i in 0..total {
        hub.publish(Event::TodoDeleted(format!("m{}", i)));
    }
    let first = sub.recv(&hub);
    assert_eq!(first, Some(Event::TodoDeleted(format!("m{}", 40))));
    let mut count = 1;
    let mut last_index = 40usize;
    while let Some(Event::TodoDeleted(id)) = sub.recv(&hub) {
        let n: usize = id[1..].parse().unwrap();
        assert!(n > last_index);
        last_index = n;
        count += 1;
    }
    assert_eq!(count, HUB_CAPACITY);
    assert_eq!(last_index, total - 1);
}

#[test]
fn reorder_event_carries_the_applied_batch() {
    let mut store = Store::new();
    let mut hub = WsHub::new();
    create_todo_with(&mut store, &mut hub, create_body("a"), "a".to_string(), 1).unwrap();
    create_todo_with(&mut store, &mut hub, create_body("b"), "b".to_string(), 2).unwrap();
    let mut sub = hub.subscribe();
    let items = vec![
        todo_server::model::ReorderItem { id: "a".to_string(), sort_order: 2 },
        todo_server::model::ReorderItem { id: "b".to_string(), sort_order: 1 },
    ];
    todo_server::service::reorder_with(&mut store, &mut hub, &items, 9).unwrap();
    assert_eq!(sub.recv(&hub), Some(Event::TodosReordered(items)));
    assert!(sub.recv(&hub).is_none());
}

#[test]
fn category_mutations_publish_matching_events() {
    let mut store = Store::new();
    let mut hub = WsHub::new();
    let mut sub = hub.subscribe();
    let body = todo_server::model::CategoryCreate {
        name: "Work".to_string(),
        color: None,
        description: None,
        sort_order: None,
    };
    let c = todo_server::service::create_category_with(
        &mut store,
        &mut hub,
        body,
        "c1".to_string(),
        4,
    )
    .unwrap();
    match sub.recv(&hub) {
        Some(Event::CategoryCreated(data)) => {
            assert_eq!(data, store.get_category(&c.id).unwrap());
        },
        other => panic!("expected a category creation event, got {:?}", other),
    }
    todo_server::service::delete_category_with(&mut store, &mut hub, &c.id, 8).unwrap();
    assert_eq!(sub.recv(&hub), Some(Event::CategoryDeleted("c1".to_string())));
}

#[test]
fn event_type_labels_match_the_envelope_names() {
    let reordered: Vec<todo_server::model::ReorderItem> = Vec::new();
    assert_eq!(event_type(&Event::TodoDeleted("x".to_string())), "todo.deleted");
    assert_eq!(event_type(&Event::TodosReordered(reordered)), "todos.reordered");
    assert_eq!(event_type(&Event::CategoryDeleted("x".to_string())), "category.deleted");
}
