//! The mutation service: create, partial update, soft delete and bulk
//! reorder, each executed against the store as one atomic unit and, on
//! success, published to the hub as exactly one event whose data matches
//! the persisted post-mutation state.
//!
//! Each operation comes in two forms: one that takes the server-generated
//! identifier and clock reading as arguments, with a contract that pins
//! the result exactly, and one that draws them from the generator and the
//! wall clock itself.

use vstd::prelude::*;

use crate::clock::now_millis;
use crate::error::ApiError;
use crate::hub::Event;
use crate::hub::WsHub;
use crate::hub::published;
use crate::ids::fresh_id;
use crate::model::Category;
use crate::model::CategoryCreate;
use crate::model::CategoryUpdate;
use crate::model::ReorderItem;
use crate::model::Todo;
use crate::model::TodoCreate;
use crate::model::TodoUpdate;
use crate::model::category_created_from;
use crate::model::copy_category;
use crate::model::copy_reorder_items;
use crate::model::copy_todo;
use crate::model::todo_created_from;
use crate::store::Store;
use crate::store::active_ref_count;
use crate::store::category_idx;
use crate::store::category_with_id;
use crate::store::has_category_id;
use crate::store::has_todo_id;
use crate::store::lemma_todo_with_id;
use crate::store::todo_idx;
use crate::store::todo_with_id;
use crate::store::unique_todo_ids;

verus! {

/// Creates a todo from the request, under the given identifier and time.
/// On success the new row is appended and exactly one `TodoCreated` event
/// carrying it is published; a colliding identifier changes nothing and
/// publishes nothing.
pub fn create_todo_with(
    store: &mut Store,
    hub: &mut WsHub,
    c: TodoCreate,
    id: String,
    now: i64,
) -> (r: Result<Todo, ApiError>)
    requires
        old(store).wf(),
    ensures
        final(store).wf(),
        final(store).categories == old(store).categories,
        match r {
            Ok(t) => {
                &&& t.id == id
                &&& todo_created_from(t, c, now)
                &&& !has_todo_id(old(store).todos@, id@)
                &&& final(store).todos@ == old(store).todos@.push(t)
                &&& published(old(hub).events@, final(hub).events@, Event::TodoCreated(t))
            },
            Err(e) => {
                &&& e is Conflict
                &&& has_todo_id(old(store).todos@, id@)
                &&& *final(store) == *old(store)
                &&& final(hub).events@ == old(hub).events@
            },
        },
{
    let t = Todo::new_from_create(c, id, now);
    let snapshot = copy_todo(&t);
    match store.insert_todo(snapshot) {
        Ok(()) => {
            hub.publish(Event::TodoCreated(copy_todo(&t)));
            proof {
                assert(hub.events@.subrange(0, old(hub).events@.len() as int) =~= old(
                    hub,
                ).events@);
            }
            Ok(t)
        },
        Err(e) => Err(e),
    }
}

/// Creates a todo under a fresh identifier at the current time. On
/// success the identifier is new to the store and both timestamps are
/// equal. Failure takes a collision with a stored identifier of the
/// generated 36-character shape; a store holding no such identifier is
/// owed success.
pub fn create_todo(store: &mut Store, hub: &mut WsHub, c: TodoCreate) -> (r: Result<
    Todo,
    ApiError,
>)
    requires
        old(store).wf(),
    ensures
        final(store).wf(),
        final(store).categories == old(store).categories,
        (forall|i: int|
            0 <= i < old(store).todos@.len() ==> old(store).todos@[i].id@.len() != 36) ==> r is Ok,
        match r {
            Ok(t) => {
                &&& (exists|ts: i64| todo_created_from(t, c, ts))
                &&& t.created_at == t.updated_at
                &&& !has_todo_id(old(store).todos@, t.id@)
                &&& final(store).todos@ == old(store).todos@.push(t)
                &&& published(old(hub).events@, final(hub).events@, Event::TodoCreated(t))
            },
            Err(e) => {
                &&& e is Conflict
                &&& (exists|i: int|
                    0 <= i < old(store).todos@.len() && old(store).todos@[i].id@.len() == 36)
                &&& *final(store) == *old(store)
                &&& final(hub).events@ == old(hub).events@
            },
        },
{
    let id = fresh_id();
    let now = now_millis();
    let ghost idv = id@;
    let r = create_todo_with(store, hub, c, id, now);
    proof {
        if r is Err {
            let j = choose|j: int|
                0 <= j < old(store).todos@.len() && old(store).todos@[j].id@ == idv;
            assert(old(store).todos@[j].id@.len() == 36);
        }
    }
    r
}

/// Applies a partial update to the todo with this identifier at the given
/// time: present fields overwrite, absent fields stay, `updated_at` is
/// refreshed whatever changed. On success the replaced row is published as
/// exactly one `TodoUpdated` event; a missing identifier changes nothing
/// and publishes nothing.
pub fn update_todo_with(
    store: &mut Store,
    hub: &mut WsHub,
    id: &String,
    body: TodoUpdate,
    now: i64,
) -> (r: Result<Todo, ApiError>)
    requires
        old(store).wf(),
    ensures
        final(store).wf(),
        final(store).categories == old(store).categories,
        match r {
            Ok(t) => {
                &&& has_todo_id(old(store).todos@, id@)
                &&& t == todo_with_id(old(store).todos@, id@).spec_updated(body, now)
                &&& final(store).todos@ == old(store).todos@.update(
                    todo_idx(old(store).todos@, id@),
                    t,
                )
                &&& published(old(hub).events@, final(hub).events@, Event::TodoUpdated(t))
            },
            Err(e) => {
                &&& e is NotFound
                &&& !has_todo_id(old(store).todos@, id@)
                &&& *final(store) == *old(store)
                &&& final(hub).events@ == old(hub).events@
            },
        },
{
    let cur = match store.get_todo(id) {
        Ok(t) => t,
        Err(e) => {
            return Err(e);
        },
    };
    let t = cur.apply_update(body, now);
    let snapshot = copy_todo(&t);
    match store.replace_todo(snapshot) {
        Ok(()) => {
            hub.publish(Event::TodoUpdated(copy_todo(&t)));
            proof {
                assert(hub.events@.subrange(0, old(hub).events@.len() as int) =~= old(
                    hub,
                ).events@);
            }
            Ok(t)
        },
        Err(e) => Err(e),
    }
}

/// Applies a partial update at the current time.
pub fn update_todo(store: &mut Store, hub: &mut WsHub, id: &String, body: TodoUpdate) -> (r:
    Result<Todo, ApiError>)
    requires
        old(store).wf(),
    ensures
        final(store).wf(),
        final(store).categories == old(store).categories,
        match r {
            Ok(t) => {
                &&& has_todo_id(old(store).todos@, id@)
                &&& (exists|ts: i64|
                    t == todo_with_id(old(store).todos@, id@).spec_updated(body, ts))
                &&& final(store).todos@ == old(store).todos@.update(
                    todo_idx(old(store).todos@, id@),
                    t,
                )
                &&& published(old(hub).events@, final(hub).events@, Event::TodoUpdated(t))
            },
            Err(e) => {
                &&& e is NotFound
                &&& !has_todo_id(old(store).todos@, id@)
                &&& *final(store) == *old(store)
                &&& final(hub).events@ == old(hub).events@
            },
        },
{
    let now = now_millis();
    update_todo_with(store, hub, id, body, now)
}

/// Sets only the status of the todo with this identifier at the given
/// time: a narrower single-field update with the same event shape. A
/// missing status parameter is a client fault; a missing identifier is
/// `NotFound`; neither changes anything or publishes anything.
pub fn update_status_with(
    store: &mut Store,
    hub: &mut WsHub,
    id: &String,
    status: Option<String>,
    now: i64,
) -> (r: Result<Todo, ApiError>)
    requires
        old(store).wf(),
    ensures
        final(store).wf(),
        final(store).categories == old(store).categories,
        match r {
            Ok(t) => {
                &&& status is Some
                &&& has_todo_id(old(store).todos@, id@)
                &&& t == todo_with_id(old(store).todos@, id@).spec_status_updated(
                    status->0,
                    now,
                )
                &&& final(store).todos@ == old(store).todos@.update(
                    todo_idx(old(store).todos@, id@),
                    t,
                )
                &&& published(old(hub).events@, final(hub).events@, Event::TodoUpdated(t))
            },
            Err(e) => {
                &&& *final(store) == *old(store)
                &&& final(hub).events@ == old(hub).events@
                &&& if status is None {
                    e matches ApiError::BadRequest(m) && m@ == "missing status"@
                } else {
                    e is NotFound && !has_todo_id(old(store).todos@, id@)
                }
            },
        },
{
    let s = match status {
        Some(s) => s,
        None => {
            return Err(ApiError::BadRequest("missing status".to_owned()));
        },
    };
    let cur = match store.get_todo(id) {
        Ok(t) => t,
        Err(e) => {
            return Err(e);
        },
    };
    let mut t = cur;
    t.status = s;
    t.updated_at = now;
    let snapshot = copy_todo(&t);
    match store.replace_todo(snapshot) {
        Ok(()) => {
            hub.publish(Event::TodoUpdated(copy_todo(&t)));
            proof {
                assert(hub.events@.subrange(0, old(hub).events@.len() as int) =~= old(
                    hub,
                ).events@);
            }
            Ok(t)
        },
        Err(e) => Err(e),
    }
}

/// Sets only the status at the current time.
pub fn update_status(store: &mut Store, hub: &mut WsHub, id: &String, status: Option<String>) -> (r:
    Result<Todo, ApiError>)
    requires
        old(store).wf(),
    ensures
        final(store).wf(),
        final(store).categories == old(store).categories,
        match r {
            Ok(t) => {
                &&& status is Some
                &&& has_todo_id(old(store).todos@, id@)
                &&& (exists|ts: i64|
                    t == todo_with_id(old(store).todos@, id@).spec_status_updated(
                        status->0,
                        ts,
                    ))
                &&& final(store).todos@ == old(store).todos@.update(
                    todo_idx(old(store).todos@, id@),
                    t,
                )
                &&& published(old(hub).events@, final(hub).events@, Event::TodoUpdated(t))
            },
            Err(e) => {
                &&& *final(store) == *old(store)
                &&& final(hub).events@ == old(hub).events@
                &&& if status is None {
                    e matches ApiError::BadRequest(m) && m@ == "missing status"@
                } else {
                    e is NotFound && !has_todo_id(old(store).todos@, id@)
                }
            },
        },
{
    let now = now_millis();
    update_status_with(store, hub, id, status, now)
}

/// Soft-deletes the todo with this identifier at the given time: the row
/// stays, flagged deleted, `updated_at` refreshed. Unconditional — no
/// referential check holds a todo back. On success exactly one
/// `TodoDeleted` event carrying the identifier is published.
pub fn delete_todo_with(store: &mut Store, hub: &mut WsHub, id: &String, now: i64) -> (r: Result<
    (),
    ApiError,
>)
    requires
        old(store).wf(),
    ensures
        final(store).wf(),
        final(store).categories == old(store).categories,
        match r {
            Ok(()) => {
                &&& has_todo_id(old(store).todos@, id@)
                &&& final(store).todos@ == old(store).todos@.update(
                    todo_idx(old(store).todos@, id@),
                    todo_with_id(old(store).todos@, id@).spec_soft_deleted(now),
                )
                &&& published(old(hub).events@, final(hub).events@, Event::TodoDeleted(*id))
            },
            Err(e) => {
                &&& e is NotFound
                &&& !has_todo_id(old(store).todos@, id@)
                &&& *final(store) == *old(store)
                &&& final(hub).events@ == old(hub).events@
            },
        },
{
    let cur = match store.get_todo(id) {
        Ok(t) => t,
        Err(e) => {
            return Err(e);
        },
    };
    let mut t = cur;
    t.deleted = true;
    t.updated_at = now;
    match store.replace_todo(t) {
        Ok(()) => {
            hub.publish(Event::TodoDeleted(id.clone()));
            proof {
                assert(hub.events@.subrange(0, old(hub).events@.len() as int) =~= old(
                    hub,
                ).events@);
            }
            Ok(())
        },
        Err(e) => Err(e),
    }
}

/// Soft-deletes a todo at the current time.
pub fn delete_todo(store: &mut Store, hub: &mut WsHub, id: &String) -> (r: Result<(), ApiError>)
    requires
        old(store).wf(),
    ensures
        final(store).wf(),
        final(store).categories == old(store).categories,
        match r {
            Ok(()) => {
                &&& has_todo_id(old(store).todos@, id@)
                &&& (exists|ts: i64|
                    final(store).todos@ == old(store).todos@.update(
                        todo_idx(old(store).todos@, id@),
                        todo_with_id(old(store).todos@, id@).spec_soft_deleted(ts),
                    ))
                &&& published(old(hub).events@, final(hub).events@, Event::TodoDeleted(*id))
            },
            Err(e) => {
                &&& e is NotFound
                &&& !has_todo_id(old(store).todos@, id@)
                &&& *final(store) == *old(store)
                &&& final(hub).events@ == old(hub).events@
            },
        },
{
    let now = now_millis();
    delete_todo_with(store, hub, id, now)
}

/// Round trip: after a create appends a todo whose identifier no row
/// held, a fetch by that identifier finds exactly the created entity.
pub proof fn lemma_create_then_get(todos: Seq<Todo>, t: Todo)
    requires
        unique_todo_ids(todos),
        !has_todo_id(todos, t.id@),
    ensures
        unique_todo_ids(todos.push(t)),
        has_todo_id(todos.push(t), t.id@),
        todo_with_id(todos.push(t), t.id@) == t,
{
    let s = todos.push(t);
    assert forall|i: int, j: int| 0 <= i < j < s.len() implies s[i].id@ != s[j].id@ by {
        if j == s.len() - 1 {
            assert(!(0 <= i < todos.len() && todos[i].id@ == t.id@));
        }
    }
    lemma_todo_with_id(s, t.id@, todos.len() as int);
}

/// The todo table after a reorder batch applies in order: each entry sets
/// its todo's sort_order and refreshes `updated_at`; a later entry for
/// the same todo wins; an entry whose identifier no row holds leaves the
/// table as it stands.
pub open spec fn apply_reorder(todos: Seq<Todo>, items: Seq<ReorderItem>, now: i64) -> Seq<Todo>
    decreases items.len(),
{
    if items.len() == 0 {
        todos
    } else {
        let prev = apply_reorder(todos, items.drop_last(), now);
        let it = items.last();
        if has_todo_id(prev, it.id@) {
            prev.update(
                todo_idx(prev, it.id@),
                todo_with_id(prev, it.id@).spec_reordered(it.sort_order, now),
            )
        } else {
            prev
        }
    }
}

/// A reorder touches no identifier: the table after a batch holds the
/// same rows in the same places, row for row under the same identifier.
pub proof fn lemma_apply_reorder_ids(todos: Seq<Todo>, items: Seq<ReorderItem>, now: i64)
    ensures
        apply_reorder(todos, items, now).len() == todos.len(),
        forall|i: int|
            0 <= i < todos.len() ==> apply_reorder(todos, items, now)[i].id@ == todos[i].id@,
    decreases items.len(),
{
    if items.len() > 0 {
        lemma_apply_reorder_ids(todos, items.drop_last(), now);
        let prev = apply_reorder(todos, items.drop_last(), now);
        let it = items.last();
        if has_todo_id(prev, it.id@) {
            let k = todo_idx(prev, it.id@);
            assert(0 <= k < prev.len() && prev[k].id@ == it.id@);
        }
    }
}

/// Applies a reorder batch at the given time: each entry whose
/// identifier is present sets that todo's sort_order and refreshes
/// `updated_at`, in batch order; an entry naming no stored row is
/// skipped silently, as a storage UPDATE that matches no row succeeds.
/// The batch commits as one unit and exactly one `TodosReordered` event
/// carrying it is published. In this model nothing can fail; the error
/// type stands for the storage faults an embedder's engine may add.
pub fn reorder_with(store: &mut Store, hub: &mut WsHub, items: &Vec<ReorderItem>, now: i64) -> (r:
    Result<(), ApiError>)
    requires
        old(store).wf(),
    ensures
        final(store).wf(),
        final(store).categories == old(store).categories,
        r is Ok,
        final(store).todos@ == apply_reorder(old(store).todos@, items@, now),
        published(old(hub).events@, final(hub).events@, Event::TodosReordered(*items)),
{
    let ghost todos0 = store.todos@;
    proof {
        assert(items@.subrange(0, 0) =~= Seq::<ReorderItem>::empty());
    }
    let mut k: usize = 0;
    while k < items.len()
        invariant
            store.wf(),
            store.categories == old(store).categories,
            todos0 == old(store).todos@,
            k <= items@.len(),
            store.todos@ == apply_reorder(todos0, items@.subrange(0, k as int), now),
        decreases items@.len() - k,
    {
        let ghost prev = store.todos@;
        match store.get_todo(&items[k].id) {
            Ok(cur) => {
                let mut t = cur;
                t.sort_order = items[k].sort_order;
                t.updated_at = now;
                match store.replace_todo(t) {
                    Ok(()) => {},
                    Err(e) => {
                        return Err(e);
                    },
                }
            },
            Err(_) => {},
        }
        proof {
            let sub1 = items@.subrange(0, k as int + 1);
            assert(sub1.drop_last() =~= items@.subrange(0, k as int));
            assert(sub1.last() == items@[k as int]);
            assert(store.todos@ == apply_reorder(todos0, sub1, now));
        }
        k = k + 1;
    }
    proof {
        assert(items@.subrange(0, items@.len() as int) =~= items@);
    }
    hub.publish(Event::TodosReordered(copy_reorder_items(items)));
    proof {
        assert(hub.events@.subrange(0, old(hub).events@.len() as int) =~= old(hub).events@);
    }
    Ok(())
}

/// Applies a reorder batch at the current time: present identifiers
/// apply in order, absent ones are skipped, one event carries the batch.
pub fn reorder(store: &mut Store, hub: &mut WsHub, items: &Vec<ReorderItem>) -> (r: Result<
    (),
    ApiError,
>)
    requires
        old(store).wf(),
    ensures
        final(store).wf(),
        final(store).categories == old(store).categories,
        r is Ok,
        (exists|ts: i64| final(store).todos@ == apply_reorder(old(store).todos@, items@, ts)),
        published(old(hub).events@, final(hub).events@, Event::TodosReordered(*items)),
{
    let now = now_millis();
    reorder_with(store, hub, items, now)
}

/// Creates a category from the request, under the given identifier and
/// time. On success exactly one `CategoryCreated` event carrying the new
/// row is published.
pub fn create_category_with(
    store: &mut Store,
    hub: &mut WsHub,
    c: CategoryCreate,
    id: String,
    now: i64,
) -> (r: Result<Category, ApiError>)
    requires
        old(store).wf(),
    ensures
        final(store).wf(),
        final(store).todos == old(store).todos,
        match r {
            Ok(cat) => {
                &&& cat.id == id
                &&& category_created_from(cat, c, now)
                &&& !has_category_id(old(store).categories@, id@)
                &&& final(store).categories@ == old(store).categories@.push(cat)
                &&& published(old(hub).events@, final(hub).events@, Event::CategoryCreated(cat))
            },
            Err(e) => {
                &&& e is Conflict
                &&& has_category_id(old(store).categories@, id@)
                &&& *final(store) == *old(store)
                &&& final(hub).events@ == old(hub).events@
            },
        },
{
    let cat = Category::new_from_create(c, id, now);
    let snapshot = copy_category(&cat);
    match store.insert_category(snapshot) {
        Ok(()) => {
            hub.publish(Event::CategoryCreated(copy_category(&cat)));
            proof {
                assert(hub.events@.subrange(0, old(hub).events@.len() as int) =~= old(
                    hub,
                ).events@);
            }
            Ok(cat)
        },
        Err(e) => Err(e),
    }
}

/// Creates a category under a fresh identifier at the current time.
/// Failure takes a collision with a stored identifier of the generated
/// 36-character shape; a store holding no such identifier is owed
/// success.
pub fn create_category(store: &mut Store, hub: &mut WsHub, c: CategoryCreate) -> (r: Result<
    Category,
    ApiError,
>)
    requires
        old(store).wf(),
    ensures
        final(store).wf(),
        final(store).todos == old(store).todos,
        (forall|i: int|
            0 <= i < old(store).categories@.len() ==> old(store).categories@[i].id@.len() != 36)
            ==> r is Ok,
        match r {
            Ok(cat) => {
                &&& (exists|ts: i64| category_created_from(cat, c, ts))
                &&& cat.created_at == cat.updated_at
                &&& !has_category_id(old(store).categories@, cat.id@)
                &&& final(store).categories@ == old(store).categories@.push(cat)
                &&& published(old(hub).events@, final(hub).events@, Event::CategoryCreated(cat))
            },
            Err(e) => {
                &&& e is Conflict
                &&& (exists|i: int|
                    0 <= i < old(store).categories@.len() && old(store).categories@[i].id@.len()
                        == 36)
                &&& *final(store) == *old(store)
                &&& final(hub).events@ == old(hub).events@
            },
        },
{
    let id = fresh_id();
    let now = now_millis();
    let ghost idv = id@;
    let r = create_category_with(store, hub, c, id, now);
    proof {
        if r is Err {
            let j = choose|j: int|
                0 <= j < old(store).categories@.len() && old(store).categories@[j].id@ == idv;
            assert(old(store).categories@[j].id@.len() == 36);
        }
    }
    r
}

/// Applies a partial update to the category with this identifier at the
/// given time. On success exactly one `CategoryUpdated` event carrying
/// the replaced row is published.
pub fn update_category_with(
    store: &mut Store,
    hub: &mut WsHub,
    id: &String,
    body: CategoryUpdate,
    now: i64,
) -> (r: Result<Category, ApiError>)
    requires
        old(store).wf(),
    ensures
        final(store).wf(),
        final(store).todos == old(store).todos,
        match r {
            Ok(cat) => {
                &&& has_category_id(old(store).categories@, id@)
                &&& cat == category_with_id(old(store).categories@, id@).spec_updated(body, now)
                &&& final(store).categories@ == old(store).categories@.update(
                    category_idx(old(store).categories@, id@),
                    cat,
                )
                &&& published(old(hub).events@, final(hub).events@, Event::CategoryUpdated(cat))
            },
            Err(e) => {
                &&& e is NotFound
                &&& !has_category_id(old(store).categories@, id@)
                &&& *final(store) == *old(store)
                &&& final(hub).events@ == old(hub).events@
            },
        },
{
    let cur = match store.get_category(id) {
        Ok(c) => c,
        Err(e) => {
            return Err(e);
        },
    };
    let cat = cur.apply_update(body, now);
    let snapshot = copy_category(&cat);
    match store.replace_category(snapshot) {
        Ok(()) => {
            hub.publish(Event::CategoryUpdated(copy_category(&cat)));
            proof {
                assert(hub.events@.subrange(0, old(hub).events@.len() as int) =~= old(
                    hub,
                ).events@);
            }
            Ok(cat)
        },
        Err(e) => Err(e),
    }
}

/// Applies a partial category update at the current time.
pub fn update_category(store: &mut Store, hub: &mut WsHub, id: &String, body: CategoryUpdate) -> (r:
    Result<Category, ApiError>)
    requires
        old(store).wf(),
    ensures
        final(store).wf(),
        final(store).todos == old(store).todos,
        match r {
            Ok(cat) => {
                &&& has_category_id(old(store).categories@, id@)
                &&& (exists|ts: i64|
                    cat == category_with_id(old(store).categories@, id@).spec_updated(body, ts))
                &&& final(store).categories@ == old(store).categories@.update(
                    category_idx(old(store).categories@, id@),
                    cat,
                )
                &&& published(old(hub).events@, final(hub).events@, Event::CategoryUpdated(cat))
            },
            Err(e) => {
                &&& e is NotFound
                &&& !has_category_id(old(store).categories@, id@)
                &&& *final(store) == *old(store)
                &&& final(hub).events@ == old(hub).events@
            },
        },
{
    let now = now_millis();
    update_category_with(store, hub, id, body, now)
}

/// Soft-deletes the category with this identifier at the given time,
/// guarded by the referential rule: with one or more live todos still
/// referencing it, the delete is a client fault and nothing changes. On
/// success exactly one `CategoryDeleted` event carrying the identifier is
/// published.
pub fn delete_category_with(store: &mut Store, hub: &mut WsHub, id: &String, now: i64) -> (r:
    Result<(), ApiError>)
    requires
        old(store).wf(),
    ensures
        final(store).wf(),
        final(store).todos == old(store).todos,
        match r {
            Ok(()) => {
                &&& has_category_id(old(store).categories@, id@)
                &&& active_ref_count(old(store).todos@, id@) == 0
                &&& final(store).categories@ == old(store).categories@.update(
                    category_idx(old(store).categories@, id@),
                    category_with_id(old(store).categories@, id@).spec_soft_deleted(now),
                )
                &&& published(old(hub).events@, final(hub).events@, Event::CategoryDeleted(*id))
            },
            Err(e) => {
                &&& *final(store) == *old(store)
                &&& final(hub).events@ == old(hub).events@
                &&& if !has_category_id(old(store).categories@, id@) {
                    e is NotFound
                } else {
                    &&& active_ref_count(old(store).todos@, id@) > 0
                    &&& e matches ApiError::BadRequest(m) && m@
                        == "Cannot delete category that has todos assigned to it"@
                }
            },
        },
{
    let cur = match store.get_category(id) {
        Ok(c) => c,
        Err(e) => {
            return Err(e);
        },
    };
    let in_use = store.count_active_todos_for_category(id);
    if in_use > 0 {
        return Err(
            ApiError::BadRequest("Cannot delete category that has todos assigned to it".to_owned()),
        );
    }
    let mut cat = cur;
    cat.deleted = true;
    cat.updated_at = now;
    match store.replace_category(cat) {
        Ok(()) => {
            hub.publish(Event::CategoryDeleted(id.clone()));
            proof {
                assert(hub.events@.subrange(0, old(hub).events@.len() as int) =~= old(
                    hub,
                ).events@);
            }
            Ok(())
        },
        Err(e) => Err(e),
    }
}

/// Soft-deletes a category at the current time, guarded by the
/// referential rule.
pub fn delete_category(store: &mut Store, hub: &mut WsHub, id: &String) -> (r: Result<(), ApiError>)
    requires
        old(store).wf(),
    ensures
        final(store).wf(),
        final(store).todos == old(store).todos,
        match r {
            Ok(()) => {
                &&& has_category_id(old(store).categories@, id@)
                &&& active_ref_count(old(store).todos@, id@) == 0
                &&& (exists|ts: i64|
                    final(store).categories@ == old(store).categories@.update(
                        category_idx(old(store).categories@, id@),
                        category_with_id(old(store).categories@, id@).spec_soft_deleted(ts),
                    ))
                &&& published(old(hub).events@, final(hub).events@, Event::CategoryDeleted(*id))
            },
            Err(e) => {
                &&& *final(store) == *old(store)
                &&& final(hub).events@ == old(hub).events@
                &&& if !has_category_id(old(store).categories@, id@) {
                    e is NotFound
                } else {
                    &&& active_ref_count(old(store).todos@, id@) > 0
                    &&& e matches ApiError::BadRequest(m) && m@
                        == "Cannot delete category that has todos assigned to it"@
                }
            },
        },
{
    let now = now_millis();
    delete_category_with(store, hub, id, now)
}

} // verus!
