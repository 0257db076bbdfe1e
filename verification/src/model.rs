//! The persisted entities (todos and categories), the partial-update
//! payloads that mutate them, and the small transfer shapes the API uses.
//!
//! Timestamps are milliseconds since the Unix epoch; identifiers are opaque
//! strings compared by their character sequence.

use vstd::prelude::*;

verus! {

/// A todo item as the store persists it.
///
/// `created_at` is set once at creation; every later mutation overwrites
/// `updated_at` with the clock reading it was handed. `deleted` rows stay
/// addressable by id but leave default listings.
#[derive(Debug, Clone, PartialEq)]
pub struct Todo {
    /// Opaque unique identifier, immutable after creation.
    pub id: String,
    /// Non-empty display text.
    pub title: String,
    /// Optional free text.
    pub note: Option<String>,
    /// Workflow state; a free-form string, by convention one of
    /// `todo`/`doing`/`done`/`archived`.
    pub status: String,
    /// Urgency, 0 (low) to 3 (high).
    pub priority: i64,
    /// Optional due timestamp.
    pub due_at: Option<i64>,
    /// Optional opaque tag blob.
    pub tags: Option<String>,
    /// Optional reference to a `Category` id.
    pub category_id: Option<String>,
    /// Manual ordering key; not unique.
    pub sort_order: i64,
    /// Set once at creation.
    pub created_at: i64,
    /// Refreshed by every mutation.
    pub updated_at: i64,
    /// Soft-delete flag.
    pub deleted: bool,
}

/// A category that todos may reference.
#[derive(Debug, Clone, PartialEq)]
pub struct Category {
    /// Opaque unique identifier, immutable after creation.
    pub id: String,
    /// Non-empty display name.
    pub name: String,
    /// Optional display hint.
    pub color: Option<String>,
    /// Optional free text.
    pub description: Option<String>,
    /// Manual ordering key; not unique.
    pub sort_order: i64,
    /// Set once at creation.
    pub created_at: i64,
    /// Refreshed by every mutation.
    pub updated_at: i64,
    /// Soft-delete flag. A category cannot be soft-deleted while a
    /// non-deleted todo references it.
    pub deleted: bool,
}

/// The payload that creates a todo. Absent optional fields take defaults:
/// status `todo`, priority 1, sort_order 0.
#[derive(Debug, Clone)]
pub struct TodoCreate {
    pub title: String,
    pub note: Option<String>,
    pub priority: Option<i64>,
    pub due_at: Option<i64>,
    pub tags: Option<String>,
    pub category_id: Option<String>,
}

/// A partial update for a todo: only the fields that are present change.
#[derive(Debug, Clone)]
pub struct TodoUpdate {
    pub title: Option<String>,
    pub note: Option<String>,
    pub status: Option<String>,
    pub priority: Option<i64>,
    pub due_at: Option<i64>,
    pub tags: Option<String>,
    pub category_id: Option<String>,
    pub sort_order: Option<i64>,
    pub deleted: Option<bool>,
}

/// The payload that creates a category. Absent optional fields take
/// defaults: sort_order 0.
#[derive(Debug, Clone)]
pub struct CategoryCreate {
    pub name: String,
    pub color: Option<String>,
    pub description: Option<String>,
    pub sort_order: Option<i64>,
}

/// A partial update for a category: only the fields that are present change.
#[derive(Debug, Clone)]
pub struct CategoryUpdate {
    pub name: Option<String>,
    pub color: Option<String>,
    pub description: Option<String>,
    pub sort_order: Option<i64>,
    pub deleted: Option<bool>,
}

/// One entry of a bulk reorder: which todo to move and where.
#[derive(Debug, Clone, PartialEq)]
pub struct ReorderItem {
    pub id: String,
    pub sort_order: i64,
}

/// A health-check response.
#[derive(Debug, Clone, PartialEq)]
pub struct Health {
    pub ok: bool,
    pub db: String,
}

/// Copies an optional string, field for field.
pub fn copy_opt_string(s: &Option<String>) -> (r: Option<String>)
    ensures
        r == *s,
{
    match s {
        Some(v) => Some(v.clone()),
        None => None,
    }
}

/// A todo freshly built from a create request at time `now`: user fields
/// taken over, defaults filled in, both timestamps equal to `now`, not
/// deleted.
pub open spec fn todo_created_from(t: Todo, c: TodoCreate, now: i64) -> bool {
    &&& t.title == c.title
    &&& t.note == c.note
    &&& t.status@ == "todo"@
    &&& t.priority == (if c.priority is Some {
        c.priority->0
    } else {
        1i64
    })
    &&& t.due_at == c.due_at
    &&& t.tags == c.tags
    &&& t.category_id == c.category_id
    &&& t.sort_order == 0
    &&& t.created_at == now
    &&& t.updated_at == now
    &&& !t.deleted
}

/// A category freshly built from a create request at time `now`.
pub open spec fn category_created_from(r: Category, c: CategoryCreate, now: i64) -> bool {
    &&& r.name == c.name
    &&& r.color == c.color
    &&& r.description == c.description
    &&& r.sort_order == (if c.sort_order is Some {
        c.sort_order->0
    } else {
        0i64
    })
    &&& r.created_at == now
    &&& r.updated_at == now
    &&& !r.deleted
}

/// Copies one reorder entry.
pub fn copy_reorder_item(it: &ReorderItem) -> (r: ReorderItem)
    ensures
        r == *it,
{
    ReorderItem { id: it.id.clone(), sort_order: it.sort_order }
}

/// Copies a reorder batch; the copy holds the same entries in the same
/// order.
pub fn copy_reorder_items(v: &Vec<ReorderItem>) -> (r: Vec<ReorderItem>)
    ensures
        r@ == v@,
{
    let mut out: Vec<ReorderItem> = Vec::new();
    let mut i: usize = 0;
    while i < v.len()
        invariant
            i <= v@.len(),
            out@ == v@.subrange(0, i as int),
        decreases v@.len() - i,
    {
        out.push(copy_reorder_item(&v[i]));
        proof {
            assert(out@ =~= v@.subrange(0, i as int + 1));
        }
        i = i + 1;
    }
    proof {
        assert(v@.subrange(0, v@.len() as int) =~= v@);
    }
    out
}

/// Copies a todo; the result is an independent snapshot equal to the
/// original.
pub fn copy_todo(t: &Todo) -> (r: Todo)
    ensures
        r == *t,
{
    Todo {
        id: t.id.clone(),
        title: t.title.clone(),
        note: copy_opt_string(&t.note),
        status: t.status.clone(),
        priority: t.priority,
        due_at: t.due_at,
        tags: copy_opt_string(&t.tags),
        category_id: copy_opt_string(&t.category_id),
        sort_order: t.sort_order,
        created_at: t.created_at,
        updated_at: t.updated_at,
        deleted: t.deleted,
    }
}

/// Copies a category; the result is an independent snapshot equal to the
/// original.
pub fn copy_category(c: &Category) -> (r: Category)
    ensures
        r == *c,
{
    Category {
        id: c.id.clone(),
        name: c.name.clone(),
        color: copy_opt_string(&c.color),
        description: copy_opt_string(&c.description),
        sort_order: c.sort_order,
        created_at: c.created_at,
        updated_at: c.updated_at,
        deleted: c.deleted,
    }
}

impl Todo {
    /// Builds the todo a create request describes, with the
    /// server-generated identifier and timestamp passed in.
    ///
    /// Both timestamps are set to `now`; absent optional fields take their
    /// defaults (status `todo`, priority 1, sort_order 0, not deleted).
    pub fn new_from_create(c: TodoCreate, id: String, now: i64) -> (t: Todo)
        ensures
            t.id == id,
            t.title == c.title,
            t.note == c.note,
            t.status@ == "todo"@,
            t.priority == (if c.priority is Some { c.priority->0 } else { 1i64 }),
            t.due_at == c.due_at,
            t.tags == c.tags,
            t.category_id == c.category_id,
            t.sort_order == 0i64,
            t.created_at == now,
            t.updated_at == now,
            !t.deleted,
    {
        Todo {
            id,
            title: c.title,
            note: c.note,
            status: "todo".to_owned(),
            priority: match c.priority {
                Some(p) => p,
                None => 1,
            },
            due_at: c.due_at,
            tags: c.tags,
            category_id: c.category_id,
            sort_order: 0,
            created_at: now,
            updated_at: now,
            deleted: false,
        }
    }

    /// The result of a status-only update: every other field kept,
    /// `updated_at` refreshed to `now`.
    pub open spec fn spec_status_updated(self, status: String, now: i64) -> Todo {
        Todo {
            id: self.id,
            title: self.title,
            note: self.note,
            status,
            priority: self.priority,
            due_at: self.due_at,
            tags: self.tags,
            category_id: self.category_id,
            sort_order: self.sort_order,
            created_at: self.created_at,
            updated_at: now,
            deleted: self.deleted,
        }
    }

    /// The result of a soft delete: every other field kept, the deleted
    /// flag set, `updated_at` refreshed to `now`.
    pub open spec fn spec_soft_deleted(self, now: i64) -> Todo {
        Todo {
            id: self.id,
            title: self.title,
            note: self.note,
            status: self.status,
            priority: self.priority,
            due_at: self.due_at,
            tags: self.tags,
            category_id: self.category_id,
            sort_order: self.sort_order,
            created_at: self.created_at,
            updated_at: now,
            deleted: true,
        }
    }

    /// The result of one reorder entry: every other field kept, the new
    /// sort_order applied, `updated_at` refreshed to `now`.
    pub open spec fn spec_reordered(self, sort_order: i64, now: i64) -> Todo {
        Todo {
            id: self.id,
            title: self.title,
            note: self.note,
            status: self.status,
            priority: self.priority,
            due_at: self.due_at,
            tags: self.tags,
            category_id: self.category_id,
            sort_order,
            created_at: self.created_at,
            updated_at: now,
            deleted: self.deleted,
        }
    }

    /// The result of applying a partial update: every field present in
    /// `u` overwritten, every absent field kept, and `updated_at` set to
    /// `now`.
    pub open spec fn spec_updated(self, u: TodoUpdate, now: i64) -> Todo {
        Todo {
            id: self.id,
            title: if u.title is Some { u.title->0 } else { self.title },
            note: if u.note is Some { u.note } else { self.note },
            status: if u.status is Some { u.status->0 } else { self.status },
            priority: if u.priority is Some { u.priority->0 } else { self.priority },
            due_at: if u.due_at is Some { u.due_at } else { self.due_at },
            tags: if u.tags is Some { u.tags } else { self.tags },
            category_id: if u.category_id is Some { u.category_id } else { self.category_id },
            sort_order: if u.sort_order is Some { u.sort_order->0 } else { self.sort_order },
            created_at: self.created_at,
            updated_at: now,
            deleted: if u.deleted is Some { u.deleted->0 } else { self.deleted },
        }
    }

    /// Applies a partial update: fields present in `u` overwrite, fields
    /// absent stay untouched, and `updated_at` is always refreshed to
    /// `now`, whatever changed.
    pub fn apply_update(self, u: TodoUpdate, now: i64) -> (t: Todo)
        ensures
            t == self.spec_updated(u, now),
    {
        let TodoUpdate {
            title,
            note,
            status,
            priority,
            due_at,
            tags,
            category_id,
            sort_order,
            deleted,
        } = u;
        let mut t = self;
        if let Some(v) = title {
            t.title = v;
        }
        if let Some(v) = note {
            t.note = Some(v);
        }
        if let Some(v) = status {
            t.status = v;
        }
        if let Some(v) = priority {
            t.priority = v;
        }
        if let Some(v) = due_at {
            t.due_at = Some(v);
        }
        if let Some(v) = tags {
            t.tags = Some(v);
        }
        if let Some(v) = category_id {
            t.category_id = Some(v);
        }
        if let Some(v) = sort_order {
            t.sort_order = v;
        }
        if let Some(v) = deleted {
            t.deleted = v;
        }
        t.updated_at = now;
        t
    }
}

impl Category {
    /// Builds the category a create request describes, with the
    /// server-generated identifier and timestamp passed in.
    pub fn new_from_create(c: CategoryCreate, id: String, now: i64) -> (r: Category)
        ensures
            r.id == id,
            r.name == c.name,
            r.color == c.color,
            r.description == c.description,
            r.sort_order == (if c.sort_order is Some { c.sort_order->0 } else { 0i64 }),
            r.created_at == now,
            r.updated_at == now,
            !r.deleted,
    {
        Category {
            id,
            name: c.name,
            color: c.color,
            description: c.description,
            sort_order: match c.sort_order {
                Some(s) => s,
                None => 0,
            },
            created_at: now,
            updated_at: now,
            deleted: false,
        }
    }

    /// The result of a soft delete: every other field kept, the deleted
    /// flag set, `updated_at` refreshed to `now`.
    pub open spec fn spec_soft_deleted(self, now: i64) -> Category {
        Category {
            id: self.id,
            name: self.name,
            color: self.color,
            description: self.description,
            sort_order: self.sort_order,
            created_at: self.created_at,
            updated_at: now,
            deleted: true,
        }
    }

    /// The result of applying a partial update: every field present in
    /// `u` overwritten, every absent field kept, and `updated_at` set to
    /// `now`.
    pub open spec fn spec_updated(self, u: CategoryUpdate, now: i64) -> Category {
        Category {
            id: self.id,
            name: if u.name is Some { u.name->0 } else { self.name },
            color: if u.color is Some { u.color } else { self.color },
            description: if u.description is Some { u.description } else { self.description },
            sort_order: if u.sort_order is Some { u.sort_order->0 } else { self.sort_order },
            created_at: self.created_at,
            updated_at: now,
            deleted: if u.deleted is Some { u.deleted->0 } else { self.deleted },
        }
    }

    /// Applies a partial update: fields present in `u` overwrite, fields
    /// absent stay untouched, and `updated_at` is always refreshed to
    /// `now`.
    pub fn apply_update(self, u: CategoryUpdate, now: i64) -> (r: Category)
        ensures
            r == self.spec_updated(u, now),
    {
        let CategoryUpdate { name, color, description, sort_order, deleted } = u;
        let mut c = self;
        if let Some(v) = name {
            c.name = v;
        }
        if let Some(v) = color {
            c.color = Some(v);
        }
        if let Some(v) = description {
            c.description = Some(v);
        }
        if let Some(v) = sort_order {
            c.sort_order = v;
        }
        if let Some(v) = deleted {
            c.deleted = v;
        }
        c.updated_at = now;
        c
    }
}

/// The fixed health-check response: the service is up and the store
/// answered.
pub fn health() -> (h: Health)
    ensures
        h.ok,
        h.db@ == "ok"@,
{
    Health { ok: true, db: "ok".to_owned() }
}

} // verus!
