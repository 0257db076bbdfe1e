//! The entity store: an in-memory table of todos and one of categories,
//! with parameterized read and write access. Identifiers are unique per
//! table; lookups go by identifier and bypass no row, deleted or not.

use vstd::prelude::*;

use crate::error::ApiError;
use crate::ids::fresh_id;
use crate::model::Category;
use crate::model::Todo;
use crate::model::copy_category;
use crate::model::copy_todo;
use crate::order::category_le;
use crate::order::category_le_exec;
use crate::order::lemma_category_le_total;
use crate::order::lemma_category_le_trans;
use crate::order::lemma_todo_le_total;
use crate::order::lemma_todo_le_trans;
use crate::order::sorted_categories;
use crate::order::sorted_todos;
use crate::order::todo_le;
use crate::order::todo_le_exec;

verus! {

/// The view of an optional string, an optional character sequence.
pub open spec fn opt_str_view(s: Option<String>) -> Option<Seq<char>> {
    match s {
        Some(x) => Some(x@),
        None => None,
    }
}

/// Whether a todo belongs in a listing: its status matches the filter when
/// one is given, and deleted rows appear only on request.
pub open spec fn todo_passes(
    t: Todo,
    status_filter: Option<Seq<char>>,
    include_deleted: bool,
) -> bool {
    &&& match status_filter {
        Some(f) => t.status@ == f,
        None => true,
    }
    &&& include_deleted || !t.deleted
}

/// Some category row is live (not soft-deleted).
pub open spec fn has_active_category(categories: Seq<Category>) -> bool {
    exists|i: int| 0 <= i < categories.len() && !categories[i].deleted
}

/// A freshly seeded default category: the given name, color and
/// description, sort_order 0, both timestamps `now`, not deleted.
pub open spec fn default_seed(
    c: Category,
    name: Seq<char>,
    color: Seq<char>,
    desc: Seq<char>,
    now: i64,
) -> bool {
    &&& c.name@ == name
    &&& match c.color {
        Some(x) => x@ == color,
        None => false,
    }
    &&& match c.description {
        Some(x) => x@ == desc,
        None => false,
    }
    &&& c.sort_order == 0
    &&& c.created_at == now
    &&& c.updated_at == now
    &&& !c.deleted
}

/// Some row holds this todo identifier.
pub open spec fn has_todo_id(todos: Seq<Todo>, id: Seq<char>) -> bool {
    exists|i: int| 0 <= i < todos.len() && todos[i].id@ == id
}

/// The index of the row holding this todo identifier.
pub open spec fn todo_idx(todos: Seq<Todo>, id: Seq<char>) -> int {
    choose|i: int| 0 <= i < todos.len() && todos[i].id@ == id
}

/// The row holding this todo identifier.
pub open spec fn todo_with_id(todos: Seq<Todo>, id: Seq<char>) -> Todo {
    todos[todo_idx(todos, id)]
}

/// No two rows share a todo identifier.
pub open spec fn unique_todo_ids(todos: Seq<Todo>) -> bool {
    forall|i: int, j: int| 0 <= i < j < todos.len() ==> todos[i].id@ != todos[j].id@
}

/// Some row holds this category identifier.
pub open spec fn has_category_id(categories: Seq<Category>, id: Seq<char>) -> bool {
    exists|i: int| 0 <= i < categories.len() && categories[i].id@ == id
}

/// The index of the row holding this category identifier.
pub open spec fn category_idx(categories: Seq<Category>, id: Seq<char>) -> int {
    choose|i: int| 0 <= i < categories.len() && categories[i].id@ == id
}

/// The row holding this category identifier.
pub open spec fn category_with_id(categories: Seq<Category>, id: Seq<char>) -> Category {
    categories[category_idx(categories, id)]
}

/// No two rows share a category identifier.
pub open spec fn unique_category_ids(categories: Seq<Category>) -> bool {
    forall|i: int, j: int|
        0 <= i < j < categories.len() ==> categories[i].id@ != categories[j].id@
}

/// The todo is live and references the category: not soft-deleted, with
/// `category_id` equal to the given identifier.
pub open spec fn references_category(t: Todo, cid: Seq<char>) -> bool {
    &&& !t.deleted
    &&& match t.category_id {
        Some(c) => c@ == cid,
        None => false,
    }
}

/// How many live todos reference the category.
pub open spec fn active_ref_count(todos: Seq<Todo>, cid: Seq<char>) -> nat {
    todos.filter(|t: Todo| references_category(t, cid)).len()
}

/// A sequence that holds, as a multiset, exactly the elements of a
/// filtered sequence consists of elements that pass the filter.
pub proof fn lemma_filter_multiset_members<A>(s: Seq<A>, pred: spec_fn(A) -> bool, r: Seq<A>)
    requires
        r.to_multiset() == s.filter(pred).to_multiset(),
    ensures
        forall|i: int| 0 <= i < r.len() ==> pred(r[i]),
{
    broadcast use vstd::seq_lib::group_to_multiset_ensures;

    assert forall|i: int| 0 <= i < r.len() implies pred(r[i]) by {
        assert(r.contains(r[i]));
        assert(r.to_multiset().count(r[i]) > 0);
        assert(s.filter(pred).to_multiset().count(r[i]) > 0);
        assert(s.filter(pred).contains(r[i]));
        let j = choose|j: int| 0 <= j < s.filter(pred).len() && s.filter(pred)[j] == r[i];
        s.lemma_filter_pred(pred, j);
    }
}

/// Filtering a sequence extended by one element keeps the old filtered
/// prefix and appends the element exactly when it passes.
pub proof fn lemma_filter_push<A>(s: Seq<A>, pred: spec_fn(A) -> bool, x: A)
    ensures
        s.push(x).filter(pred) == (if pred(x) {
            s.filter(pred).push(x)
        } else {
            s.filter(pred)
        }),
{
    reveal(Seq::filter);
    assert(s.push(x).drop_last() =~= s);
}

/// Inserts a todo at its place in listing order, keeping the sequence
/// sorted and adding exactly this element.
fn insert_todo_sorted(out: &mut Vec<Todo>, t: Todo)
    requires
        sorted_todos(old(out)@),
    ensures
        sorted_todos(final(out)@),
        final(out)@.to_multiset() == old(out)@.to_multiset().insert(t),
        final(out)@.len() == old(out)@.len() + 1,
{
    let mut j: usize = 0;
    while j < out.len() && todo_le_exec(&out[j], &t)
        invariant
            j <= out@.len(),
            sorted_todos(out@),
            out@ == old(out)@,
            forall|k: int| 0 <= k < j ==> todo_le(out@[k], t),
        decreases out@.len() - j,
    {
        j = j + 1;
    }
    proof {
        assert forall|k: int| j <= k < out@.len() implies todo_le(t, out@[k]) by {
            lemma_todo_le_total(out@[j as int], t);
            if k > j {
                lemma_todo_le_trans(t, out@[j as int], out@[k]);
            }
        }
    }
    out.insert(j, t);
    proof {
        vstd::seq_lib::to_multiset_insert(old(out)@, j as int, t);
        old(out)@.insert_ensures(j as int, t);
        let s = out@;
        let ji = j as int;
        assert forall|x: int, y: int| 0 <= x < y < s.len() implies todo_le(s[x], s[y]) by {
            if y < ji {
            } else if y == ji {
                assert(s[x] == old(out)@[x]);
            } else if x < ji {
                assert(s[y] == old(out)@[y - 1]);
            } else if x == ji {
                assert(s[y] == old(out)@[y - 1]);
            } else {
                assert(s[x] == old(out)@[x - 1]);
                assert(s[y] == old(out)@[y - 1]);
            }
        }
    }
}

/// Inserts a category at its place in listing order, keeping the sequence
/// sorted and adding exactly this element.
fn insert_category_sorted(out: &mut Vec<Category>, c: Category)
    requires
        sorted_categories(old(out)@),
    ensures
        sorted_categories(final(out)@),
        final(out)@.to_multiset() == old(out)@.to_multiset().insert(c),
        final(out)@.len() == old(out)@.len() + 1,
{
    let mut j: usize = 0;
    while j < out.len() && category_le_exec(&out[j], &c)
        invariant
            j <= out@.len(),
            sorted_categories(out@),
            out@ == old(out)@,
            forall|k: int| 0 <= k < j ==> category_le(out@[k], c),
        decreases out@.len() - j,
    {
        j = j + 1;
    }
    proof {
        assert forall|k: int| j <= k < out@.len() implies category_le(c, out@[k]) by {
            lemma_category_le_total(out@[j as int], c);
            if k > j {
                lemma_category_le_trans(c, out@[j as int], out@[k]);
            }
        }
    }
    out.insert(j, c);
    proof {
        vstd::seq_lib::to_multiset_insert(old(out)@, j as int, c);
        old(out)@.insert_ensures(j as int, c);
        let s = out@;
        let ji = j as int;
        assert forall|x: int, y: int| 0 <= x < y < s.len() implies category_le(s[x], s[y]) by {
            if y < ji {
            } else if y == ji {
                assert(s[x] == old(out)@[x]);
            } else if x < ji {
                assert(s[y] == old(out)@[y - 1]);
            } else if x == ji {
                assert(s[y] == old(out)@[y - 1]);
            } else {
                assert(s[x] == old(out)@[x - 1]);
                assert(s[y] == old(out)@[y - 1]);
            }
        }
    }
}

/// In a table with unique identifiers, a row's index is the only place its
/// identifier occurs.
pub proof fn lemma_todo_with_id(todos: Seq<Todo>, id: Seq<char>, i: int)
    requires
        unique_todo_ids(todos),
        0 <= i < todos.len(),
        todos[i].id@ == id,
    ensures
        has_todo_id(todos, id),
        todo_idx(todos, id) == i,
        todo_with_id(todos, id) == todos[i],
{
    assert(has_todo_id(todos, id));
    let j = todo_idx(todos, id);
    assert(0 <= j < todos.len() && todos[j].id@ == id);
    if i < j {
        assert(todos[i].id@ != todos[j].id@);
    } else if j < i {
        assert(todos[j].id@ != todos[i].id@);
    }
}

/// The category analogue of `lemma_todo_with_id`.
pub proof fn lemma_category_with_id(categories: Seq<Category>, id: Seq<char>, i: int)
    requires
        unique_category_ids(categories),
        0 <= i < categories.len(),
        categories[i].id@ == id,
    ensures
        has_category_id(categories, id),
        category_idx(categories, id) == i,
        category_with_id(categories, id) == categories[i],
{
    assert(has_category_id(categories, id));
    let j = category_idx(categories, id);
    assert(0 <= j < categories.len() && categories[j].id@ == id);
    if i < j {
        assert(categories[i].id@ != categories[j].id@);
    } else if j < i {
        assert(categories[j].id@ != categories[i].id@);
    }
}

/// The persisted state: one table of todos, one of categories. Callers
/// receive independent snapshots, never references into the tables.
pub struct Store {
    pub todos: Vec<Todo>,
    pub categories: Vec<Category>,
}

impl Store {
    /// Both tables keep identifiers unique.
    pub open spec fn wf(&self) -> bool {
        &&& unique_todo_ids(self.todos@)
        &&& unique_category_ids(self.categories@)
    }

    /// An empty store.
    pub fn new() -> (s: Store)
        ensures
            s.wf(),
            s.todos@ == Seq::<Todo>::empty(),
            s.categories@ == Seq::<Category>::empty(),
    {
        Store { todos: Vec::new(), categories: Vec::new() }
    }

    /// The index of the todo row with this identifier, if any.
    fn find_todo_index(&self, id: &String) -> (r: Option<usize>)
        ensures
            match r {
                Some(i) => i < self.todos@.len() && self.todos@[i as int].id@ == id@,
                None => !has_todo_id(self.todos@, id@),
            },
    {
        let mut i: usize = 0;
        while i < self.todos.len()
            invariant
                i <= self.todos@.len(),
                forall|k: int| 0 <= k < i ==> self.todos@[k].id@ != id@,
            decreases self.todos@.len() - i,
        {
            if self.todos[i].id == *id {
                return Some(i);
            }
            i = i + 1;
        }
        None
    }

    /// The index of the category row with this identifier, if any.
    fn find_category_index(&self, id: &String) -> (r: Option<usize>)
        ensures
            match r {
                Some(i) => i < self.categories@.len() && self.categories@[i as int].id@ == id@,
                None => !has_category_id(self.categories@, id@),
            },
    {
        let mut i: usize = 0;
        while i < self.categories.len()
            invariant
                i <= self.categories@.len(),
                forall|k: int| 0 <= k < i ==> self.categories@[k].id@ != id@,
            decreases self.categories@.len() - i,
        {
            if self.categories[i].id == *id {
                return Some(i);
            }
            i = i + 1;
        }
        None
    }

    /// Fetches the todo with this identifier, deleted or not; `NotFound`
    /// exactly when no row holds it.
    pub fn get_todo(&self, id: &String) -> (r: Result<Todo, ApiError>)
        requires
            self.wf(),
        ensures
            match r {
                Ok(t) => {
                    &&& has_todo_id(self.todos@, id@)
                    &&& t == todo_with_id(self.todos@, id@)
                    &&& t.id@ == id@
                },
                Err(e) => e is NotFound && !has_todo_id(self.todos@, id@),
            },
    {
        match self.find_todo_index(id) {
            Some(i) => {
                proof {
                    lemma_todo_with_id(self.todos@, id@, i as int);
                }
                Ok(copy_todo(&self.todos[i]))
            },
            None => Err(ApiError::NotFound),
        }
    }

    /// Fetches the category with this identifier, deleted or not;
    /// `NotFound` exactly when no row holds it.
    pub fn get_category(&self, id: &String) -> (r: Result<Category, ApiError>)
        requires
            self.wf(),
        ensures
            match r {
                Ok(c) => {
                    &&& has_category_id(self.categories@, id@)
                    &&& c == category_with_id(self.categories@, id@)
                    &&& c.id@ == id@
                },
                Err(e) => e is NotFound && !has_category_id(self.categories@, id@),
            },
    {
        match self.find_category_index(id) {
            Some(i) => {
                proof {
                    lemma_category_with_id(self.categories@, id@, i as int);
                }
                Ok(copy_category(&self.categories[i]))
            },
            None => Err(ApiError::NotFound),
        }
    }

    /// Appends a new todo row; a colliding identifier is refused and
    /// changes nothing.
    pub fn insert_todo(&mut self, t: Todo) -> (r: Result<(), ApiError>)
        requires
            old(self).wf(),
        ensures
            final(self).categories == old(self).categories,
            final(self).wf(),
            match r {
                Ok(()) => {
                    &&& !has_todo_id(old(self).todos@, t.id@)
                    &&& final(self).todos@ == old(self).todos@.push(t)
                },
                Err(e) => {
                    &&& e is Conflict
                    &&& has_todo_id(old(self).todos@, t.id@)
                    &&& *final(self) == *old(self)
                },
            },
    {
        match self.find_todo_index(&t.id) {
            Some(_) => Err(ApiError::Conflict("duplicate todo id".to_owned())),
            None => {
                proof {
                    let s = self.todos@.push(t);
                    assert forall|i: int, j: int| 0 <= i < j < s.len() implies s[i].id@
                        != s[j].id@ by {
                        if j == s.len() - 1 {
                            assert(!(0 <= i < self.todos@.len() && self.todos@[i].id@ == t.id@));
                        }
                    }
                }
                self.todos.push(t);
                Ok(())
            },
        }
    }

    /// Appends a new category row; a colliding identifier is refused and
    /// changes nothing.
    pub fn insert_category(&mut self, c: Category) -> (r: Result<(), ApiError>)
        requires
            old(self).wf(),
        ensures
            final(self).todos == old(self).todos,
            final(self).wf(),
            match r {
                Ok(()) => {
                    &&& !has_category_id(old(self).categories@, c.id@)
                    &&& final(self).categories@ == old(self).categories@.push(c)
                },
                Err(e) => {
                    &&& e is Conflict
                    &&& has_category_id(old(self).categories@, c.id@)
                    &&& *final(self) == *old(self)
                },
            },
    {
        match self.find_category_index(&c.id) {
            Some(_) => Err(ApiError::Conflict("duplicate category id".to_owned())),
            None => {
                proof {
                    let s = self.categories@.push(c);
                    assert forall|i: int, j: int| 0 <= i < j < s.len() implies s[i].id@
                        != s[j].id@ by {
                        if j == s.len() - 1 {
                            assert(!(0 <= i < self.categories@.len() && self.categories@[i].id@
                                == c.id@));
                        }
                    }
                }
                self.categories.push(c);
                Ok(())
            },
        }
    }

    /// Replaces the whole todo row with the same identifier; `NotFound`
    /// exactly when no row holds it.
    pub fn replace_todo(&mut self, t: Todo) -> (r: Result<(), ApiError>)
        requires
            old(self).wf(),
        ensures
            final(self).categories == old(self).categories,
            final(self).wf(),
            match r {
                Ok(()) => {
                    &&& has_todo_id(old(self).todos@, t.id@)
                    &&& final(self).todos@ == old(self).todos@.update(
                        todo_idx(old(self).todos@, t.id@),
                        t,
                    )
                },
                Err(e) => {
                    &&& e is NotFound
                    &&& !has_todo_id(old(self).todos@, t.id@)
                    &&& *final(self) == *old(self)
                },
            },
    {
        match self.find_todo_index(&t.id) {
            Some(i) => {
                proof {
                    lemma_todo_with_id(self.todos@, t.id@, i as int);
                    let s = self.todos@.update(i as int, t);
                    assert forall|x: int, y: int| 0 <= x < y < s.len() implies s[x].id@
                        != s[y].id@ by {
                        assert(self.todos@[x].id@ != self.todos@[y].id@);
                        assert(s[x].id@ == self.todos@[x].id@);
                        assert(s[y].id@ == self.todos@[y].id@);
                    }
                }
                self.todos[i] = t;
                Ok(())
            },
            None => Err(ApiError::NotFound),
        }
    }

    /// Replaces the whole category row with the same identifier;
    /// `NotFound` exactly when no row holds it.
    pub fn replace_category(&mut self, c: Category) -> (r: Result<(), ApiError>)
        requires
            old(self).wf(),
        ensures
            final(self).todos == old(self).todos,
            final(self).wf(),
            match r {
                Ok(()) => {
                    &&& has_category_id(old(self).categories@, c.id@)
                    &&& final(self).categories@ == old(self).categories@.update(
                        category_idx(old(self).categories@, c.id@),
                        c,
                    )
                },
                Err(e) => {
                    &&& e is NotFound
                    &&& !has_category_id(old(self).categories@, c.id@)
                    &&& *final(self) == *old(self)
                },
            },
    {
        match self.find_category_index(&c.id) {
            Some(i) => {
                proof {
                    lemma_category_with_id(self.categories@, c.id@, i as int);
                    let s = self.categories@.update(i as int, c);
                    assert forall|x: int, y: int| 0 <= x < y < s.len() implies s[x].id@
                        != s[y].id@ by {
                        assert(self.categories@[x].id@ != self.categories@[y].id@);
                        assert(s[x].id@ == self.categories@[x].id@);
                        assert(s[y].id@ == self.categories@[y].id@);
                    }
                }
                self.categories[i] = c;
                Ok(())
            },
            None => Err(ApiError::NotFound),
        }
    }

    /// How many live (non-deleted) todos reference the category.
    pub fn count_active_todos_for_category(&self, category_id: &String) -> (n: usize)
        ensures
            n == active_ref_count(self.todos@, category_id@),
    {
        let ghost pred = |t: Todo| references_category(t, category_id@);
        proof {
            assert(self.todos@.subrange(0, 0).filter(pred) =~= Seq::<Todo>::empty()) by {
                reveal(Seq::filter);
            }
        }
        let mut n: usize = 0;
        let mut i: usize = 0;
        while i < self.todos.len()
            invariant
                i <= self.todos@.len(),
                n <= i,
                n == self.todos@.subrange(0, i as int).filter(pred).len(),
                pred == (|t: Todo| references_category(t, category_id@)),
            decreases self.todos@.len() - i,
        {
            let t = &self.todos[i];
            let hits = if t.deleted {
                false
            } else {
                match &t.category_id {
                    Some(c) => *c == *category_id,
                    None => false,
                }
            };
            proof {
                let prefix = self.todos@.subrange(0, i as int);
                assert(self.todos@.subrange(0, i as int + 1) =~= prefix.push(self.todos@[i as int]));
                lemma_filter_push(prefix, pred, self.todos@[i as int]);
                assert(hits == pred(self.todos@[i as int]));
            }
            if hits {
                n = n + 1;
            }
            i = i + 1;
        }
        proof {
            assert(self.todos@.subrange(0, self.todos@.len() as int) =~= self.todos@);
        }
        n
    }

    /// Lists todos in listing order: exactly the rows whose status matches
    /// the filter (when one is given), with deleted rows only on request,
    /// sorted by priority descending, due date ascending with absent dates
    /// last, then sort_order, then creation time.
    pub fn list_todos(&self, status_filter: &Option<String>, include_deleted: bool) -> (r: Vec<
        Todo,
    >)
        ensures
            sorted_todos(r@),
            r@.to_multiset() == self.todos@.filter(
                |t: Todo| todo_passes(t, opt_str_view(*status_filter), include_deleted),
            ).to_multiset(),
            forall|i: int|
                0 <= i < r@.len() ==> todo_passes(
                    r@[i],
                    opt_str_view(*status_filter),
                    include_deleted,
                ),
    {
        let ghost pred = |t: Todo| todo_passes(t, opt_str_view(*status_filter), include_deleted);
        let mut out: Vec<Todo> = Vec::new();
        proof {
            assert(self.todos@.subrange(0, 0).filter(pred) =~= Seq::<Todo>::empty()) by {
                reveal(Seq::filter);
            }
        }
        let mut i: usize = 0;
        while i < self.todos.len()
            invariant
                i <= self.todos@.len(),
                sorted_todos(out@),
                out@.to_multiset() == self.todos@.subrange(0, i as int).filter(
                    pred,
                ).to_multiset(),
                pred == (|t: Todo| todo_passes(t, opt_str_view(*status_filter), include_deleted)),
            decreases self.todos@.len() - i,
        {
            let t = &self.todos[i];
            let passes_status = match status_filter {
                Some(f) => t.status == *f,
                None => true,
            };
            let passes = passes_status && (include_deleted || !t.deleted);
            proof {
                let prefix = self.todos@.subrange(0, i as int);
                assert(self.todos@.subrange(0, i as int + 1) =~= prefix.push(
                    self.todos@[i as int],
                ));
                lemma_filter_push(prefix, pred, self.todos@[i as int]);
                assert(passes == pred(self.todos@[i as int]));
            }
            if passes {
                insert_todo_sorted(&mut out, copy_todo(t));
                proof {
                    vstd::seq_lib::to_multiset_build(
                        self.todos@.subrange(0, i as int).filter(pred),
                        self.todos@[i as int],
                    );
                }
            }
            i = i + 1;
        }
        proof {
            assert(self.todos@.subrange(0, self.todos@.len() as int) =~= self.todos@);
            lemma_filter_multiset_members(self.todos@, pred, out@);
        }
        out
    }

    /// Lists the live (non-deleted) categories, sorted by sort_order, then
    /// name.
    pub fn list_categories(&self) -> (r: Vec<Category>)
        ensures
            sorted_categories(r@),
            r@.to_multiset() == self.categories@.filter(|c: Category| !c.deleted).to_multiset(),
            forall|i: int| 0 <= i < r@.len() ==> !r@[i].deleted,
    {
        let ghost pred = |c: Category| !c.deleted;
        let mut out: Vec<Category> = Vec::new();
        proof {
            assert(self.categories@.subrange(0, 0).filter(pred) =~= Seq::<Category>::empty()) by {
                reveal(Seq::filter);
            }
        }
        let mut i: usize = 0;
        while i < self.categories.len()
            invariant
                i <= self.categories@.len(),
                sorted_categories(out@),
                out@.to_multiset() == self.categories@.subrange(0, i as int).filter(
                    pred,
                ).to_multiset(),
                pred == (|c: Category| !c.deleted),
            decreases self.categories@.len() - i,
        {
            let c = &self.categories[i];
            proof {
                let prefix = self.categories@.subrange(0, i as int);
                assert(self.categories@.subrange(0, i as int + 1) =~= prefix.push(
                    self.categories@[i as int],
                ));
                lemma_filter_push(prefix, pred, self.categories@[i as int]);
            }
            if !c.deleted {
                insert_category_sorted(&mut out, copy_category(c));
                proof {
                    vstd::seq_lib::to_multiset_build(
                        self.categories@.subrange(0, i as int).filter(pred),
                        self.categories@[i as int],
                    );
                }
            }
            i = i + 1;
        }
        proof {
            assert(self.categories@.subrange(0, self.categories@.len() as int)
                =~= self.categories@);
            lemma_filter_multiset_members(self.categories@, pred, out@);
        }
        out
    }

    /// Seeds the five default categories when no live category exists,
    /// all-or-nothing: with a live category present, or on an identifier
    /// collision, nothing changes. Fresh identifiers come from the
    /// generator, so a collision is possible but never partial.
    pub fn seed_default_categories(&mut self, now: i64) -> (r: Result<(), ApiError>)
        requires
            old(self).wf(),
        ensures
            final(self).wf(),
            final(self).todos == old(self).todos,
            has_active_category(old(self).categories@) ==> r is Ok,
            match r {
                Ok(()) => {
                    if has_active_category(old(self).categories@) {
                        *final(self) == *old(self)
                    } else {
                        let n = old(self).categories@.len() as int;
                        &&& final(self).categories@.len() == n + 5
                        &&& final(self).categories@.subrange(0, n) == old(self).categories@
                        &&& default_seed(
                            final(self).categories@[n],
                            "General"@,
                            "#6B7280"@,
                            "General tasks and items"@,
                            now,
                        )
                        &&& default_seed(
                            final(self).categories@[n + 1],
                            "Work"@,
                            "#3B82F6"@,
                            "Work-related tasks"@,
                            now,
                        )
                        &&& default_seed(
                            final(self).categories@[n + 2],
                            "Personal"@,
                            "#EF4444"@,
                            "Personal tasks and reminders"@,
                            now,
                        )
                        &&& default_seed(
                            final(self).categories@[n + 3],
                            "Shopping"@,
                            "#10B981"@,
                            "Shopping lists and items"@,
                            now,
                        )
                        &&& default_seed(
                            final(self).categories@[n + 4],
                            "Health"@,
                            "#F59E0B"@,
                            "Health and fitness related"@,
                            now,
                        )
                    }
                },
                Err(e) => {
                    &&& e is Conflict
                    &&& !has_active_category(old(self).categories@)
                    &&& *final(self) == *old(self)
                },
            },
    {
        let has_live = self.has_live_category();
        if has_live {
            return Ok(());
        }
        let mut seeds: Vec<Category> = Vec::new();
        seeds.push(
            Category {
                id: fresh_id(),
                name: "General".to_owned(),
                color: Some("#6B7280".to_owned()),
                description: Some("General tasks and items".to_owned()),
                sort_order: 0,
                created_at: now,
                updated_at: now,
                deleted: false,
            },
        );
        seeds.push(
            Category {
                id: fresh_id(),
                name: "Work".to_owned(),
                color: Some("#3B82F6".to_owned()),
                description: Some("Work-related tasks".to_owned()),
                sort_order: 0,
                created_at: now,
                updated_at: now,
                deleted: false,
            },
        );
        seeds.push(
            Category {
                id: fresh_id(),
                name: "Personal".to_owned(),
                color: Some("#EF4444".to_owned()),
                description: Some("Personal tasks and reminders".to_owned()),
                sort_order: 0,
                created_at: now,
                updated_at: now,
                deleted: false,
            },
        );
        seeds.push(
            Category {
                id: fresh_id(),
                name: "Shopping".to_owned(),
                color: Some("#10B981".to_owned()),
                description: Some("Shopping lists and items".to_owned()),
                sort_order: 0,
                created_at: now,
                updated_at: now,
                deleted: false,
            },
        );
        seeds.push(
            Category {
                id: fresh_id(),
                name: "Health".to_owned(),
                color: Some("#F59E0B".to_owned()),
                description: Some("Health and fitness related".to_owned()),
                sort_order: 0,
                created_at: now,
                updated_at: now,
                deleted: false,
            },
        );
        let mut i: usize = 0;
        while i < seeds.len()
            invariant
                *self == *old(self),
                old(self).wf(),
                !has_active_category(old(self).categories@),
                seeds@.len() == 5,
                i <= 5,
                forall|x: int| 0 <= x < i ==> !has_category_id(self.categories@, seeds@[x].id@),
                forall|x: int, y: int| 0 <= x < y < i ==> seeds@[x].id@ != seeds@[y].id@,
            decreases seeds@.len() - i,
        {
            if self.find_category_index(&seeds[i].id).is_some() {
                return Err(ApiError::Conflict("duplicate category id".to_owned()));
            }
            let mut j: usize = 0;
            while j < i
                invariant
                    *self == *old(self),
                    old(self).wf(),
                    !has_active_category(old(self).categories@),
                    i < seeds@.len(),
                    j <= i,
                    forall|x: int| 0 <= x < j ==> seeds@[x].id@ != seeds@[i as int].id@,
                decreases i - j,
            {
                if seeds[j].id == seeds[i].id {
                    return Err(ApiError::Conflict("duplicate category id".to_owned()));
                }
                j = j + 1;
            }
            i = i + 1;
        }
        let ghost cats0 = self.categories@;
        let ghost seedsv = seeds@;
        let mut k: usize = 0;
        while k < seeds.len()
            invariant
                seeds@ == seedsv,
                seedsv.len() == 5,
                k <= 5,
                self.todos == old(self).todos,
                unique_todo_ids(self.todos@),
                self.categories@ == cats0 + seedsv.subrange(0, k as int),
                unique_category_ids(cats0),
                unique_category_ids(self.categories@),
                forall|x: int| 0 <= x < 5 ==> !has_category_id(cats0, seedsv[x].id@),
                forall|x: int, y: int| 0 <= x < y < 5 ==> seedsv[x].id@ != seedsv[y].id@,
            decreases seeds@.len() - k,
        {
            proof {
                assert(self.categories@.push(seedsv[k as int]) =~= cats0 + seedsv.subrange(
                    0,
                    k as int + 1,
                ));
                let s = self.categories@.push(seedsv[k as int]);
                assert forall|x: int, y: int| 0 <= x < y < s.len() implies s[x].id@
                    != s[y].id@ by {
                    if y == s.len() - 1 {
                        if x < cats0.len() {
                            assert(!(0 <= x < cats0.len() && cats0[x].id@ == seedsv[k as int].id@));
                        } else {
                            assert(s[x] == seedsv[x - cats0.len()]);
                        }
                    }
                }
            }
            let c = copy_category(&seeds[k]);
            self.categories.push(c);
            k = k + 1;
        }
        proof {
            assert(self.categories@.subrange(0, cats0.len() as int) =~= cats0);
            assert(self.categories@.len() == cats0.len() + 5);
            assert(self.categories@[cats0.len() as int] == seedsv[0]);
            assert(self.categories@[cats0.len() as int + 1] == seedsv[1]);
            assert(self.categories@[cats0.len() as int + 2] == seedsv[2]);
            assert(self.categories@[cats0.len() as int + 3] == seedsv[3]);
            assert(self.categories@[cats0.len() as int + 4] == seedsv[4]);
        }
        Ok(())
    }

    /// Whether some live (non-deleted) category row exists.
    fn has_live_category(&self) -> (r: bool)
        ensures
            r == has_active_category(self.categories@),
    {
        let mut i: usize = 0;
        while i < self.categories.len()
            invariant
                i <= self.categories@.len(),
                forall|k: int| 0 <= k < i ==> self.categories@[k].deleted,
            decreases self.categories@.len() - i,
        {
            if !self.categories[i].deleted {
                return true;
            }
            i = i + 1;
        }
        false
    }
}

} // verus!
