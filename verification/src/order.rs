//! The orderings list queries present: todos by priority descending, then
//! due date ascending with absent due dates last, then sort_order, then
//! creation time; categories by sort_order, then name.

use vstd::prelude::*;
use vstd::string::*;

use crate::model::Category;
use crate::model::Todo;

verus! {

/// The key a todo's due date sorts by: the date itself, or a sentinel
/// greater than every date when absent, so that "no due date" is never
/// soonest.
pub open spec fn due_key(t: Todo) -> int {
    match t.due_at {
        Some(d) => d as int,
        None => i64::MAX as int + 1,
    }
}

/// `a` may stand at or before `b` in a todo listing: priority descending,
/// then due date ascending with absent dates last, then sort_order
/// ascending, then creation time ascending.
pub open spec fn todo_le(a: Todo, b: Todo) -> bool {
    if a.priority != b.priority {
        a.priority > b.priority
    } else if due_key(a) != due_key(b) {
        due_key(a) < due_key(b)
    } else if a.sort_order != b.sort_order {
        a.sort_order < b.sort_order
    } else {
        a.created_at <= b.created_at
    }
}

/// The todo ordering is total: two todos can always stand in some order.
pub proof fn lemma_todo_le_total(a: Todo, b: Todo)
    ensures
        todo_le(a, b) || todo_le(b, a),
{
}

/// The todo ordering is transitive.
pub proof fn lemma_todo_le_trans(a: Todo, b: Todo, c: Todo)
    requires
        todo_le(a, b),
        todo_le(b, c),
    ensures
        todo_le(a, c),
{
}

/// Decides `due_key(*a) < due_key(*b)`.
fn due_lt(a: &Todo, b: &Todo) -> (r: bool)
    ensures
        r == (due_key(*a) < due_key(*b)),
{
    match (a.due_at, b.due_at) {
        (Some(x), Some(y)) => x < y,
        (Some(_), None) => true,
        (None, _) => false,
    }
}

/// Decides `due_key(*a) == due_key(*b)`.
fn due_eq(a: &Todo, b: &Todo) -> (r: bool)
    ensures
        r == (due_key(*a) == due_key(*b)),
{
    match (a.due_at, b.due_at) {
        (Some(x), Some(y)) => x == y,
        (None, None) => true,
        _ => false,
    }
}

/// Decides the todo listing order.
pub fn todo_le_exec(a: &Todo, b: &Todo) -> (r: bool)
    ensures
        r == todo_le(*a, *b),
{
    if a.priority != b.priority {
        a.priority > b.priority
    } else if due_lt(a, b) {
        true
    } else if !due_eq(a, b) {
        false
    } else if a.sort_order != b.sort_order {
        a.sort_order < b.sort_order
    } else {
        a.created_at <= b.created_at
    }
}

/// Lexicographic order on character sequences: a prefix comes first,
/// otherwise the first differing character decides by code point.
pub open spec fn lex_le(a: Seq<char>, b: Seq<char>) -> bool
    decreases a.len(),
{
    if a.len() == 0 {
        true
    } else if b.len() == 0 {
        false
    } else if a[0] == b[0] {
        lex_le(a.drop_first(), b.drop_first())
    } else {
        (a[0] as u32) < (b[0] as u32)
    }
}

/// The lexicographic order is total.
pub proof fn lemma_lex_le_total(a: Seq<char>, b: Seq<char>)
    ensures
        lex_le(a, b) || lex_le(b, a),
    decreases a.len(),
{
    if a.len() == 0 {
    } else if b.len() == 0 {
    } else if a[0] == b[0] {
        lemma_lex_le_total(a.drop_first(), b.drop_first());
    } else {
        vstd::utf8::char_u32_cast(a[0], a[0] as u32);
        vstd::utf8::char_u32_cast(b[0], b[0] as u32);
    }
}

/// The lexicographic order is transitive.
pub proof fn lemma_lex_le_trans(a: Seq<char>, b: Seq<char>, c: Seq<char>)
    requires
        lex_le(a, b),
        lex_le(b, c),
    ensures
        lex_le(a, c),
    decreases a.len(),
{
    if a.len() == 0 {
    } else {
        if a[0] == b[0] && b[0] == c[0] {
            lemma_lex_le_trans(a.drop_first(), b.drop_first(), c.drop_first());
        }
    }
}

/// Decides the lexicographic order on two strings.
pub fn str_le(a: &str, b: &str) -> (r: bool)
    ensures
        r == lex_le(a@, b@),
{
    let alen = a.unicode_len();
    let blen = b.unicode_len();
    let mut i: usize = 0;
    proof {
        assert(a@.skip(0) =~= a@);
        assert(b@.skip(0) =~= b@);
    }
    while i < alen && i < blen
        invariant
            i <= alen,
            i <= blen,
            alen == a@.len(),
            blen == b@.len(),
            lex_le(a@, b@) == lex_le(a@.skip(i as int), b@.skip(i as int)),
        decreases alen - i,
    {
        let ca = a.get_char(i);
        let cb = b.get_char(i);
        if ca != cb {
            proof {
                assert(a@.skip(i as int)[0] == ca);
                assert(b@.skip(i as int)[0] == cb);
            }
            return (ca as u32) < (cb as u32);
        }
        proof {
            assert(a@.skip(i as int).drop_first() =~= a@.skip(i as int + 1));
            assert(b@.skip(i as int).drop_first() =~= b@.skip(i as int + 1));
            assert(a@.skip(i as int)[0] == ca);
            assert(b@.skip(i as int)[0] == cb);
        }
        i = i + 1;
    }
    proof {
        if alen <= blen {
            assert(a@.skip(i as int).len() == 0);
        } else {
            assert(b@.skip(i as int).len() == 0);
            assert(a@.skip(i as int).len() > 0);
        }
    }
    alen <= blen
}

/// `a` may stand at or before `b` in a category listing: sort_order
/// ascending, then name ascending.
pub open spec fn category_le(a: Category, b: Category) -> bool {
    if a.sort_order != b.sort_order {
        a.sort_order < b.sort_order
    } else {
        lex_le(a.name@, b.name@)
    }
}

/// The category ordering is total.
pub proof fn lemma_category_le_total(a: Category, b: Category)
    ensures
        category_le(a, b) || category_le(b, a),
{
    lemma_lex_le_total(a.name@, b.name@);
}

/// The category ordering is transitive.
pub proof fn lemma_category_le_trans(a: Category, b: Category, c: Category)
    requires
        category_le(a, b),
        category_le(b, c),
    ensures
        category_le(a, c),
{
    if a.sort_order == b.sort_order && b.sort_order == c.sort_order {
        lemma_lex_le_trans(a.name@, b.name@, c.name@);
    }
}

/// Decides the category listing order.
pub fn category_le_exec(a: &Category, b: &Category) -> (r: bool)
    ensures
        r == category_le(*a, *b),
{
    if a.sort_order != b.sort_order {
        a.sort_order < b.sort_order
    } else {
        str_le(a.name.as_str(), b.name.as_str())
    }
}

/// A todo sequence in listing order.
pub open spec fn sorted_todos(s: Seq<Todo>) -> bool {
    forall|i: int, j: int| 0 <= i < j < s.len() ==> todo_le(s[i], s[j])
}

/// A category sequence in listing order.
pub open spec fn sorted_categories(s: Seq<Category>) -> bool {
    forall|i: int, j: int| 0 <= i < j < s.len() ==> category_le(s[i], s[j])
}

} // verus!
