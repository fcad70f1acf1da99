//! General laws of the service, proved once and for all over the store's
//! mathematical value. Each speaks of the same sequences and predicates that
//! the store's and handlers' contracts use, so it applies to every run.

use vstd::prelude::*;

use crate::items::TodoView;
use crate::store::apply_update;
use crate::store::has_id;
use crate::store::is_first_match;
use crate::store::unique_ids;

verus! {

/// Adding keeps insertion order and identifier uniqueness: an add under an
/// identifier held by no current item leaves every earlier item where it
/// was, places the new item at the end, and keeps all identifiers distinct.
pub proof fn lemma_add_keeps_order_and_unique(s: Seq<TodoView>, t: TodoView)
    requires
        unique_ids(s),
        !has_id(s, t.id),
    ensures
        unique_ids(s.push(t)),
        s.push(t).len() == s.len() + 1,
        forall|i: int| 0 <= i < s.len() ==> s.push(t)[i] == s[i],
        s.push(t)[s.len() as int] == t,
{
    assert forall|i: int, j: int|
        0 <= i < j < s.push(t).len() implies s.push(t)[i].id != s.push(t)[j].id by {
        if j == s.len() as int {
            assert(s.push(t)[i] == s[i]);
        }
    }
}

/// An item added under an identifier held by no current item is exactly what
/// a fetch of that identifier then finds: the new item itself, at the end.
pub proof fn lemma_add_then_get(s: Seq<TodoView>, t: TodoView)
    requires
        !has_id(s, t.id),
    ensures
        is_first_match(s.push(t), t.id, s.len() as int),
        s.push(t)[s.len() as int] == t,
{
    assert forall|j: int| 0 <= j < s.len() implies s.push(t)[j].id != t.id by {
        assert(s.push(t)[j] == s[j]);
    }
}

/// Deleting a known identifier removes exactly one item: the remaining
/// items are the untouched originals, in their original relative order.
pub proof fn lemma_delete_spares_others(s: Seq<TodoView>, id: u128, i: int)
    requires
        is_first_match(s, id, i),
    ensures
        s.remove(i).len() == s.len() - 1,
        forall|j: int| 0 <= j < i ==> s.remove(i)[j] == s[j],
        forall|j: int| i <= j < s.len() - 1 ==> s.remove(i)[j] == s[j + 1],
{
}

/// A partial update touches only the supplied fields: an absent title leaves
/// the title, an absent flag leaves the flag, a present field lands exactly,
/// and the identifier never changes. Items other than the updated one are
/// not touched at all.
pub proof fn lemma_update_touches_only_supplied_fields(
    s: Seq<TodoView>,
    i: int,
    title: Option<Seq<char>>,
    completed: Option<bool>,
)
    requires
        0 <= i < s.len(),
    ensures
        s.update(i, apply_update(s[i], title, completed)).len() == s.len(),
        s.update(i, apply_update(s[i], title, completed))[i].id == s[i].id,
        title is None ==> s.update(i, apply_update(s[i], title, completed))[i].title == s[i].title,
        completed is None ==> s.update(i, apply_update(s[i], title, completed))[i].completed == s[
            i
        ].completed,
        title matches Some(new_title) ==> s.update(i, apply_update(s[i], title, completed))[i].title
            == new_title,
        completed matches Some(new_flag) ==> s.update(
            i,
            apply_update(s[i], title, completed),
        )[i].completed == new_flag,
        forall|j: int| 0 <= j < s.len() && j != i ==> s.update(
            i,
            apply_update(s[i], title, completed),
        )[j] == s[j],
{
}

} // verus!
