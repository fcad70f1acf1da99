//! The in-memory store: an ordered collection of items, insertion order
//! preserved, addressed by identifier. Lookups act on the first item whose
//! identifier matches, so behaviour stays deterministic even if duplicate
//! identifiers were ever forced in from outside.

use vstd::prelude::*;

use crate::items::NewTodo;
use crate::items::Todo;
use crate::items::TodoView;
use crate::items::UpdateTodo;

verus! {

/// The outcome of an operation that addresses one item by identifier and
/// finds none: the collection is left untouched.
#[derive(Clone, Copy, Debug, PartialEq, Eq, Structural)]
pub enum StoreError {
    NotFound,
}

/// The items of `v`, as mathematical values, in the same order.
pub open spec fn views_of(v: Seq<Todo>) -> Seq<TodoView> {
    v.map_values(|t: Todo| t@)
}

/// Some item of `s` carries the identifier `id`.
pub open spec fn has_id(s: Seq<TodoView>, id: u128) -> bool {
    exists|i: int| 0 <= i < s.len() && s[i].id == id
}

/// Index `i` is the first position of `s` whose item carries `id`.
pub open spec fn is_first_match(s: Seq<TodoView>, id: u128, i: int) -> bool {
    &&& 0 <= i < s.len()
    &&& s[i].id == id
    &&& forall|j: int| 0 <= j < i ==> s[j].id != id
}

/// No two items of `s` share an identifier.
pub open spec fn unique_ids(s: Seq<TodoView>) -> bool {
    forall|i: int, j: int| 0 <= i < j < s.len() ==> s[i].id != s[j].id
}

/// The title carried by a partial-update request, if one is present.
pub open spec fn update_title(u: &UpdateTodo) -> Option<Seq<char>> {
    match u.title {
        Some(t) => Some(t@),
        None => None,
    }
}

/// What a partial update makes of one item: a field present in the request
/// replaces the item's, an absent field leaves it unchanged; the identifier
/// never changes.
pub open spec fn apply_update(
    t: TodoView,
    title: Option<Seq<char>>,
    completed: Option<bool>,
) -> TodoView {
    TodoView {
        id: t.id,
        title: match title {
            Some(s) => s,
            None => t.title,
        },
        completed: match completed {
            Some(c) => c,
            None => t.completed,
        },
    }
}

/// The store: the ordered collection of items, the sole source of truth.
/// Mutation goes only through the operations below; its value is the
/// sequence of item views, in insertion order.
pub struct Store {
    items: Vec<Todo>,
}

impl View for Store {
    type V = Seq<TodoView>;

    closed spec fn view(&self) -> Seq<TodoView> {
        views_of(self.items@)
    }
}

impl Store {
    /// An empty store.
    pub fn new() -> (r: Store)
        ensures
            r@ == Seq::<TodoView>::empty(),
    {
        let r = Store { items: Vec::new() };
        proof {
            assert(r@ =~= Seq::<TodoView>::empty());
        }
        r
    }

    /// A snapshot copy of every item, in insertion order.
    pub fn list(&self) -> (r: Vec<Todo>)
        ensures
            views_of(r@) == self@,
    {
        let mut out: Vec<Todo> = Vec::new();
        let n: usize = self.items.len();
        let mut i: usize = 0;
        while i < n
            invariant
                n == self.items.len(),
                i <= n,
                out@.len() == i,
                forall|j: int| 0 <= j < i ==> out@[j]@ == self.items@[j]@,
            decreases n - i,
        {
            out.push(self.items[i].clone());
            i += 1;
        }
        proof {
            assert(views_of(out@) =~= self@);
        }
        out
    }

    /// Empties the collection; every prior item becomes unreachable.
    pub fn clear(&mut self)
        ensures
            final(self)@ == Seq::<TodoView>::empty(),
    {
        self.items.clear();
        proof {
            assert(self@ =~= Seq::<TodoView>::empty());
        }
    }

    /// The position of the first item carrying `id`, if any.
    fn index_of(&self, id: u128) -> (r: Option<usize>)
        ensures
            match r {
                Some(i) => is_first_match(self@, id, i as int),
                None => !has_id(self@, id),
            },
    {
        let n: usize = self.items.len();
        let mut i: usize = 0;
        while i < n
            invariant
                n == self.items.len(),
                i <= n,
                forall|j: int| 0 <= j < i ==> self@[j].id != id,
            decreases n - i,
        {
            if self.items[i].id == id {
                assert(self@[i as int].id == id);
                return Some(i);
            }
            i += 1;
        }
        None
    }

    /// A copy of the first item carrying `id`, or `None` when no item does.
    pub fn get(&self, id: u128) -> (r: Option<Todo>)
        ensures
            r is Some ==> exists|i: int|
                #[trigger] is_first_match(self@, id, i) && r->0@ == self@[i],
            r is None <==> !has_id(self@, id),
    {
        match self.index_of(id) {
            Some(i) => {
                let t = self.items[i].clone();
                proof {
                    assert(is_first_match(self@, id, i as int) && t@ == self@[i as int]);
                }
                Some(t)
            },
            None => None,
        }
    }

    /// Appends the item a creation request asks for, under a given
    /// identifier, and returns a copy of it. Everything after the identifier
    /// draw is decided here, exactly, for every possible identifier: when the
    /// identifier is held by no current item, uniqueness of identifiers is
    /// preserved.
    pub fn add_with_id(&mut self, id: u128, todo: &NewTodo) -> (r: Todo)
        ensures
            r.id == id,
            r.title@ == todo.title@,
            r.completed == false,
            final(self)@ == old(self)@.push(r@),
            unique_ids(old(self)@) && !has_id(old(self)@, id) ==> unique_ids(final(self)@),
    {
        let t = Todo::with_id(id, todo);
        let ghost pre = self@;
        let r = t.clone();
        self.items.push(t);
        proof {
            assert(self@ =~= pre.push(r@));
            if unique_ids(pre) && !has_id(pre, id) {
                assert forall|i: int, j: int|
                    0 <= i < j < self@.len() implies self@[i].id != self@[j].id by {
                    if j == pre.len() as int {
                        assert(self@[i] == pre[i]);
                    }
                }
            }
        }
        r
    }

    /// Creates an item for the request: a freshly drawn identifier, the
    /// requested title, completion down; appends it at the end and returns a
    /// copy, identifier included. The identifier is random, so nothing here
    /// can promise it fresh; everything else is pinned down, and
    /// [`Store::add_with_id`] says what happens for every draw.
    pub fn add(&mut self, todo: &NewTodo) -> (r: Todo)
        ensures
            r.title@ == todo.title@,
            r.completed == false,
            final(self)@ == old(self)@.push(r@),
            unique_ids(old(self)@) && !has_id(old(self)@, r.id) ==> unique_ids(final(self)@),
    {
        self.add_with_id(crate::items::random_id_bits(), todo)
    }

    /// Applies a partial update to the first item carrying `id`: only the
    /// fields present in the request change, atomically, and nothing else
    /// moves. When no item carries `id`, reports `NotFound` and leaves the
    /// collection exactly as it was.
    pub fn update(&mut self, id: u128, upd: &UpdateTodo) -> (r: Result<(), StoreError>)
        ensures
            r is Ok <==> has_id(old(self)@, id),
            r is Ok ==> exists|i: int|
                #[trigger] is_first_match(old(self)@, id, i) && final(self)@ == old(self)@.update(
                    i,
                    apply_update(old(self)@[i], update_title(upd), upd.completed),
                ),
            r is Err ==> r == Err::<(), StoreError>(StoreError::NotFound) && final(self)@ == old(
                self,
            )@,
            unique_ids(old(self)@) ==> unique_ids(final(self)@),
    {
        match self.index_of(id) {
            Some(i) => {
                let ghost pre = self@;
                let old_item = self.items.remove(i);
                let new_title = match &upd.title {
                    Some(t) => t.clone(),
                    None => old_item.title,
                };
                let new_completed = match upd.completed {
                    Some(c) => c,
                    None => old_item.completed,
                };
                let new_item = Todo { id: old_item.id, title: new_title, completed: new_completed };
                self.items.insert(i, new_item);
                proof {
                    assert(self@ =~= pre.update(
                        i as int,
                        apply_update(pre[i as int], update_title(upd), upd.completed),
                    ));
                    assert(is_first_match(pre, id, i as int));
                }
                Ok(())
            },
            None => Err(StoreError::NotFound),
        }
    }

    /// Removes the first item carrying `id`; the remaining items keep their
    /// relative order with no gap. When no item carries `id`, reports
    /// `NotFound` and leaves the collection exactly as it was.
    pub fn delete(&mut self, id: u128) -> (r: Result<(), StoreError>)
        ensures
            r is Ok <==> has_id(old(self)@, id),
            r is Ok ==> exists|i: int|
                #[trigger] is_first_match(old(self)@, id, i) && final(self)@ == old(self)@.remove(i),
            r is Err ==> r == Err::<(), StoreError>(StoreError::NotFound) && final(self)@ == old(
                self,
            )@,
            unique_ids(old(self)@) ==> unique_ids(final(self)@),
    {
        match self.index_of(id) {
            Some(i) => {
                let ghost pre = self@;
                let _ = self.items.remove(i);
                proof {
                    assert(self@ =~= pre.remove(i as int));
                    assert(is_first_match(pre, id, i as int));
                }
                Ok(())
            },
            None => Err(StoreError::NotFound),
        }
    }
}

} // verus!
