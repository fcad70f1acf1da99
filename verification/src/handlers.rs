//! The protocol adapter: each handler performs exactly one store operation
//! and fixes the response — status code and body shape — for every outcome.
//! Transport plumbing (routing, JSON framing) stays outside; handlers take
//! and return plain values.

use vstd::prelude::*;

use crate::items::Id;
use crate::items::NewTodo;
use crate::items::Todo;
use crate::items::TodoView;
use crate::items::UpdateTodo;
use crate::store::apply_update;
use crate::store::has_id;
use crate::store::is_first_match;
use crate::store::update_title;
use crate::store::views_of;
use crate::store::Store;

verus! {

/// What a handler answers: the body shape determines the status code.
pub enum ApiResponse {
    /// Every item, in insertion order; status 200.
    OkItems(Vec<Todo>),
    /// One item; status 200.
    OkItem(Todo),
    /// Success with an empty body; status 200.
    OkEmpty,
    /// The identifier of a created item; status 201.
    Created(Id),
    /// The addressed identifier is absent; status 404.
    NotFound,
}

impl ApiResponse {
    /// The status code owed to each response shape.
    pub open spec fn spec_status(&self) -> u16 {
        match self {
            ApiResponse::OkItems(_) => 200,
            ApiResponse::OkItem(_) => 200,
            ApiResponse::OkEmpty => 200,
            ApiResponse::Created(_) => 201,
            ApiResponse::NotFound => 404,
        }
    }

    /// The HTTP status code this response travels under.
    pub fn status(&self) -> (r: u16)
        ensures
            r == self.spec_status(),
    {
        match self {
            ApiResponse::OkItems(_) => 200,
            ApiResponse::OkItem(_) => 200,
            ApiResponse::OkEmpty => 200,
            ApiResponse::Created(_) => 201,
            ApiResponse::NotFound => 404,
        }
    }
}

/// Lists every item: always succeeds with a snapshot in insertion order.
pub fn list_todos(store: &Store) -> (r: ApiResponse)
    ensures
        r matches ApiResponse::OkItems(items) && views_of(items@) == store@,
{
    ApiResponse::OkItems(store.list())
}

/// Clears the whole collection: always succeeds with an empty body.
pub fn clear_todos(store: &mut Store) -> (r: ApiResponse)
    ensures
        r is OkEmpty,
        final(store)@ == Seq::<TodoView>::empty(),
{
    store.clear();
    ApiResponse::OkEmpty
}

/// Fetches the item addressed by `id`, or answers 404 when the identifier is
/// unknown; the store is read, never changed.
pub fn get_todo(store: &Store, id: u128) -> (r: ApiResponse)
    ensures
        has_id(store@, id) ==> (r matches ApiResponse::OkItem(t) && exists|i: int|
            #[trigger] is_first_match(store@, id, i) && t@ == store@[i]),
        !has_id(store@, id) ==> r is NotFound,
{
    match store.get(id) {
        Some(t) => ApiResponse::OkItem(t),
        None => ApiResponse::NotFound,
    }
}

/// Creates an item with the requested title and answers 201 with its
/// identifier; the item is appended at the end with completion down.
pub fn add_todo(store: &mut Store, todo: &NewTodo) -> (r: ApiResponse)
    ensures
        r matches ApiResponse::Created(c) && final(store)@ == old(store)@.push(
            TodoView { id: c.id, title: todo.title@, completed: false },
        ),
{
    let created = store.add(todo);
    ApiResponse::Created(Id { id: created.id })
}

/// Applies a partial update to the item addressed by `id`, or answers 404
/// and changes nothing when the identifier is unknown.
pub fn update_todo(store: &mut Store, id: u128, upd: &UpdateTodo) -> (r: ApiResponse)
    ensures
        has_id(old(store)@, id) ==> r is OkEmpty && exists|i: int|
            #[trigger] is_first_match(old(store)@, id, i) && final(store)@ == old(store)@.update(
                i,
                apply_update(old(store)@[i], update_title(upd), upd.completed),
            ),
        !has_id(old(store)@, id) ==> r is NotFound && final(store)@ == old(store)@,
{
    match store.update(id, upd) {
        Ok(_) => ApiResponse::OkEmpty,
        Err(_) => ApiResponse::NotFound,
    }
}

/// Deletes the item addressed by `id`, or answers 404 and changes nothing
/// when the identifier is unknown.
pub fn delete_todo(store: &mut Store, id: u128) -> (r: ApiResponse)
    ensures
        has_id(old(store)@, id) ==> r is OkEmpty && exists|i: int|
            #[trigger] is_first_match(old(store)@, id, i) && final(store)@ == old(store)@.remove(i),
        !has_id(old(store)@, id) ==> r is NotFound && final(store)@ == old(store)@,
{
    match store.delete(id) {
        Ok(_) => ApiResponse::OkEmpty,
        Err(_) => ApiResponse::NotFound,
    }
}

} // verus!
