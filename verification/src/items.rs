//! The task item and the request payload shapes: a new-item request, a
//! partial-update request, and the identifier wrapper used on the wire.

use vstd::prelude::*;

verus! {

/// A request to create a new item: the title it shall carry.
#[derive(Debug, PartialEq)]
pub struct NewTodo {
    pub title: String,
}

/// A partial update: only the fields that are present are applied.
#[derive(Debug)]
pub struct UpdateTodo {
    pub title: Option<String>,
    pub completed: Option<bool>,
}

/// An identifier on its own, as it travels in a creation response.
///
/// Identifiers are opaque 128-bit values generated server-side; their
/// canonical 36-character text form lives in the codec module.
#[derive(Debug, PartialEq)]
pub struct Id {
    pub id: u128,
}

/// One task item: identifier, title, completion flag.
#[derive(Debug, PartialEq)]
pub struct Todo {
    pub id: u128,
    pub title: String,
    pub completed: bool,
}

/// The mathematical value of a [`Todo`]: the identifier, the title's
/// characters, and the flag.
pub struct TodoView {
    pub id: u128,
    pub title: Seq<char>,
    pub completed: bool,
}

impl View for Todo {
    type V = TodoView;

    open spec fn view(&self) -> TodoView {
        TodoView { id: self.id, title: self.title@, completed: self.completed }
    }
}

impl Clone for Todo {
    fn clone(&self) -> (r: Self)
        ensures
            r@ == self@,
    {
        Todo { id: self.id, title: self.title.clone(), completed: self.completed }
    }
}

/// Relies on `uuid::Uuid::new_v4`: a freshly generated random version-4
/// identifier, handed on as its 128 bits. Nothing is promised of the value:
/// callers must treat every outcome as possible.
#[verifier::external_body]
pub(crate) fn random_id_bits() -> u128 {
    uuid::Uuid::new_v4().as_u128()
}

impl Todo {
    /// The item a creation request asks for, under a given identifier: the
    /// requested title and the completion flag down. Everything after the
    /// identifier draw is decided here, for every possible identifier.
    pub fn with_id(id: u128, todo: &NewTodo) -> (r: Self)
        ensures
            r.id == id,
            r.title@ == todo.title@,
            r.completed == false,
    {
        Todo { id, title: todo.title.clone(), completed: false }
    }

    /// Builds the item a creation request asks for: a freshly drawn
    /// server-side identifier, the requested title, and the completion flag
    /// down. The identifier is random; nothing more is known of it.
    pub fn from_new(todo: &NewTodo) -> (r: Self)
        ensures
            r.title@ == todo.title@,
            r.completed == false,
    {
        Todo::with_id(random_id_bits(), todo)
    }
}

} // verus!
