//! An in-memory task-list service: a store of short text items ("todos"),
//! each with a unique identifier and a completion flag, together with the
//! request-handling layer that maps CRUD requests onto the store.

pub mod codec;
pub mod handlers;
pub mod items;
pub mod laws;
pub mod store;

pub use items::Id;
pub use items::NewTodo;
pub use items::Todo;
pub use items::UpdateTodo;
