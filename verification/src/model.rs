//! The todo entity: one remote task record, immutable once constructed.

use vstd::prelude::*;

verus! {

/// One task record as fetched from the backend. A value is built once from a
/// decoded response element and never mutated; the state machine replaces its
/// whole collection on each successful fetch.
#[derive(Clone, Debug, PartialEq)]
pub struct Todo {
    pub user_id: u64,
    pub id: u64,
    pub title: String,
    pub completed: bool,
}

impl Todo {
    /// Builds a record from its four plain fields.
    pub fn new(user_id: u64, id: u64, title: String, completed: bool) -> (r: Todo)
        ensures
            r.user_id == user_id,
            r.id == id,
            r.title@ == title@,
            r.completed == completed,
    {
        Todo { user_id, id, title, completed }
    }
}

} // verus!
