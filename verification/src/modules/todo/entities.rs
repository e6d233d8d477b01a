//! The rows of the `todos` table, as the service reads and writes them.

use vstd::prelude::*;

verus! {

/// A stored todo: its owner, its category if any, and its creation time as
/// the database prints it.
#[derive(Debug, Clone, PartialEq, Eq)]
pub struct TodoRecord {
    pub id: i32,
    pub title: String,
    pub completed: bool,
    pub user_id: u128,
    pub category_id: Option<u128>,
    pub created_at: String,
}

/// The values of a todo to insert; the database assigns id and creation time.
#[derive(Debug, Clone, PartialEq, Eq)]
pub struct NewTodo {
    pub title: String,
    pub completed: bool,
    pub user_id: u128,
}

/// The row, when it belongs to `user_id`; a row of another user counts as
/// no row at all.
pub open spec fn owned_by(user_id: u128, todo: Option<TodoRecord>) -> Option<TodoRecord> {
    match todo {
        Some(r) => if r.user_id == user_id { Some(r) } else { None },
        None => None,
    }
}

} // verus!
