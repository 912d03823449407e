//! The todo records of the REST routes.

use vstd::prelude::*;

verus! {

/// `chrono::NaiveDateTime`, carried through unchanged as a creation time.
#[verifier::external_type_specification]
#[verifier::external_body]
pub struct ExNaiveDateTime(chrono::NaiveDateTime);

/// Where a todo stands; stored in the `todo_status` column as the lower-case name.
#[derive(Debug, Clone, Copy, PartialEq, Eq, Structural)]
pub enum TodoStatus {
    Active,
    Paused,
    Completed,
}

/// A todo row. `last_completed` is the day number of the last completion.
pub struct Todo {
    pub id: u128,
    pub user_id: u128,
    pub title: String,
    pub streak: i32,
    pub last_completed: Option<i32>,
    pub streak_required: i32,
    pub status: TodoStatus,
    pub created_at: chrono::NaiveDateTime,
}

} // verus!
