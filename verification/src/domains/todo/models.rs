//! Todos and their folders, as the GraphQL schema shows them.

use vstd::prelude::*;

verus! {

/// Where a todo stands; stored in the `todo_status` column in snake case.
#[derive(Debug, Clone, Copy, PartialEq, Eq, Structural)]
pub enum TodoStatus {
    Open,
    Completed,
}

/// Whether a folder is in use; stored in the `folder_status` column in snake case.
#[derive(Debug, Clone, Copy, PartialEq, Eq, Structural)]
pub enum FolderStatus {
    Active,
    Archived,
}

/// The input that creates a folder.
pub struct CreateTodoFolder {
    pub name: String,
    pub status: FolderStatus,
}

/// A todo row. `last_completed` is the day number of the last completion.
pub struct Todo {
    pub id: u128,
    pub user_id: u128,
    pub folder_id: Option<u128>,
    pub title: String,
    pub streak: i32,
    pub last_completed: Option<i32>,
    pub streak_required: i32,
    pub created_at: chrono::NaiveDateTime,
    pub status: TodoStatus,
}

/// The input that creates a todo.
pub struct CreateTodo {
    pub title: String,
    pub folder_id: Option<u128>,
    pub streak_required: i32,
}

/// The columns that creating a todo inserts; the database fills in the rest.
pub struct NewTodo {
    pub id: u128,
    pub user_id: u128,
    pub title: String,
    pub streak_required: i32,
    pub streak: i32,
}

} // verus!
