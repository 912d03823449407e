//! What the todo service writes for a user's new folders and todos.

use vstd::prelude::*;
use super::models::{CreateTodo, CreateTodoFolder};

verus! {

/// The service that stores folders and todos.
pub struct TodoService;

/// The columns that creating a folder inserts; the database fills in the id,
/// the status and the times.
pub struct FolderRow {
    pub user_id: u128,
    pub name: String,
}

/// The columns that the service inserts for a new todo.
pub struct TodoRow {
    pub user_id: u128,
    pub folder_id: Option<u128>,
    pub title: String,
    pub streak_required: i32,
}

impl TodoService {
    /// The row for a new folder of `user_id`: its name. The input's status is
    /// not stored; the folder starts with the column's default.
    pub fn folder_row(user_id: u128, input: CreateTodoFolder) -> (row: FolderRow)
        ensures
            row.user_id == user_id,
            row.name == input.name,
    {
        FolderRow { user_id, name: input.name }
    }

    /// The row for a new todo of `user_id`: its folder, title and required streak.
    pub fn todo_row(user_id: u128, input: CreateTodo) -> (row: TodoRow)
        ensures
            row.user_id == user_id,
            row.folder_id == input.folder_id,
            row.title == input.title,
            row.streak_required == input.streak_required,
    {
        TodoRow {
            user_id,
            folder_id: input.folder_id,
            title: input.title,
            streak_required: input.streak_required,
        }
    }
}

} // verus!
