//! The decisions of the todo queries and mutations.

use vstd::prelude::*;
use crate::errors::{api_error, ApiError};
use crate::ids::{is_random_uuid, new_uuid};
use crate::utils::authuser::{require_user, AuthUser};
use super::models::{CreateTodo, NewTodo, Todo};

verus! {

/// The todo queries of the GraphQL schema.
pub struct TodoQuery;

/// The todo mutations of the GraphQL schema.
pub struct TodoMutation;

impl TodoQuery {
    /// The user whose todos `my_todos` lists; without one the query is `Unauthorized`.
    pub fn my_todos_owner(&self, user: Option<&AuthUser>) -> (owner: Result<u128, ApiError>)
        ensures
            match user {
                Some(u) => owner == Ok::<u128, ApiError>(u.id),
                None => owner matches Err(e) && e.message@ == "Unauthorized"@,
            },
    {
        require_user(user, "Unauthorized")
    }
}

impl TodoMutation {
    /// The row that `create_todo` inserts for the signed-in user: a fresh id,
    /// the title and required streak of the input, and a streak of 0. The
    /// input's folder is not stored. Without a user the mutation asks to log in.
    pub fn create_todo(&self, user: Option<&AuthUser>, input: CreateTodo) -> (row: Result<NewTodo, ApiError>)
        ensures
            match user {
                Some(u) => row matches Ok(r) && {
                    &&& is_random_uuid(r.id)
                    &&& r.user_id == u.id
                    &&& r.title == input.title
                    &&& r.streak_required == input.streak_required
                    &&& r.streak == 0
                },
                None => row matches Err(e) && e.message@ == "Unauthorized: Please log in"@,
            },
    {
        let user_id = require_user(user, "Unauthorized: Please log in")?;
        Ok(NewTodo {
            id: new_uuid(),
            user_id,
            title: input.title,
            streak_required: input.streak_required,
            streak: 0,
        })
    }

    /// The user on whose behalf `mark_completed` and `delete_todo` act.
    pub fn acting_user(&self, user: Option<&AuthUser>) -> (id: Result<u128, ApiError>)
        ensures
            match user {
                Some(u) => id == Ok::<u128, ApiError>(u.id),
                None => id matches Err(e) && e.message@ == "Unauthorized"@,
            },
    {
        require_user(user, "Unauthorized")
    }

    /// The answer of `mark_completed`: the updated todo, or an error when no
    /// todo of that id belongs to the user.
    pub fn mark_completed(&self, updated: Option<Todo>) -> (res: Result<Todo, ApiError>)
        ensures
            match updated {
                Some(t) => res == Ok::<Todo, ApiError>(t),
                None => res matches Err(e) && e.message@ == "Todo not found or authorized"@,
            },
    {
        match updated {
            Some(t) => Ok(t),
            None => Err(api_error("Todo not found or authorized")),
        }
    }

    /// The answer of `delete_todo` once the delete has run: `true` when a row
    /// went, an error when no todo of that id belongs to the user.
    pub fn delete_todo(&self, rows_affected: u64) -> (res: Result<bool, ApiError>)
        ensures
            rows_affected > 0 ==> res == Ok::<bool, ApiError>(true),
            rows_affected == 0 ==> (res matches Err(e) && e.message@ == "Todo not found or authorized"@),
    {
        if rows_affected == 0 {
            return Err(api_error("Todo not found or authorized"));
        }
        Ok(true)
    }
}

} // verus!
