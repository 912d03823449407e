//! The streak rule of the `complete` route.

use vstd::prelude::*;
use crate::calendar::{is_calendar_day, previous_day, MIN_DAY};
use crate::errors::AppError;
use crate::models::todo::Todo;

verus! {

/// The streak after completing a todo on `today`: unchanged when it was already
/// completed today, one longer when it was completed yesterday, and 1 otherwise.
pub open spec fn streak_after(last_completed: Option<i32>, today: i32, streak: i32) -> int {
    match last_completed {
        Some(day) => if day == today {
            streak as int
        } else if day == today - 1 {
            streak + 1
        } else {
            1
        },
        None => 1,
    }
}

/// Completing on `today` is defined: `today` is a calendar day, the day before
/// it exists whenever it is consulted, and a continued streak does not overflow.
pub open spec fn can_complete(last_completed: Option<i32>, today: i32, streak: i32) -> bool {
    &&& is_calendar_day(today as int)
    &&& (last_completed matches Some(day) && day != today) ==> MIN_DAY < today
    &&& last_completed == Some((today - 1) as i32) ==> streak < i32::MAX
}

/// The new streak of a todo completed on `today`.
pub fn next_streak(last_completed: Option<i32>, today: i32, streak: i32) -> (next: i32)
    requires
        can_complete(last_completed, today, streak),
    ensures
        next == streak_after(last_completed, today, streak),
{
    match last_completed {
        Some(day) => {
            if day == today {
                streak
            } else {
                match previous_day(today) {
                    Some(yesterday) => {
                        if day == yesterday {
                            streak + 1
                        } else {
                            1
                        }
                    },
                    None => 1,
                }
            }
        },
        None => 1,
    }
}

/// The row that completing `todo` on `today` writes back: the new streak,
/// and `today` as the last completion; every other column is kept.
pub open spec fn completed_on(todo: Todo, today: i32) -> Todo {
    Todo {
        streak: streak_after(todo.last_completed, today, todo.streak) as i32,
        last_completed: Some(today),
        ..todo
    }
}

/// Completes the todo that the lookup by id and owner found, on `today`.
///
/// A todo that the lookup did not find is answered with `NotFound`.
pub fn complete_todo(found: Option<Todo>, today: i32) -> (res: Result<Todo, AppError>)
    requires
        found matches Some(todo) ==> can_complete(todo.last_completed, today, todo.streak),
    ensures
        match found {
            None => res == Err::<Todo, AppError>(AppError::NotFound),
            Some(todo) => res == Ok::<Todo, AppError>(completed_on(todo, today)),
        },
{
    match found {
        None => Err(AppError::NotFound),
        Some(mut todo) => {
            todo.streak = next_streak(todo.last_completed, today, todo.streak);
            todo.last_completed = Some(today);
            Ok(todo)
        },
    }
}

/// Completing a todo a second time on the same day changes nothing.
pub proof fn lemma_complete_same_day_idempotent(todo: Todo, today: i32)
    requires
        can_complete(todo.last_completed, today, todo.streak),
    ensures
        completed_on(completed_on(todo, today), today) == completed_on(todo, today),
{
}

/// Completing on the day after a completion makes the streak one longer.
pub proof fn lemma_complete_next_day_extends(todo: Todo, today: i32)
    requires
        can_complete(todo.last_completed, today, todo.streak),
        MIN_DAY <= today < crate::calendar::MAX_DAY,
        streak_after(todo.last_completed, today, todo.streak) < i32::MAX,
    ensures
        can_complete(completed_on(todo, today).last_completed, (today + 1) as i32, completed_on(todo, today).streak),
        completed_on(completed_on(todo, today), (today + 1) as i32).streak
            == completed_on(todo, today).streak + 1,
{
}

/// Completing after a gap of more than one day restarts the streak at 1.
pub proof fn lemma_complete_after_gap_restarts(todo: Todo, today: i32)
    requires
        can_complete(todo.last_completed, today, todo.streak),
        todo.last_completed matches Some(day) && day < today - 1,
    ensures
        completed_on(todo, today).streak == 1,
{
}

/// A completion records today as the last completion day and keeps the
/// todo's id, owner, title, required streak, status and creation time; a todo
/// never completed before starts a streak of 1.
pub proof fn lemma_completion_records_today(todo: Todo, today: i32)
    ensures
        completed_on(todo, today).last_completed == Some(today),
        completed_on(todo, today).id == todo.id,
        completed_on(todo, today).user_id == todo.user_id,
        completed_on(todo, today).title == todo.title,
        completed_on(todo, today).streak_required == todo.streak_required,
        completed_on(todo, today).status == todo.status,
        completed_on(todo, today).created_at == todo.created_at,
        todo.last_completed is None ==> completed_on(todo, today).streak == 1,
{
}

} // verus!
