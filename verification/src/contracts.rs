pub mod todo_stake;
