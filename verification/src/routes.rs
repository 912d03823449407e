pub mod todos;
pub mod auth;
