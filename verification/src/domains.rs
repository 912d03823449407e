pub mod staking;
pub mod auth;
pub mod todo;
