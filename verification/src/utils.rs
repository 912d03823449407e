pub mod authuser;
pub mod decimal;
pub mod jwt;
