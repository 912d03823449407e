pub mod graphql;
pub mod models;
pub mod service;
