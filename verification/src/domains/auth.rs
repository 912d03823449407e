pub mod graphql;
pub mod models;
