//! Verified core of a streak-tracking todo service with on-chain staking.
//!
//! Dates are day numbers counted from the common era (day 1 is 0001-01-01),
//! identifiers are 128-bit values, and every request handler is split into
//! the part that talks to the database or the network (outside this crate)
//! and the decision it makes, which stands here with its contract.

pub mod calendar;
pub mod contracts;
pub mod domains;
pub mod errors;
pub mod graphql;
pub mod ids;
pub mod json;
pub mod models;
pub mod routes;
pub mod setup_db;
pub mod utils;
