//! The GraphQL schema's roots.

pub mod query;

use vstd::prelude::*;
use crate::domains::auth::graphql::AuthMutation;
use crate::domains::staking::graphql::StakingMutation;
use crate::domains::todo::graphql::{TodoMutation, TodoQuery};

verus! {

/// The query root: the todo queries.
pub struct QueryRoot(pub TodoQuery);

/// The mutation root: sign-up and sign-in, todos, and staking.
pub struct MutationRoot(pub AuthMutation, pub TodoMutation, pub StakingMutation);

} // verus!
