//! The service's health query.

use vstd::prelude::*;

verus! {

/// The query root that answers the health check.
pub struct QueryRoot;

impl QueryRoot {
    /// The health check's answer: `OK`.
    pub fn health(&self) -> (status: &'static str)
        ensures
            status@ == "OK"@,
    {
        "OK"
    }
}

} // verus!
