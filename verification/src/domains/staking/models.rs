//! The stake that backs a todo.

use vstd::prelude::*;

verus! {

/// A stake placed on a todo, confirmed by a transaction on the chain.
pub struct Stake {
    pub id: u128,
    pub user_id: u128,
    pub todo_id: u128,
    pub amount_lamports: u64,
    pub status: String,
    pub tx_signature: String,
}

} // verus!
