//! Staking on a todo: the JSON-RPC question put to the chain and what its answer decides.

use vstd::prelude::*;
use crate::errors::{api_error, ApiError};
use crate::ids::{is_random_uuid, new_uuid, uuid_string, uuid_text};
use crate::json::{get, json_get, JsonValue};
use super::models::Stake;

verus! {

/// The staking mutations of the GraphQL schema.
pub struct StakingMutation;

/// `r` is the `getSignatureStatuses` request for the signature `sig`:
/// `{"jsonrpc": "2.0", "id": 1, "method": "getSignatureStatuses",
///   "params": [[sig], {"searchTransactionHistory": true}]}`.
pub open spec fn is_signature_status_request(r: JsonValue, sig: Seq<char>) -> bool {
    &&& r matches JsonValue::Object(f)
    &&& f@.len() == 4
    &&& f@[0].0@ == "jsonrpc"@ && (f@[0].1 matches JsonValue::Str(v) && v@ == "2.0"@)
    &&& f@[1].0@ == "id"@ && (f@[1].1 matches JsonValue::Number(n) && n@ == "1"@)
    &&& f@[2].0@ == "method"@ && (f@[2].1 matches JsonValue::Str(m) && m@ == "getSignatureStatuses"@)
    &&& f@[3].0@ == "params"@
    &&& f@[3].1 matches JsonValue::Array(p)
    &&& p@.len() == 2
    &&& p@[0] matches JsonValue::Array(sigs)
    &&& sigs@.len() == 1
    &&& (sigs@[0] matches JsonValue::Str(s) && s@ == sig)
    &&& p@[1] matches JsonValue::Object(opts)
    &&& opts@.len() == 1
    &&& opts@[0].0@ == "searchTransactionHistory"@
    &&& opts@[0].1 == JsonValue::Bool(true)
}

/// The statuses that an RPC answer lists: `result.value`, when it is an array.
pub open spec fn rpc_statuses(response: JsonValue) -> Option<Seq<JsonValue>> {
    match json_get(response, "result"@) {
        Some(result) => match json_get(result, "value"@) {
            Some(JsonValue::Array(items)) => Some(items@),
            _ => None,
        },
        None => None,
    }
}

/// Why the statuses do not confirm the transaction, or `None` when they do:
/// an answer of the wrong shape, no status, or a first status that is `null`.
pub open spec fn stake_rejection(statuses: Option<Seq<JsonValue>>) -> Option<Seq<char>> {
    match statuses {
        None => Some("Invalid RPC response structure"@),
        Some(s) => if s.len() == 0 {
            Some("Transaction not found"@)
        } else if s[0] is Null {
            Some("Transaction not found on chain (value is null)"@)
        } else {
            None
        },
    }
}

impl StakingMutation {
    /// The JSON-RPC request that asks the chain for the status of `tx_signature`,
    /// searching the whole transaction history.
    pub fn signature_status_request(tx_signature: &String) -> (request: JsonValue)
        ensures
            is_signature_status_request(request, tx_signature@),
    {
        let options = vec![(String::from_str("searchTransactionHistory"), JsonValue::Bool(true))];
        let params = vec![
            JsonValue::Array(vec![JsonValue::Str(tx_signature.clone())]),
            JsonValue::Object(options),
        ];
        JsonValue::Object(
            vec![
                (String::from_str("jsonrpc"), JsonValue::Str(String::from_str("2.0"))),
                (String::from_str("id"), JsonValue::Number(String::from_str("1"))),
                (String::from_str("method"), JsonValue::Str(String::from_str("getSignatureStatuses"))),
                (String::from_str("params"), JsonValue::Array(params)),
            ],
        )
    }

    /// The statuses listed in an RPC answer, `result.value`, if that is an array.
    pub fn signature_statuses(response: &JsonValue) -> (statuses: Option<&Vec<JsonValue>>)
        ensures
            match statuses {
                Some(s) => rpc_statuses(*response) == Some(s@),
                None => rpc_statuses(*response) is None,
            },
    {
        let result_key = String::from_str("result");
        let value_key = String::from_str("value");
        match get(response, &result_key) {
            Some(result) => match get(result, &value_key) {
                Some(JsonValue::Array(items)) => Some(items),
                _ => None,
            },
            None => None,
        }
    }

    /// The stake recorded for a transaction whose statuses are `statuses`, or
    /// the error that rejects it; the stake is `staked` under the given ids.
    pub fn stake_from_statuses(
        statuses: Option<&Vec<JsonValue>>,
        id: u128,
        user_id: u128,
        todo_id: u128,
        amount_lamports: u64,
        tx_signature: String,
    ) -> (res: Result<Stake, ApiError>)
        ensures
            match stake_rejection(match statuses { Some(s) => Some(s@), None => None }) {
                Some(message) => res matches Err(e) && e.message@ == message,
                None => res matches Ok(stake) && {
                    &&& stake.id == id
                    &&& stake.user_id == user_id
                    &&& stake.todo_id == todo_id
                    &&& stake.amount_lamports == amount_lamports
                    &&& stake.status@ == "staked"@
                    &&& stake.tx_signature == tx_signature
                },
            },
    {
        match statuses {
            None => Err(api_error("Invalid RPC response structure")),
            Some(list) => {
                if list.len() == 0 {
                    return Err(api_error("Transaction not found"));
                }
                if let JsonValue::Null = &list[0] {
                    return Err(api_error("Transaction not found on chain (value is null)"));
                }
                Ok(Stake {
                    id,
                    user_id,
                    todo_id,
                    amount_lamports,
                    status: String::from_str("staked"),
                    tx_signature,
                })
            },
        }
    }

    /// Records a stake on `todo_id` once the chain's answer to the status request
    /// confirms `tx_signature`. The stake and the staking user get fresh random ids.
    pub fn stake_on_task(&self, response: &JsonValue, todo_id: u128, amount_lamports: u64, tx_signature: String) -> (res: Result<Stake, ApiError>)
        ensures
            match stake_rejection(rpc_statuses(*response)) {
                Some(message) => res matches Err(e) && e.message@ == message,
                None => res matches Ok(stake) && {
                    &&& is_random_uuid(stake.id)
                    &&& is_random_uuid(stake.user_id)
                    &&& stake.todo_id == todo_id
                    &&& stake.amount_lamports == amount_lamports
                    &&& stake.status@ == "staked"@
                    &&& stake.tx_signature == tx_signature
                },
            },
    {
        let statuses = Self::signature_statuses(response);
        let id = new_uuid();
        let user_id = new_uuid();
        Self::stake_from_statuses(statuses, id, user_id, todo_id, amount_lamports, tx_signature)
    }

    /// The error when the chain's RPC endpoint cannot be reached.
    pub fn rpc_unreachable(&self, reason: String) -> (e: ApiError)
        ensures
            e.message@ == "RPC connection failed: "@ + reason@,
    {
        let prefix = String::from_str("RPC connection failed: ");
        ApiError { message: prefix.concat(reason.as_str()) }
    }

    /// The error when the chain's answer is not JSON.
    pub fn rpc_unreadable(&self, reason: String) -> (e: ApiError)
        ensures
            e.message@ == "Failed to parse RPC response: "@ + reason@,
    {
        let prefix = String::from_str("Failed to parse RPC response: ");
        ApiError { message: prefix.concat(reason.as_str()) }
    }

    /// The answer to claiming the stake of a todo: `Stake claimed for todo <id>`.
    pub fn claim_stake(&self, todo_id: u128) -> (message: String)
        ensures
            message@ == "Stake claimed for todo "@ + uuid_text(todo_id),
    {
        let id = uuid_string(todo_id);
        let message = String::from_str("Stake claimed for todo ");
        message.concat(id.as_str())
    }
}

/// The chain's answer is refused exactly when it lists no statuses in
/// `result.value` or its first status is `null`: any other first status,
/// whatever members it holds, confirms the transaction.
pub proof fn lemma_stake_refused_exactly_without_status(statuses: Option<Seq<JsonValue>>)
    ensures
        stake_rejection(statuses) is None <==> (statuses matches Some(s) && s.len() > 0 && !(s[0] is Null)),
        statuses is None ==> stake_rejection(statuses) == Some("Invalid RPC response structure"@),
        (statuses matches Some(s) && s.len() == 0) ==> stake_rejection(statuses) == Some("Transaction not found"@),
        (statuses matches Some(s) && s.len() > 0 && s[0] is Null)
            ==> stake_rejection(statuses) == Some("Transaction not found on chain (value is null)"@),
{
}

/// The statuses of an answer are the array at `result.value`.
pub proof fn lemma_statuses_are_result_value(response: JsonValue, result: JsonValue, items: Vec<JsonValue>)
    requires
        json_get(response, "result"@) == Some(result),
        json_get(result, "value"@) == Some(JsonValue::Array(items)),
    ensures
        rpc_statuses(response) == Some(items@),
{
}

/// An answer without `result.value`, or whose `result.value` is not an array, lists no statuses.
pub proof fn lemma_no_statuses_without_array(response: JsonValue)
    requires
        !(exists|result: JsonValue, items: Vec<JsonValue>|
            json_get(response, "result"@) == Some(result) && json_get(result, "value"@) == Some(JsonValue::Array(items))),
    ensures
        rpc_statuses(response) is None,
{
    match json_get(response, "result"@) {
        Some(result) => match json_get(result, "value"@) {
            Some(JsonValue::Array(items)) => {
                assert(json_get(response, "result"@) == Some(result) && json_get(result, "value"@) == Some(JsonValue::Array(items)));
            },
            _ => {},
        },
        None => {},
    }
}

} // verus!
