use todo_backend::domains::staking::graphql::StakingMutation;
use todo_backend::json::{get, JsonValue};

fn s(text: &str) -> String {
    text.to_string()
}

fn obj(members: Vec<(&str, JsonValue)>) -> JsonValue {
    JsonValue::Object(members.into_iter().map(|(k, v)| (k.to_string(), v)).collect())
}

fn answer(value: JsonValue) -> JsonValue {
    obj(vec![
        ("jsonrpc", JsonValue::Str(s("2.0"))),
        ("result", obj(vec![("context", obj(vec![("slot", JsonValue::Number(s("82")))])), ("value", value)])),
        ("id", JsonValue::Number(s("1"))),
    ])
}

fn message(r: Result<todo_backend::domains::staking::models::Stake, todo_backend::errors::ApiError>) -> String {
    match r {
        Ok(_) => panic!("expected an error"),
        Err(e) => e.message,
    }
}

#[test]
fn request_asks_for_the_signature_status() {
    let r = StakingMutation::signature_status_request(&s("5VERv8NMvzbJMEkV8xnrLkEaWRtSz9CosKDYjCJjBRnbJLgp8uirBgmQpjKhoR4tjF3ZpRzrFmBV6UjKdiSZkQUW"));
    let JsonValue::Object(members) = r else { panic!("not an object") };
    assert_eq!(members.len(), 4);
    assert_eq!(members[0].0, "jsonrpc");
    assert!(matches!(&members[0].1, JsonValue::Str(v) if v == "2.0"));
    assert_eq!(members[1].0, "id");
    assert!(matches!(&members[1].1, JsonValue::Number(v) if v == "1"));
    assert_eq!(members[2].0, "method");
    assert!(matches!(&members[2].1, JsonValue::Str(v) if v == "getSignatureStatuses"));
    assert_eq!(members[3].0, "params");
    let JsonValue::Array(params) = &members[3].1 else { panic!("params") };
    assert_eq!(params.len(), 2);
    let JsonValue::Array(sigs) = &params[0] else { panic!("signatures") };
    assert!(matches!(&sigs[..], [JsonValue::Str(v)] if v.starts_with("5VERv8")));
    let JsonValue::Object(opts) = &params[1] else { panic!("options") };
    assert_eq!(opts.len(), 1);
    assert_eq!(opts[0].0, "searchTransactionHistory");
    assert!(matches!(opts[0].1, JsonValue::Bool(true)));
}

#[test]
fn statuses_are_result_value() {
    let a = answer(JsonValue::Array(vec![JsonValue::Null, JsonValue::Bool(true)]));
    assert_eq!(StakingMutation::signature_statuses(&a).map(|v| v.len()), Some(2));
    assert!(StakingMutation::signature_statuses(&answer(JsonValue::Null)).is_none());
    assert!(StakingMutation::signature_statuses(&JsonValue::Null).is_none());
    assert!(StakingMutation::signature_statuses(&obj(vec![("error", JsonValue::Null)])).is_none());
}

#[test]
fn json_get_finds_members() {
    let v = obj(vec![("a", JsonValue::Bool(false)), ("b", JsonValue::Bool(true))]);
    assert!(matches!(get(&v, &s("b")), Some(JsonValue::Bool(true))));
    assert!(get(&v, &s("c")).is_none());
    assert!(get(&JsonValue::Array(vec![]), &s("a")).is_none());
}

#[test]
fn stake_confirmed_by_a_status() {
    let m = StakingMutation;
    let status = obj(vec![("confirmationStatus", JsonValue::Str(s("finalized"))), ("err", JsonValue::Null)]);
    let stake = m.stake_on_task(&answer(JsonValue::Array(vec![status])), 77, 1_000_000, s("sig")).ok().unwrap();
    assert_eq!(stake.todo_id, 77);
    assert_eq!(stake.amount_lamports, 1_000_000);
    assert_eq!(stake.status, "staked");
    assert_eq!(stake.tx_signature, "sig");
    assert_ne!(stake.id, stake.user_id);
    assert_eq!(uuid::Uuid::from_u128(stake.id).get_version_num(), 4);
    assert_eq!(uuid::Uuid::from_u128(stake.user_id).get_version_num(), 4);
}

#[test]
fn stake_rejections() {
    let m = StakingMutation;
    assert_eq!(message(m.stake_on_task(&JsonValue::Null, 1, 1, s("x"))), "Invalid RPC response structure");
    assert_eq!(message(m.stake_on_task(&answer(JsonValue::Bool(true)), 1, 1, s("x"))), "Invalid RPC response structure");
    assert_eq!(message(m.stake_on_task(&answer(JsonValue::Array(vec![])), 1, 1, s("x"))), "Transaction not found");
    assert_eq!(
        message(m.stake_on_task(&answer(JsonValue::Array(vec![JsonValue::Null, JsonValue::Bool(true)])), 1, 1, s("x"))),
        "Transaction not found on chain (value is null)"
    );
}

#[test]
fn stake_from_statuses_keeps_given_ids() {
    let statuses = vec![JsonValue::Bool(true)];
    let stake = StakingMutation::stake_from_statuses(Some(&statuses), 1, 2, 3, 4, s("t")).ok().unwrap();
    assert_eq!((stake.id, stake.user_id, stake.todo_id, stake.amount_lamports), (1, 2, 3, 4));
}

#[test]
fn claim_message_names_the_todo() {
    let m = StakingMutation;
    assert_eq!(
        m.claim_stake(0x67e5504410b1426f9247bb680e5fe0c8),
        "Stake claimed for todo 67e55044-10b1-426f-9247-bb680e5fe0c8"
    );
    assert_eq!(m.claim_stake(0), "Stake claimed for todo 00000000-0000-0000-0000-000000000000");
}

#[test]
fn rpc_failure_messages() {
    let m = StakingMutation;
    assert_eq!(m.rpc_unreachable(s("timed out")).message, "RPC connection failed: timed out");
    assert_eq!(m.rpc_unreadable(s("eof")).message, "Failed to parse RPC response: eof");
}
