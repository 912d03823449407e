use todo_backend::contracts::todo_stake::{same_key, stake_account_space, Payee, StakeAccount, StakeError, StakeProgram, StakeStatus};
use todo_backend::setup_db::schema_commands;

#[test]
fn stake_account_space_formula() {
    assert_eq!(stake_account_space(""), 54);
    assert_eq!(stake_account_space("67e55044-10b1-426f-9247-bb680e5fe0c8"), 90);
    assert_eq!(stake_account_space("é"), 56);
}

#[test]
fn stake_creates_active_account() {
    let a = StakeAccount::stake([1; 32], "t1".to_string(), 500, 254);
    assert_eq!(a.owner, [1; 32]);
    assert_eq!(a.todo_id, "t1");
    assert_eq!(a.amount, 500);
    assert_eq!(a.status, StakeStatus::Active);
    assert_eq!(a.bump, 254);
}

const USER: [u8; 32] = [1; 32];
const AUTHORITY: [u8; 32] = [7; 32];
const TREASURY: [u8; 32] = [9; 32];

fn program() -> StakeProgram {
    StakeProgram { authority: AUTHORITY, treasury: TREASURY }
}

fn staked() -> StakeAccount {
    StakeAccount::stake(USER, "t1".to_string(), 500, 254)
}

#[test]
fn resolve_success_pays_user() {
    let mut a = staked();
    assert_eq!(a.resolve(&program(), &USER, &TREASURY, &AUTHORITY, true), Ok(Payee::User));
    assert_eq!(a.status, StakeStatus::ResolvedSuccess);
    assert_eq!(a.amount, 500);
}

#[test]
fn resolve_failure_pays_treasury() {
    let mut a = staked();
    assert_eq!(a.resolve(&program(), &USER, &TREASURY, &AUTHORITY, false), Ok(Payee::Treasury));
    assert_eq!(a.status, StakeStatus::ResolvedFailure);
}

#[test]
fn resolve_for_stranger_is_refused() {
    let mut a = staked();
    let mut other = USER;
    other[31] = 2;
    assert_eq!(a.resolve(&program(), &other, &TREASURY, &AUTHORITY, true), Err(StakeError::OwnerMismatch));
    assert_eq!(a.status, StakeStatus::Active);
    assert!(!same_key(&USER, &other));
    assert!(same_key(&other, &other));
}

#[test]
fn resolve_needs_the_authority_and_the_treasury() {
    let mut a = staked();
    assert_eq!(a.resolve(&program(), &USER, &USER, &AUTHORITY, false), Err(StakeError::WrongTreasury));
    assert_eq!(a.resolve(&program(), &USER, &TREASURY, &USER, false), Err(StakeError::UnauthorizedSigner));
    assert_eq!(a.status, StakeStatus::Active);
}

#[test]
fn resolve_happens_at_most_once() {
    let mut a = staked();
    assert_eq!(a.resolve(&program(), &USER, &TREASURY, &AUTHORITY, true), Ok(Payee::User));
    assert_eq!(a.resolve(&program(), &USER, &TREASURY, &AUTHORITY, true), Err(StakeError::NotActive));
    assert_eq!(a.resolve(&program(), &USER, &TREASURY, &AUTHORITY, false), Err(StakeError::NotActive));
    assert_eq!(a.status, StakeStatus::ResolvedSuccess);
    let mut b = staked();
    assert_eq!(b.resolve(&program(), &USER, &TREASURY, &AUTHORITY, false), Ok(Payee::Treasury));
    assert_eq!(b.resolve(&program(), &USER, &TREASURY, &AUTHORITY, true), Err(StakeError::NotActive));
    assert_eq!(b.status, StakeStatus::ResolvedFailure);
}

#[test]
fn schema_commands_split_and_filter() {
    let schema = "CREATE DATABASE todo;\n\nCREATE TABLE users (id UUID);\n  ;\ncreate database other; \tSELECT 1 \n";
    assert_eq!(schema_commands(schema), vec!["CREATE TABLE users (id UUID)".to_string(), "SELECT 1".to_string()]);
}

#[test]
fn schema_commands_edge_cases() {
    assert!(schema_commands("").is_empty());
    assert!(schema_commands(";;; \n ;").is_empty());
    assert_eq!(schema_commands("a;b"), vec!["a".to_string(), "b".to_string()]);
    assert_eq!(schema_commands("CREATE DATABASEX; x"), vec!["x".to_string()]);
    assert_eq!(schema_commands("CREATE  DATABASE x"), vec!["CREATE  DATABASE x".to_string()]);
    assert_eq!(schema_commands("\u{3000}drop table t\u{a0}"), vec!["drop table t".to_string()]);
    let schema = "CREATE DATABASE a; create table b ();\n insert into b values (1)";
    let expected: Vec<String> = schema
        .split(';')
        .map(|s| s.trim())
        .filter(|s| !s.is_empty())
        .filter(|s| !s.to_uppercase().starts_with("CREATE DATABASE"))
        .map(|s| s.to_string())
        .collect();
    assert_eq!(schema_commands(schema), expected);
}
