//! The on-chain stake program: a stake account per user and todo, resolved
//! by the service's authority either back to the user or to the treasury.

use vstd::prelude::*;
use vstd::string::StringSliceAdditionalSpecFns;

verus! {

/// A 32-byte account address.
pub type Pubkey = [u8; 32];

/// Where a stake stands.
#[derive(Debug, Clone, Copy, PartialEq, Eq, Structural)]
pub enum StakeStatus {
    Active,
    ResolvedSuccess,
    ResolvedFailure,
}

/// The data of a stake account.
pub struct StakeAccount {
    pub owner: Pubkey,
    pub todo_id: String,
    pub amount: u64,
    pub status: StakeStatus,
    pub bump: u8,
}

/// The account that receives a resolved stake's lamports when the account is closed.
#[derive(Debug, Clone, Copy, PartialEq, Eq, Structural)]
pub enum Payee {
    /// The staking user: the todo was done.
    User,
    /// The treasury: the stake is slashed.
    Treasury,
}

/// Why an instruction is refused.
#[derive(Debug, Clone, Copy, PartialEq, Eq, Structural)]
pub enum StakeError {
    /// The stake is no longer active: it was resolved, and its account closed.
    NotActive,
    /// The user is not the stake's owner (the account's seeds and
    /// `has_one = owner` constraint).
    OwnerMismatch,
    /// The account to slash into is not the program's treasury.
    WrongTreasury,
    /// The signer is not the service's authority.
    UnauthorizedSigner,
}

/// The keys that the program trusts: the service's authority, the only signer
/// that may resolve stakes, and the treasury that slashed stakes go to.
pub struct StakeProgram {
    pub authority: Pubkey,
    pub treasury: Pubkey,
}

/// The bytes a stake account takes: discriminator (8), owner (32), the
/// todo id's length prefix (4) and bytes, amount (8), status (1), bump (1).
pub open spec fn stake_space(todo_id_len: nat) -> nat {
    8 + 32 + 4 + todo_id_len + 8 + 1 + 1
}

/// The space to allocate for the stake account of `todo_id`.
pub fn stake_account_space(todo_id: &str) -> (space: usize)
    requires
        stake_space(todo_id.spec_bytes().len()) <= usize::MAX,
    ensures
        space == stake_space(todo_id.spec_bytes().len()),
{
    8 + 32 + 4 + todo_id.len() + 8 + 1 + 1
}

/// Whether two addresses are the same.
pub fn same_key(a: &Pubkey, b: &Pubkey) -> (same: bool)
    ensures
        same == (a@ == b@),
{
    let mut i: usize = 0;
    while i < 32
        invariant
            i <= 32,
            a@.len() == 32,
            b@.len() == 32,
            forall|j: int| 0 <= j < i ==> a@[j] == b@[j],
        decreases 32 - i,
    {
        if a[i] != b[i] {
            return false;
        }
        i = i + 1;
    }
    assert(a@ =~= b@);
    true
}

impl StakeAccount {
    /// The account that staking `amount` lamports on `todo_id` creates for `owner`:
    /// active, with the bump of its address.
    pub fn stake(owner: Pubkey, todo_id: String, amount: u64, bump: u8) -> (account: StakeAccount)
        ensures
            account.owner == owner,
            account.todo_id == todo_id,
            account.amount == amount,
            account.status == StakeStatus::Active,
            account.bump == bump,
    {
        StakeAccount { owner, todo_id, amount, status: StakeStatus::Active, bump }
    }

    /// Resolves the stake of `user`, signed by `authority`, with `treasury` as
    /// the account to slash into. A stake that is no longer active, a user who
    /// does not own it, another treasury than the program's, or another signer
    /// than the program's authority is refused and nothing changes. Otherwise
    /// the stake is marked resolved and its account closed: to the user on
    /// success, to the treasury on failure.
    pub fn resolve(
        &mut self,
        program: &StakeProgram,
        user: &Pubkey,
        treasury: &Pubkey,
        authority: &Pubkey,
        success: bool,
    ) -> (payee: Result<Payee, StakeError>)
        ensures
            (*final(self), payee) == resolution(*old(self), *program, *user, *treasury, *authority, success),
    {
        if self.status != StakeStatus::Active {
            return Err(StakeError::NotActive);
        }
        if !same_key(&self.owner, user) {
            return Err(StakeError::OwnerMismatch);
        }
        if !same_key(&program.treasury, treasury) {
            return Err(StakeError::WrongTreasury);
        }
        if !same_key(&program.authority, authority) {
            return Err(StakeError::UnauthorizedSigner);
        }
        if success {
            self.status = StakeStatus::ResolvedSuccess;
            Ok(Payee::User)
        } else {
            self.status = StakeStatus::ResolvedFailure;
            Ok(Payee::Treasury)
        }
    }
}

/// The refusal of a resolve request, if any, checked in this order: the stake
/// must be active, owned by `user`, slashed into the program's treasury, and
/// signed by the program's authority.
pub open spec fn resolve_refusal(
    account: StakeAccount,
    program: StakeProgram,
    user: Pubkey,
    treasury: Pubkey,
    authority: Pubkey,
) -> Option<StakeError> {
    if account.status != StakeStatus::Active {
        Some(StakeError::NotActive)
    } else if account.owner@ != user@ {
        Some(StakeError::OwnerMismatch)
    } else if program.treasury@ != treasury@ {
        Some(StakeError::WrongTreasury)
    } else if program.authority@ != authority@ {
        Some(StakeError::UnauthorizedSigner)
    } else {
        None
    }
}

/// The account after a resolve request, and who is paid: a refused request
/// changes nothing; an accepted one marks the stake resolved and pays the user
/// on success, the treasury on failure.
pub open spec fn resolution(
    account: StakeAccount,
    program: StakeProgram,
    user: Pubkey,
    treasury: Pubkey,
    authority: Pubkey,
    success: bool,
) -> (StakeAccount, Result<Payee, StakeError>) {
    match resolve_refusal(account, program, user, treasury, authority) {
        Some(e) => (account, Err(e)),
        None => if success {
            (StakeAccount { status: StakeStatus::ResolvedSuccess, ..account }, Ok(Payee::User))
        } else {
            (StakeAccount { status: StakeStatus::ResolvedFailure, ..account }, Ok(Payee::Treasury))
        },
    }
}

/// An accepted resolution leaves the stake inactive, keeps its owner, todo and
/// amount, and pays the user exactly when the todo was done.
pub proof fn lemma_accepted_resolution(
    account: StakeAccount,
    program: StakeProgram,
    user: Pubkey,
    treasury: Pubkey,
    authority: Pubkey,
    success: bool,
)
    requires
        resolve_refusal(account, program, user, treasury, authority) is None,
    ensures
        resolution(account, program, user, treasury, authority, success).0.status != StakeStatus::Active,
        resolution(account, program, user, treasury, authority, success).0.owner == account.owner,
        resolution(account, program, user, treasury, authority, success).0.todo_id == account.todo_id,
        resolution(account, program, user, treasury, authority, success).0.amount == account.amount,
        resolution(account, program, user, treasury, authority, success).1 == Ok::<Payee, StakeError>(
            if success { Payee::User } else { Payee::Treasury },
        ),
{
}

/// A refused request changes nothing.
pub proof fn lemma_refused_resolution_changes_nothing(
    account: StakeAccount,
    program: StakeProgram,
    user: Pubkey,
    treasury: Pubkey,
    authority: Pubkey,
    success: bool,
)
    requires
        resolve_refusal(account, program, user, treasury, authority) is Some,
    ensures
        resolution(account, program, user, treasury, authority, success).0 == account,
        resolution(account, program, user, treasury, authority, success).1 is Err,
{
}

/// A stake is paid out or slashed at most once: after any resolution that went
/// through, every later request, by anyone and with any outcome, is refused as
/// `NotActive` and leaves the stake as it is.
pub proof fn lemma_resolved_at_most_once(
    account: StakeAccount,
    program: StakeProgram,
    user: Pubkey,
    treasury: Pubkey,
    authority: Pubkey,
    success: bool,
    later_program: StakeProgram,
    later_user: Pubkey,
    later_treasury: Pubkey,
    later_authority: Pubkey,
    later_success: bool,
)
    requires
        resolution(account, program, user, treasury, authority, success).1 is Ok,
    ensures
        ({
            let settled = resolution(account, program, user, treasury, authority, success).0;
            resolution(settled, later_program, later_user, later_treasury, later_authority, later_success)
                == (settled, Err::<Payee, StakeError>(StakeError::NotActive))
        }),
{
}

/// A request is accepted exactly when the stake is active, the user owns it,
/// the treasury is the program's and the signer is the program's authority;
/// each failed condition gives its own refusal, in that order.
pub proof fn lemma_refusal_conditions(
    account: StakeAccount,
    program: StakeProgram,
    user: Pubkey,
    treasury: Pubkey,
    authority: Pubkey,
)
    ensures
        resolve_refusal(account, program, user, treasury, authority) is None <==> (
            account.status == StakeStatus::Active
            && account.owner@ == user@
            && program.treasury@ == treasury@
            && program.authority@ == authority@),
        account.status != StakeStatus::Active
            ==> resolve_refusal(account, program, user, treasury, authority) == Some(StakeError::NotActive),
        account.status == StakeStatus::Active && account.owner@ != user@
            ==> resolve_refusal(account, program, user, treasury, authority) == Some(StakeError::OwnerMismatch),
        account.status == StakeStatus::Active && account.owner@ == user@ && program.treasury@ != treasury@
            ==> resolve_refusal(account, program, user, treasury, authority) == Some(StakeError::WrongTreasury),
        account.status == StakeStatus::Active && account.owner@ == user@ && program.treasury@ == treasury@
            && program.authority@ != authority@
            ==> resolve_refusal(account, program, user, treasury, authority) == Some(StakeError::UnauthorizedSigner),
{
}

} // verus!
