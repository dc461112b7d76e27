//! Persistent records of the accounting core: the single global state and the
//! per-participant account record.

use vstd::prelude::*;

verus! {

/// An identity on the host ledger (a participant, the authority, a mint or a
/// storage account). The core reads exactly one aspect of an identity:
/// whether two of them are equal, with one distinguished "unset" value that a
/// zero-initialized record carries before an owner is bound to it.
#[derive(Clone, Copy, PartialEq, Eq, Structural, Debug)]
pub struct AccountId {
    pub value: u64,
}

impl AccountId {
    /// The identity a freshly created, zero-initialized record carries:
    /// no owner has been bound yet.
    pub open spec fn spec_unset() -> AccountId {
        AccountId { value: 0 }
    }

    pub fn unset() -> (r: AccountId)
        ensures
            r == AccountId::spec_unset(),
    {
        AccountId { value: 0 }
    }
}

/// The single global state record, created once and mutated by every
/// privileged operation.
#[derive(Clone, Copy, PartialEq, Eq, Structural, Debug)]
pub struct MawariState {
    /// The authority who can perform admin actions.
    pub authority: AccountId,
    /// The mint of the one fungible asset the vault accepts.
    pub mawari_token_mint: AccountId,
    /// The storage account holding all deposited tokens in aggregate.
    pub vault_token_account: AccountId,
    /// The next expected withdraw id.
    pub expected_withdraw_id: u64,
    /// The next expected validate id.
    pub expected_validate_id: u64,
    /// Count of currently-whitelisted participants.
    pub total_users: u64,
    /// Total tokens recorded as locked in the vault.
    pub total_locked_tokens: u64,
    /// Time of the most recent whitelist mutation.
    pub last_update: i64,
}

impl MawariState {
    /// The zero-initialized global state, as the host platform hands it to
    /// the bootstrap operation before any field is written.
    pub open spec fn spec_default() -> MawariState {
        MawariState {
            authority: AccountId::spec_unset(),
            mawari_token_mint: AccountId::spec_unset(),
            vault_token_account: AccountId::spec_unset(),
            expected_withdraw_id: 0,
            expected_validate_id: 0,
            total_users: 0,
            total_locked_tokens: 0,
            last_update: 0,
        }
    }
}

impl Default for MawariState {
    fn default() -> (r: MawariState)
        ensures
            r == MawariState::spec_default(),
    {
        MawariState {
            authority: AccountId::unset(),
            mawari_token_mint: AccountId::unset(),
            vault_token_account: AccountId::unset(),
            expected_withdraw_id: 0,
            expected_validate_id: 0,
            total_users: 0,
            total_locked_tokens: 0,
            last_update: 0,
        }
    }
}

/// One participant's record: created on first whitelisting, deactivated (never
/// deleted) on removal.
#[derive(Clone, Copy, PartialEq, Eq, Structural, Debug)]
pub struct UserAccount {
    /// The identity bound to this record.
    pub owner: AccountId,
    /// Gate for every participant-facing operation.
    pub is_whitelisted: bool,
    /// The participant's share of the pooled custody.
    pub balance: u64,
    /// Time of the last deposit (also refreshed on whitelist changes).
    pub last_deposit: i64,
    /// Time of the last withdrawal (also refreshed on whitelist changes).
    pub last_withdrawal: i64,
    /// Count of deposits accepted for this record.
    pub total_deposits: u64,
    /// Count of withdrawals accepted for this record.
    pub total_withdrawals: u64,
}

impl UserAccount {
    /// The zero-initialized record the host platform supplies when a
    /// participant is whitelisted for the first time.
    pub open spec fn spec_default() -> UserAccount {
        UserAccount {
            owner: AccountId::spec_unset(),
            is_whitelisted: false,
            balance: 0,
            last_deposit: 0,
            last_withdrawal: 0,
            total_deposits: 0,
            total_withdrawals: 0,
        }
    }
}

impl Default for UserAccount {
    fn default() -> (r: UserAccount)
        ensures
            r == UserAccount::spec_default(),
    {
        UserAccount {
            owner: AccountId::unset(),
            is_whitelisted: false,
            balance: 0,
            last_deposit: 0,
            last_withdrawal: 0,
            total_deposits: 0,
            total_withdrawals: 0,
        }
    }
}

/// Refreshing a record's timestamp fields. The current time is an input: only
/// the host platform owns a clock.
pub trait Timestamp: Sized {
    /// The value with its timestamp fields set to `now` and all other fields
    /// unchanged.
    spec fn with_timestamp(self, now: i64) -> Self;

    fn update_timestamp(&mut self, now: i64)
        ensures
            *final(self) == old(self).with_timestamp(now),
    ;
}

impl Timestamp for MawariState {
    open spec fn with_timestamp(self, now: i64) -> MawariState {
        MawariState { last_update: now, ..self }
    }

    fn update_timestamp(&mut self, now: i64) {
        self.last_update = now;
    }
}

impl Timestamp for UserAccount {
    open spec fn with_timestamp(self, now: i64) -> UserAccount {
        UserAccount { last_deposit: now, last_withdrawal: now, ..self }
    }

    fn update_timestamp(&mut self, now: i64) {
        self.last_deposit = now;
        self.last_withdrawal = now;
    }
}

} // verus!
