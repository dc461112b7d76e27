//! Deposit: credit a positive amount to a whitelisted participant's balance
//! and to the vault's locked total. The physical transfer of the amount into
//! the vault is the host platform's transactional duty, atomic with this
//! state change.

use vstd::prelude::*;
use crate::error::MawariError;
use crate::state::MawariState;
use crate::state::UserAccount;

verus! {

/// The full validation pipeline of a deposit, in check order. `Ok` exactly
/// when every check passes.
pub open spec fn deposit_outcome(state: MawariState, user_account: UserAccount, amount: u64) -> Result<(), MawariError> {
    if !user_account.is_whitelisted {
        Err(MawariError::NotWhitelisted)
    } else if amount == 0 {
        Err(MawariError::InvalidAmount)
    } else if state.total_locked_tokens + amount > u64::MAX {
        Err(MawariError::Overflow)
    } else if user_account.balance + amount > u64::MAX {
        Err(MawariError::Overflow)
    } else if user_account.total_deposits + 1 > u64::MAX {
        Err(MawariError::Overflow)
    } else {
        Ok(())
    }
}

/// The global state after a successful deposit: only the locked total grows.
pub open spec fn deposit_state(state: MawariState, amount: u64) -> MawariState {
    MawariState { total_locked_tokens: (state.total_locked_tokens + amount) as u64, ..state }
}

/// The participant's record after a successful deposit.
pub open spec fn deposit_user(user_account: UserAccount, amount: u64, now: i64) -> UserAccount {
    UserAccount {
        balance: (user_account.balance + amount) as u64,
        last_deposit: now,
        total_deposits: (user_account.total_deposits + 1) as u64,
        ..user_account
    }
}

pub fn handler(state: &mut MawariState, user_account: &mut UserAccount, amount: u64, now: i64) -> (r: Result<(), MawariError>)
    ensures
        r == deposit_outcome(*old(state), *old(user_account), amount),
        r is Ok ==> *final(state) == deposit_state(*old(state), amount),
        r is Ok ==> *final(user_account) == deposit_user(*old(user_account), amount, now),
        r is Err ==> *final(state) == *old(state) && *final(user_account) == *old(user_account),
{
    if !user_account.is_whitelisted {
        return Err(MawariError::NotWhitelisted);
    }
    if amount == 0 {
        return Err(MawariError::InvalidAmount);
    }
    let new_locked = match state.total_locked_tokens.checked_add(amount) {
        Some(v) => v,
        None => return Err(MawariError::Overflow),
    };
    let new_balance = match user_account.balance.checked_add(amount) {
        Some(v) => v,
        None => return Err(MawariError::Overflow),
    };
    let new_deposits = match user_account.total_deposits.checked_add(1) {
        Some(v) => v,
        None => return Err(MawariError::Overflow),
    };
    state.total_locked_tokens = new_locked;
    user_account.balance = new_balance;
    user_account.last_deposit = now;
    user_account.total_deposits = new_deposits;
    Ok(())
}

} // verus!
