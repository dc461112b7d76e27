//! Withdraw: a privileged, sequenced debit of a participant's balance. The
//! physical transfer out of the vault, authorized by the vault's derived
//! signing capability, is the host platform's transactional duty, atomic with
//! this state change.
//!
//! The locked total is deliberately left untouched here: whether it should
//! shrink with each withdrawal or keep recording cumulative inflow is an open
//! product question, so the conservation invariant is stated as the
//! inequality `sum of balances <= total_locked_tokens`.

use vstd::prelude::*;
use crate::error::MawariError;
use crate::state::AccountId;
use crate::state::MawariState;
use crate::state::UserAccount;

verus! {

/// The full validation pipeline of a withdrawal, in check order: gate on the
/// authority, then on membership, then on the sequence id, then on the
/// balance. `Ok` exactly when every check passes.
pub open spec fn withdraw_outcome(
    state: MawariState,
    user_account: UserAccount,
    caller: AccountId,
    withdraw_id: u64,
    amount: u64,
) -> Result<(), MawariError> {
    if caller != state.authority {
        Err(MawariError::Unauthorized)
    } else if !user_account.is_whitelisted {
        Err(MawariError::NotWhitelisted)
    } else if withdraw_id != state.expected_withdraw_id {
        Err(MawariError::InvalidWithdrawId)
    } else if user_account.balance < amount {
        Err(MawariError::InsufficientBalance)
    } else if state.expected_withdraw_id + 1 > u64::MAX {
        Err(MawariError::Overflow)
    } else {
        Ok(())
    }
}

/// The global state after a successful withdrawal: only the withdraw
/// sequence counter advances, by exactly one.
pub open spec fn withdraw_state(state: MawariState) -> MawariState {
    MawariState { expected_withdraw_id: (state.expected_withdraw_id + 1) as u64, ..state }
}

/// The participant's record after a successful withdrawal: only the balance
/// changes, debited by exactly the amount.
pub open spec fn withdraw_user(user_account: UserAccount, amount: u64) -> UserAccount {
    UserAccount { balance: (user_account.balance - amount) as u64, ..user_account }
}

pub fn handler(
    caller: AccountId,
    state: &mut MawariState,
    user_account: &mut UserAccount,
    withdraw_id: u64,
    amount: u64,
) -> (r: Result<(), MawariError>)
    ensures
        r == withdraw_outcome(*old(state), *old(user_account), caller, withdraw_id, amount),
        r is Ok ==> *final(state) == withdraw_state(*old(state)),
        r is Ok ==> *final(user_account) == withdraw_user(*old(user_account), amount),
        r is Err ==> *final(state) == *old(state) && *final(user_account) == *old(user_account),
{
    if caller != state.authority {
        return Err(MawariError::Unauthorized);
    }
    if !user_account.is_whitelisted {
        return Err(MawariError::NotWhitelisted);
    }
    if withdraw_id != state.expected_withdraw_id {
        return Err(MawariError::InvalidWithdrawId);
    }
    if user_account.balance < amount {
        return Err(MawariError::InsufficientBalance);
    }
    let next_id = match state.expected_withdraw_id.checked_add(1) {
        Some(v) => v,
        None => return Err(MawariError::Overflow),
    };
    user_account.balance = user_account.balance - amount;
    state.expected_withdraw_id = next_id;
    Ok(())
}

} // verus!
