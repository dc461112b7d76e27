//! Validate: a privileged, sequenced internal transfer between two
//! participants. Zero-sum by construction — the debit and the credit are the
//! same amount — and no tokens physically move, so the locked total is
//! untouched.

use vstd::prelude::*;
use crate::error::MawariError;
use crate::state::AccountId;
use crate::state::MawariState;
use crate::state::UserAccount;

verus! {

/// The full validation pipeline of an internal transfer between two distinct
/// records, in check order. `Ok` exactly when every check passes.
pub open spec fn validate_outcome(
    state: MawariState,
    from_account: UserAccount,
    to_account: UserAccount,
    caller: AccountId,
    validate_id: u64,
    amount: u64,
) -> Result<(), MawariError> {
    if caller != state.authority {
        Err(MawariError::Unauthorized)
    } else if !from_account.is_whitelisted {
        Err(MawariError::NotWhitelisted)
    } else if !to_account.is_whitelisted {
        Err(MawariError::NotWhitelisted)
    } else if validate_id != state.expected_validate_id {
        Err(MawariError::InvalidValidateId)
    } else if from_account.balance < amount {
        Err(MawariError::InsufficientBalance)
    } else if to_account.balance + amount > u64::MAX {
        Err(MawariError::Overflow)
    } else if state.expected_validate_id + 1 > u64::MAX {
        Err(MawariError::Overflow)
    } else {
        Ok(())
    }
}

/// The global state after a successful internal transfer: only the validate
/// sequence counter advances, by exactly one.
pub open spec fn validate_state(state: MawariState) -> MawariState {
    MawariState { expected_validate_id: (state.expected_validate_id + 1) as u64, ..state }
}

/// The sending record after a successful internal transfer.
pub open spec fn validate_from(from_account: UserAccount, amount: u64) -> UserAccount {
    UserAccount { balance: (from_account.balance - amount) as u64, ..from_account }
}

/// The receiving record after a successful internal transfer.
pub open spec fn validate_to(to_account: UserAccount, amount: u64) -> UserAccount {
    UserAccount { balance: (to_account.balance + amount) as u64, ..to_account }
}

pub fn handler(
    caller: AccountId,
    state: &mut MawariState,
    from_account: &mut UserAccount,
    to_account: &mut UserAccount,
    validate_id: u64,
    amount: u64,
) -> (r: Result<(), MawariError>)
    ensures
        r == validate_outcome(*old(state), *old(from_account), *old(to_account), caller, validate_id, amount),
        r is Ok ==> *final(state) == validate_state(*old(state)),
        r is Ok ==> *final(from_account) == validate_from(*old(from_account), amount),
        r is Ok ==> *final(to_account) == validate_to(*old(to_account), amount),
        r is Err ==> *final(state) == *old(state) && *final(from_account) == *old(from_account)
            && *final(to_account) == *old(to_account),
{
    if caller != state.authority {
        return Err(MawariError::Unauthorized);
    }
    if !from_account.is_whitelisted {
        return Err(MawariError::NotWhitelisted);
    }
    if !to_account.is_whitelisted {
        return Err(MawariError::NotWhitelisted);
    }
    if validate_id != state.expected_validate_id {
        return Err(MawariError::InvalidValidateId);
    }
    if from_account.balance < amount {
        return Err(MawariError::InsufficientBalance);
    }
    let new_to_balance = match to_account.balance.checked_add(amount) {
        Some(v) => v,
        None => return Err(MawariError::Overflow),
    };
    let next_id = match state.expected_validate_id.checked_add(1) {
        Some(v) => v,
        None => return Err(MawariError::Overflow),
    };
    from_account.balance = from_account.balance - amount;
    to_account.balance = new_to_balance;
    state.expected_validate_id = next_id;
    Ok(())
}

} // verus!
