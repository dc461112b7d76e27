//! Whitelist lifecycle: binding a participant identity to a record and
//! activating it, and deactivating a record whose balance has been drained.
//! Both are privileged operations.

use vstd::prelude::*;
use crate::error::MawariError;
use crate::state::AccountId;
use crate::state::MawariState;
use crate::state::Timestamp;
use crate::state::UserAccount;

verus! {

/// The full validation pipeline of a whitelist addition, in check order.
/// An addition succeeds only for a freshly zero-initialized record or for a
/// deactivated one whose owner is unset or matches `user`: a still-active
/// record is refused outright — its balance may change only through a
/// deposit, a withdrawal or an internal transfer, and the membership counter
/// counts each active member exactly once — and so is reactivation of a
/// record bound to a different owner.
pub open spec fn add_user_outcome(
    state: MawariState,
    user_account: UserAccount,
    caller: AccountId,
    user: AccountId,
) -> Result<(), MawariError> {
    if caller != state.authority {
        Err(MawariError::Unauthorized)
    } else if user_account.is_whitelisted {
        Err(MawariError::AlreadyWhitelisted)
    } else if user_account.owner != AccountId::spec_unset() && user_account.owner != user {
        Err(MawariError::AlreadyWhitelisted)
    } else if state.total_users + 1 > u64::MAX {
        Err(MawariError::Overflow)
    } else {
        Ok(())
    }
}

/// The participant's record after a successful addition: bound to `user`,
/// active, with an empty balance and fresh timestamps.
pub open spec fn add_user_account(user_account: UserAccount, user: AccountId, now: i64) -> UserAccount {
    UserAccount {
        owner: user,
        is_whitelisted: true,
        balance: 0,
        ..user_account
    }.with_timestamp(now)
}

/// The global state after a successful addition.
pub open spec fn add_user_state(state: MawariState, now: i64) -> MawariState {
    MawariState { total_users: (state.total_users + 1) as u64, ..state }.with_timestamp(now)
}

pub fn add_user_handler(
    caller: AccountId,
    state: &mut MawariState,
    user_account: &mut UserAccount,
    user: AccountId,
    now: i64,
) -> (r: Result<(), MawariError>)
    ensures
        r == add_user_outcome(*old(state), *old(user_account), caller, user),
        r is Ok ==> *final(state) == add_user_state(*old(state), now),
        r is Ok ==> *final(user_account) == add_user_account(*old(user_account), user, now),
        r is Err ==> *final(state) == *old(state) && *final(user_account) == *old(user_account),
{
    if caller != state.authority {
        return Err(MawariError::Unauthorized);
    }
    if user_account.is_whitelisted {
        return Err(MawariError::AlreadyWhitelisted);
    }
    let unset = AccountId::unset();
    if user_account.owner != unset && user_account.owner != user {
        return Err(MawariError::AlreadyWhitelisted);
    }
    let new_users = match state.total_users.checked_add(1) {
        Some(v) => v,
        None => return Err(MawariError::Overflow),
    };
    user_account.owner = user;
    user_account.is_whitelisted = true;
    user_account.balance = 0;
    user_account.update_timestamp(now);
    state.total_users = new_users;
    state.update_timestamp(now);
    Ok(())
}

/// The full validation pipeline of a removal, in check order: membership must
/// be active and the balance drained to zero before a record may be
/// deactivated.
pub open spec fn remove_user_outcome(
    state: MawariState,
    user_account: UserAccount,
    caller: AccountId,
) -> Result<(), MawariError> {
    if caller != state.authority {
        Err(MawariError::Unauthorized)
    } else if !user_account.is_whitelisted {
        Err(MawariError::NotWhitelisted)
    } else if user_account.balance != 0 {
        Err(MawariError::InsufficientBalance)
    } else if state.total_users < 1 {
        Err(MawariError::Underflow)
    } else {
        Ok(())
    }
}

/// The participant's record after a successful removal: deactivated, history
/// fields kept, timestamps refreshed.
pub open spec fn remove_user_account(user_account: UserAccount, now: i64) -> UserAccount {
    UserAccount { is_whitelisted: false, ..user_account }.with_timestamp(now)
}

/// The global state after a successful removal.
pub open spec fn remove_user_state(state: MawariState, now: i64) -> MawariState {
    MawariState { total_users: (state.total_users - 1) as u64, ..state }.with_timestamp(now)
}

pub fn remove_user_handler(
    caller: AccountId,
    state: &mut MawariState,
    user_account: &mut UserAccount,
    now: i64,
) -> (r: Result<(), MawariError>)
    ensures
        r == remove_user_outcome(*old(state), *old(user_account), caller),
        r is Ok ==> *final(state) == remove_user_state(*old(state), now),
        r is Ok ==> *final(user_account) == remove_user_account(*old(user_account), now),
        r is Err ==> *final(state) == *old(state) && *final(user_account) == *old(user_account),
{
    if caller != state.authority {
        return Err(MawariError::Unauthorized);
    }
    if !user_account.is_whitelisted {
        return Err(MawariError::NotWhitelisted);
    }
    if user_account.balance != 0 {
        return Err(MawariError::InsufficientBalance);
    }
    let new_users = match state.total_users.checked_sub(1) {
        Some(v) => v,
        None => return Err(MawariError::Underflow),
    };
    user_account.is_whitelisted = false;
    user_account.update_timestamp(now);
    state.total_users = new_users;
    state.update_timestamp(now);
    Ok(())
}

} // verus!
