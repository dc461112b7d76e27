//! Domain events. Each successful operation returns the event describing it;
//! publishing events to external observers is the host platform's business and
//! not part of the core's correctness argument.

use vstd::prelude::*;
use crate::state::AccountId;

verus! {

/// A participant was whitelisted.
#[derive(Clone, Copy, PartialEq, Eq, Structural, Debug)]
pub struct UserAdded {
    pub user: AccountId,
}

/// A participant's membership was deactivated.
#[derive(Clone, Copy, PartialEq, Eq, Structural, Debug)]
pub struct UserRemoved {
    pub user: AccountId,
}

/// A deposit was credited to a participant's balance.
#[derive(Clone, Copy, PartialEq, Eq, Structural, Debug)]
pub struct DepositAdded {
    pub user: AccountId,
    pub amount: u64,
}

/// An internal transfer between two participants was applied.
#[derive(Clone, Copy, PartialEq, Eq, Structural, Debug)]
pub struct Validated {
    pub validate_id: u64,
    pub user_from: AccountId,
    pub user_to: AccountId,
    pub amount: u64,
}

/// A withdrawal was debited from a participant's balance.
#[derive(Clone, Copy, PartialEq, Eq, Structural, Debug)]
pub struct Withdrawn {
    pub withdraw_id: u64,
    pub user: AccountId,
    pub amount: u64,
}

} // verus!
