//! The error taxonomy of the accounting core. Every failing check aborts its
//! operation before any state is written, so each error identifies exactly one
//! rejected precondition.

use vstd::prelude::*;

verus! {

#[derive(Clone, Copy, PartialEq, Eq, Structural, Debug)]
pub enum MawariError {
    /// A referenced participant lacks active membership.
    NotWhitelisted,
    /// A whitelist addition conflicts with an existing record bound to a
    /// different owner.
    AlreadyWhitelisted,
    /// The supplied withdraw sequence id is not the expected next one.
    InvalidWithdrawId,
    /// The supplied validate sequence id is not the expected next one.
    InvalidValidateId,
    /// A balance check failed: an overdraft, or a removal while tokens remain.
    InsufficientBalance,
    /// A zero amount was supplied where a positive one is required.
    InvalidAmount,
    /// Checked arithmetic would wrap above the representable range.
    Overflow,
    /// Checked arithmetic would wrap below zero.
    Underflow,
    /// The caller is not the configured authority.
    Unauthorized,
}

} // verus!
