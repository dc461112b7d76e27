//! Bootstrap: create the global state, bound to its authority and asset mint,
//! with both sequence counters at zero and nothing locked.

use vstd::prelude::*;
use crate::state::AccountId;
use crate::state::MawariState;

verus! {

/// The global state as bootstrap leaves it: authority and mint bound, every
/// counter and total at zero.
pub open spec fn initialized_state(authority: AccountId, mawari_token_mint: AccountId) -> MawariState {
    MawariState {
        authority: authority,
        mawari_token_mint: mawari_token_mint,
        ..MawariState::spec_default()
    }
}

pub fn handler(authority: AccountId, mawari_token_mint: AccountId) -> (state: MawariState)
    ensures
        state == initialized_state(authority, mawari_token_mint),
{
    let mut state = MawariState::default();
    state.authority = authority;
    state.mawari_token_mint = mawari_token_mint;
    state.expected_withdraw_id = 0;
    state.expected_validate_id = 0;
    state
}

} // verus!
