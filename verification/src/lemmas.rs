//! The guarantees the accounting core states about itself, proved from the
//! operations' contracts: conservation of custody, replay-safe sequencing,
//! overdraft rejection, membership gating, and removal safety.

use vstd::prelude::*;
use crate::error::MawariError;
use crate::instructions::initialize;
use crate::instructions::validate;
use crate::instructions::withdraw;
use crate::program::Mawari;
use crate::program::active_users;
use crate::program::deposit_result;
use crate::program::distinct_owners;
use crate::program::has_user;
use crate::program::inactive_records_empty;
use crate::program::is_active;
use crate::program::lemma_sum_update;
use crate::program::lemma_user_index_unique;
use crate::program::remove_result;
use crate::program::sum_balances;
use crate::program::user_index;
use crate::program::user_record;
use crate::program::validate_result;
use crate::program::validate_users_after;
use crate::program::withdraw_result;
use crate::state::AccountId;
use crate::state::MawariState;
use crate::state::UserAccount;

verus! {

/// Conservation: in every well-formed program state — `Mawari::initialize`
/// establishes the invariant and every operation preserves it — the recorded
/// balances sum to at most the locked total. A deactivated record holds no
/// balance, so the sum over the active records is that same sum. The two
/// would be equal if withdrawals debited the locked total; whether they
/// should is an open product question, so the core guarantees the inequality.
pub proof fn lemma_conservation(m: Mawari)
    requires
        m.inv(),
    ensures
        sum_balances(m.spec_users()) <= m.spec_state().total_locked_tokens,
        inactive_records_empty(m.spec_users()),
{
}

/// Membership accounting: in every well-formed program state the membership
/// counter equals the number of currently-whitelisted records — additions
/// are accepted only for records that are not yet active, so each active
/// member is counted exactly once.
pub proof fn lemma_membership_count(m: Mawari)
    requires
        m.inv(),
    ensures
        active_users(m.spec_users()) == m.spec_state().total_users,
{
}

/// An internal transfer is zero-sum: it moves exactly `amount` from the
/// sending record to the receiving one and leaves the balance sum unchanged
/// (and by `validate_state` it never touches the locked total), so it
/// preserves the conservation bound. A transfer from a record to itself
/// leaves every record as it was.
pub proof fn lemma_validate_zero_sum(
    users: Seq<UserAccount>,
    from: AccountId,
    to: AccountId,
    amount: u64,
)
    requires
        distinct_owners(users),
        has_user(users, from),
        has_user(users, to),
        amount <= user_record(users, from).balance,
        from != to ==> user_record(users, to).balance + amount <= u64::MAX,
    ensures
        sum_balances(validate_users_after(users, from, to, amount)) == sum_balances(users),
        from == to ==> validate_users_after(users, from, to, amount) == users,
        from != to ==> user_record(validate_users_after(users, from, to, amount), from).balance
            == user_record(users, from).balance - amount,
        from != to ==> user_record(validate_users_after(users, from, to, amount), to).balance
            == user_record(users, to).balance + amount,
{
    if from != to {
        let i = user_index(users, from);
        let j = user_index(users, to);
        assert(0 <= i < users.len() && users[i].owner == from);
        assert(0 <= j < users.len() && users[j].owner == to);
        let debited = validate::validate_from(user_record(users, from), amount);
        let credited = validate::validate_to(user_record(users, to), amount);
        let mid = users.update(i, debited);
        let moved = mid.update(j, credited);
        lemma_sum_update(users, i, debited);
        lemma_sum_update(mid, j, credited);
        assert forall|p: int, q: int| 0 <= p < q < moved.len() implies moved[p].owner
            != moved[q].owner by {
            assert(moved[p].owner == users[p].owner);
            assert(moved[q].owner == users[q].owner);
            assert(users[p].owner != users[q].owner);
        }
        lemma_user_index_unique(moved, from, i);
        lemma_user_index_unique(moved, to, j);
    }
}

/// Sequencing of withdrawals: only the expected id is accepted, and
/// acceptance advances the expected id by exactly one.
pub proof fn lemma_withdraw_sequencing(
    state: MawariState,
    users: Seq<UserAccount>,
    caller: AccountId,
    withdraw_id: u64,
    user: AccountId,
    amount: u64,
)
    ensures
        withdraw_result(state, users, caller, withdraw_id, user, amount) is Ok ==> withdraw_id
            == state.expected_withdraw_id,
        withdraw_result(state, users, caller, withdraw_id, user, amount) is Ok
            ==> withdraw::withdraw_state(state).expected_withdraw_id == withdraw_id + 1,
{
}

/// Sequencing of internal transfers: only the expected id is accepted, and
/// acceptance advances the expected id by exactly one.
pub proof fn lemma_validate_sequencing(
    state: MawariState,
    users: Seq<UserAccount>,
    caller: AccountId,
    validate_id: u64,
    from: AccountId,
    to: AccountId,
    amount: u64,
)
    ensures
        validate_result(state, users, caller, validate_id, from, to, amount) is Ok ==> validate_id
            == state.expected_validate_id,
        validate_result(state, users, caller, validate_id, from, to, amount) is Ok
            ==> validate::validate_state(state).expected_validate_id == validate_id + 1,
{
}

/// The first withdrawal a freshly bootstrapped program accepts carries id 0;
/// with `lemma_withdraw_ids_consecutive` the accepted ids form 0, 1, 2, …
pub proof fn lemma_first_withdraw_id_zero(
    authority: AccountId,
    mawari_token_mint: AccountId,
    users: Seq<UserAccount>,
    caller: AccountId,
    withdraw_id: u64,
    user: AccountId,
    amount: u64,
)
    requires
        withdraw_result(
            initialize::initialized_state(authority, mawari_token_mint),
            users,
            caller,
            withdraw_id,
            user,
            amount,
        ) is Ok,
    ensures
        withdraw_id == 0,
{
}

/// The first internal transfer a freshly bootstrapped program accepts
/// carries id 0; with `lemma_validate_ids_consecutive` the accepted ids form
/// 0, 1, 2, …
pub proof fn lemma_first_validate_id_zero(
    authority: AccountId,
    mawari_token_mint: AccountId,
    users: Seq<UserAccount>,
    caller: AccountId,
    validate_id: u64,
    from: AccountId,
    to: AccountId,
    amount: u64,
)
    requires
        validate_result(
            initialize::initialized_state(authority, mawari_token_mint),
            users,
            caller,
            validate_id,
            from,
            to,
            amount,
        ) is Ok,
    ensures
        validate_id == 0,
{
}

/// Of two withdrawals accepted back to back — the second one evaluated
/// against the state the first one leaves — the second carries exactly the
/// successor id, whatever else changed in between the participant records.
pub proof fn lemma_withdraw_ids_consecutive(
    state: MawariState,
    users1: Seq<UserAccount>,
    caller1: AccountId,
    id1: u64,
    user1: AccountId,
    amount1: u64,
    users2: Seq<UserAccount>,
    caller2: AccountId,
    id2: u64,
    user2: AccountId,
    amount2: u64,
)
    requires
        withdraw_result(state, users1, caller1, id1, user1, amount1) is Ok,
        withdraw_result(
            withdraw::withdraw_state(state),
            users2,
            caller2,
            id2,
            user2,
            amount2,
        ) is Ok,
    ensures
        id2 == id1 + 1,
{
}

/// Of two internal transfers accepted back to back, the second carries
/// exactly the successor id.
pub proof fn lemma_validate_ids_consecutive(
    state: MawariState,
    users1: Seq<UserAccount>,
    caller1: AccountId,
    id1: u64,
    from1: AccountId,
    to1: AccountId,
    amount1: u64,
    users2: Seq<UserAccount>,
    caller2: AccountId,
    id2: u64,
    from2: AccountId,
    to2: AccountId,
    amount2: u64,
)
    requires
        validate_result(state, users1, caller1, id1, from1, to1, amount1) is Ok,
        validate_result(
            validate::validate_state(state),
            users2,
            caller2,
            id2,
            from2,
            to2,
            amount2,
        ) is Ok,
    ensures
        id2 == id1 + 1,
{
}

/// Replaying a withdraw id that is no longer the expected one — in
/// particular any id that was already accepted — fails with
/// `InvalidWithdrawId`, for an otherwise valid privileged call.
pub proof fn lemma_withdraw_replay_rejected(
    state: MawariState,
    users: Seq<UserAccount>,
    caller: AccountId,
    withdraw_id: u64,
    user: AccountId,
    amount: u64,
)
    requires
        caller == state.authority,
        is_active(users, user),
        withdraw_id != state.expected_withdraw_id,
    ensures
        withdraw_result(state, users, caller, withdraw_id, user, amount) == Err::<
            crate::events::Withdrawn,
            MawariError,
        >(MawariError::InvalidWithdrawId),
{
}

/// Replaying a validate id that is no longer the expected one fails with
/// `InvalidValidateId`, for an otherwise valid privileged call.
pub proof fn lemma_validate_replay_rejected(
    state: MawariState,
    users: Seq<UserAccount>,
    caller: AccountId,
    validate_id: u64,
    from: AccountId,
    to: AccountId,
    amount: u64,
)
    requires
        caller == state.authority,
        is_active(users, from),
        is_active(users, to),
        validate_id != state.expected_validate_id,
    ensures
        validate_result(state, users, caller, validate_id, from, to, amount) == Err::<
            crate::events::Validated,
            MawariError,
        >(MawariError::InvalidValidateId),
{
}

/// No overdraft on withdrawal: asking for more than the available balance
/// fails with `InsufficientBalance`; by the operations' contracts an error
/// leaves every record unchanged, and balances are unsigned throughout, so
/// no balance ever drops below zero.
pub proof fn lemma_withdraw_no_overdraft(
    state: MawariState,
    users: Seq<UserAccount>,
    caller: AccountId,
    withdraw_id: u64,
    user: AccountId,
    amount: u64,
)
    requires
        caller == state.authority,
        is_active(users, user),
        withdraw_id == state.expected_withdraw_id,
        amount > user_record(users, user).balance,
    ensures
        withdraw_result(state, users, caller, withdraw_id, user, amount) == Err::<
            crate::events::Withdrawn,
            MawariError,
        >(MawariError::InsufficientBalance),
{
}

/// No overdraft on internal transfer: asking for more than the sender's
/// balance fails with `InsufficientBalance`.
pub proof fn lemma_validate_no_overdraft(
    state: MawariState,
    users: Seq<UserAccount>,
    caller: AccountId,
    validate_id: u64,
    from: AccountId,
    to: AccountId,
    amount: u64,
)
    requires
        caller == state.authority,
        is_active(users, from),
        is_active(users, to),
        validate_id == state.expected_validate_id,
        amount > user_record(users, from).balance,
    ensures
        validate_result(state, users, caller, validate_id, from, to, amount) == Err::<
            crate::events::Validated,
            MawariError,
        >(MawariError::InsufficientBalance),
{
}

/// Membership gate on deposits: a participant without active membership is
/// turned away with `NotWhitelisted`, whatever the amount.
pub proof fn lemma_deposit_whitelist_gate(
    state: MawariState,
    users: Seq<UserAccount>,
    user: AccountId,
    amount: u64,
)
    requires
        !is_active(users, user),
    ensures
        deposit_result(state, users, user, amount) == Err::<
            crate::events::DepositAdded,
            MawariError,
        >(MawariError::NotWhitelisted),
{
}

/// Membership gate on withdrawals: for a call by the authority, a
/// participant without active membership is turned away with
/// `NotWhitelisted`, whatever the id and amount. (A call by anyone else is
/// turned away earlier, with `Unauthorized`.)
pub proof fn lemma_withdraw_whitelist_gate(
    state: MawariState,
    users: Seq<UserAccount>,
    caller: AccountId,
    withdraw_id: u64,
    user: AccountId,
    amount: u64,
)
    requires
        caller == state.authority,
        !is_active(users, user),
    ensures
        withdraw_result(state, users, caller, withdraw_id, user, amount) == Err::<
            crate::events::Withdrawn,
            MawariError,
        >(MawariError::NotWhitelisted),
{
}

/// Membership gate on internal transfers: for a call by the authority, if
/// either side lacks active membership the call is turned away with
/// `NotWhitelisted`, whatever the id and amount.
pub proof fn lemma_validate_whitelist_gate(
    state: MawariState,
    users: Seq<UserAccount>,
    caller: AccountId,
    validate_id: u64,
    from: AccountId,
    to: AccountId,
    amount: u64,
)
    requires
        caller == state.authority,
        !is_active(users, from) || !is_active(users, to),
    ensures
        validate_result(state, users, caller, validate_id, from, to, amount) == Err::<
            crate::events::Validated,
            MawariError,
        >(MawariError::NotWhitelisted),
{
}

/// The membership gate on withdrawals, without any hypothesis on the
/// caller: whoever calls and whatever the id and amount, a withdrawal is
/// accepted only for a participant with active membership.
pub proof fn lemma_withdraw_requires_membership(
    state: MawariState,
    users: Seq<UserAccount>,
    caller: AccountId,
    withdraw_id: u64,
    user: AccountId,
    amount: u64,
)
    ensures
        withdraw_result(state, users, caller, withdraw_id, user, amount) is Ok ==> is_active(
            users,
            user,
        ),
{
}

/// The membership gate on internal transfers, without any hypothesis on the
/// caller: a transfer is accepted only when both sides hold active
/// membership.
pub proof fn lemma_validate_requires_membership(
    state: MawariState,
    users: Seq<UserAccount>,
    caller: AccountId,
    validate_id: u64,
    from: AccountId,
    to: AccountId,
    amount: u64,
)
    ensures
        validate_result(state, users, caller, validate_id, from, to, amount) is Ok ==> is_active(
            users,
            from,
        ) && is_active(users, to),
{
}

/// Removal safety: a removal is accepted only for an existing record whose
/// balance is exactly zero — unconditionally, whoever calls and whatever the
/// state.
pub proof fn lemma_remove_requires_drained_balance(
    state: MawariState,
    users: Seq<UserAccount>,
    caller: AccountId,
    user: AccountId,
)
    ensures
        remove_result(state, users, caller, user) is Ok ==> has_user(users, user)
            && user_record(users, user).balance == 0,
{
}

} // verus!
