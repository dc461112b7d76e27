//! The program facade: one `Mawari` value stands for everything the host
//! platform persists for this program — the global state record and every
//! participant record ever created. Each public operation resolves the
//! referenced participant records (as the platform's address derivation
//! would), runs the corresponding handler, and returns the domain event a
//! successful call publishes.

use vstd::prelude::*;
use vstd::pervasive::VecAdditionalExecFns;
use crate::error::MawariError;
use crate::events::DepositAdded;
use crate::events::UserAdded;
use crate::events::UserRemoved;
use crate::events::Validated;
use crate::events::Withdrawn;
use crate::instructions::deposit;
use crate::instructions::initialize;
use crate::instructions::validate;
use crate::instructions::whitelist;
use crate::instructions::withdraw;
use crate::state::AccountId;
use crate::state::MawariState;
use crate::state::UserAccount;

verus! {

/// Sum of the balances recorded across a sequence of participant records.
pub open spec fn sum_balances(users: Seq<UserAccount>) -> int
    decreases users.len(),
{
    if users.len() == 0 {
        0
    } else {
        sum_balances(users.drop_last()) + users.last().balance
    }
}

/// How many of the records are currently whitelisted.
pub open spec fn active_users(users: Seq<UserAccount>) -> int
    decreases users.len(),
{
    if users.len() == 0 {
        0
    } else {
        active_users(users.drop_last()) + if users.last().is_whitelisted { 1int } else { 0int }
    }
}

/// Each identity owns at most one record.
pub open spec fn distinct_owners(users: Seq<UserAccount>) -> bool {
    forall|i: int, j: int| 0 <= i < j < users.len() ==> users[i].owner != users[j].owner
}

/// A deactivated record holds no balance.
pub open spec fn inactive_records_empty(users: Seq<UserAccount>) -> bool {
    forall|i: int| 0 <= i < users.len() && !users[i].is_whitelisted ==> users[i].balance == 0
}

/// Whether some record is bound to `id`.
pub open spec fn has_user(users: Seq<UserAccount>, id: AccountId) -> bool {
    exists|i: int| 0 <= i < users.len() && users[i].owner == id
}

/// The index of the record bound to `id` (unique under `distinct_owners`).
pub open spec fn user_index(users: Seq<UserAccount>, id: AccountId) -> int {
    choose|i: int| 0 <= i < users.len() && users[i].owner == id
}

/// The record bound to `id`.
pub open spec fn user_record(users: Seq<UserAccount>, id: AccountId) -> UserAccount {
    users[user_index(users, id)]
}

/// Whether `id` currently holds active membership.
pub open spec fn is_active(users: Seq<UserAccount>, id: AccountId) -> bool {
    has_user(users, id) && user_record(users, id).is_whitelisted
}

/// What a deposit call returns, over the pre-state.
pub open spec fn deposit_result(
    state: MawariState,
    users: Seq<UserAccount>,
    user: AccountId,
    amount: u64,
) -> Result<DepositAdded, MawariError> {
    if !has_user(users, user) {
        Err(MawariError::NotWhitelisted)
    } else {
        match deposit::deposit_outcome(state, user_record(users, user), amount) {
            Ok(()) => Ok(DepositAdded { user, amount }),
            Err(e) => Err(e),
        }
    }
}

/// The participant records after a successful deposit.
pub open spec fn deposit_users_after(
    users: Seq<UserAccount>,
    user: AccountId,
    amount: u64,
    now: i64,
) -> Seq<UserAccount> {
    users.update(user_index(users, user), deposit::deposit_user(user_record(users, user), amount, now))
}

/// What a withdraw call returns, over the pre-state.
pub open spec fn withdraw_result(
    state: MawariState,
    users: Seq<UserAccount>,
    caller: AccountId,
    withdraw_id: u64,
    user: AccountId,
    amount: u64,
) -> Result<Withdrawn, MawariError> {
    if caller != state.authority {
        Err(MawariError::Unauthorized)
    } else if !has_user(users, user) {
        Err(MawariError::NotWhitelisted)
    } else {
        match withdraw::withdraw_outcome(state, user_record(users, user), caller, withdraw_id, amount) {
            Ok(()) => Ok(Withdrawn { withdraw_id, user, amount }),
            Err(e) => Err(e),
        }
    }
}

/// The participant records after a successful withdrawal.
pub open spec fn withdraw_users_after(
    users: Seq<UserAccount>,
    user: AccountId,
    amount: u64,
) -> Seq<UserAccount> {
    users.update(user_index(users, user), withdraw::withdraw_user(user_record(users, user), amount))
}

/// What a validate call returns, over the pre-state. A transfer from a
/// record to itself debits and credits the same balance, so it can never
/// overflow the receiving side.
pub open spec fn validate_result(
    state: MawariState,
    users: Seq<UserAccount>,
    caller: AccountId,
    validate_id: u64,
    from: AccountId,
    to: AccountId,
    amount: u64,
) -> Result<Validated, MawariError> {
    if caller != state.authority {
        Err(MawariError::Unauthorized)
    } else if !is_active(users, from) {
        Err(MawariError::NotWhitelisted)
    } else if !is_active(users, to) {
        Err(MawariError::NotWhitelisted)
    } else if validate_id != state.expected_validate_id {
        Err(MawariError::InvalidValidateId)
    } else if user_record(users, from).balance < amount {
        Err(MawariError::InsufficientBalance)
    } else if from != to && user_record(users, to).balance + amount > u64::MAX {
        Err(MawariError::Overflow)
    } else if state.expected_validate_id + 1 > u64::MAX {
        Err(MawariError::Overflow)
    } else {
        Ok(Validated { validate_id, user_from: from, user_to: to, amount })
    }
}

/// The participant records after a successful internal transfer: zero-sum,
/// and the identity transfer leaves every record as it was.
pub open spec fn validate_users_after(
    users: Seq<UserAccount>,
    from: AccountId,
    to: AccountId,
    amount: u64,
) -> Seq<UserAccount> {
    if from == to {
        users
    } else {
        users.update(
            user_index(users, from),
            validate::validate_from(user_record(users, from), amount),
        ).update(
            user_index(users, to),
            validate::validate_to(user_record(users, to), amount),
        )
    }
}

/// The record a whitelist addition works on: the existing one bound to
/// `user`, or the zero-initialized record the platform creates for a first
/// whitelisting.
pub open spec fn whitelist_record_before(users: Seq<UserAccount>, user: AccountId) -> UserAccount {
    if has_user(users, user) {
        user_record(users, user)
    } else {
        UserAccount::spec_default()
    }
}

/// What a whitelist addition returns, over the pre-state.
pub open spec fn whitelist_result(
    state: MawariState,
    users: Seq<UserAccount>,
    caller: AccountId,
    user: AccountId,
) -> Result<UserAdded, MawariError> {
    match whitelist::add_user_outcome(state, whitelist_record_before(users, user), caller, user) {
        Ok(()) => Ok(UserAdded { user }),
        Err(e) => Err(e),
    }
}

/// The participant records after a successful whitelist addition.
pub open spec fn whitelist_users_after(
    users: Seq<UserAccount>,
    user: AccountId,
    now: i64,
) -> Seq<UserAccount> {
    if has_user(users, user) {
        users.update(
            user_index(users, user),
            whitelist::add_user_account(user_record(users, user), user, now),
        )
    } else {
        users.push(whitelist::add_user_account(UserAccount::spec_default(), user, now))
    }
}

/// What a removal returns, over the pre-state.
pub open spec fn remove_result(
    state: MawariState,
    users: Seq<UserAccount>,
    caller: AccountId,
    user: AccountId,
) -> Result<UserRemoved, MawariError> {
    if caller != state.authority {
        Err(MawariError::Unauthorized)
    } else if !has_user(users, user) {
        Err(MawariError::NotWhitelisted)
    } else {
        match whitelist::remove_user_outcome(state, user_record(users, user), caller) {
            Ok(()) => Ok(UserRemoved { user }),
            Err(e) => Err(e),
        }
    }
}

/// The participant records after a successful removal.
pub open spec fn remove_users_after(users: Seq<UserAccount>, user: AccountId, now: i64) -> Seq<UserAccount> {
    users.update(
        user_index(users, user),
        whitelist::remove_user_account(user_record(users, user), now),
    )
}

/// The global state together with every participant record.
pub struct Mawari {
    state: MawariState,
    users: Vec<UserAccount>,
}

impl Mawari {
    pub closed spec fn spec_state(self) -> MawariState {
        self.state
    }

    pub closed spec fn spec_users(self) -> Seq<UserAccount> {
        self.users@
    }

    /// The well-formedness every reachable state satisfies: unique record
    /// ownership, no balance left on a deactivated record, balances that sum
    /// to no more than the recorded locked total, and a membership counter
    /// that counts the active members exactly.
    pub open spec fn inv(self) -> bool {
        &&& distinct_owners(self.spec_users())
        &&& inactive_records_empty(self.spec_users())
        &&& sum_balances(self.spec_users()) <= self.spec_state().total_locked_tokens
        &&& active_users(self.spec_users()) == self.spec_state().total_users
    }

    /// Bootstrap: a fresh program with no participants and nothing locked.
    pub fn initialize(authority: AccountId, mawari_token_mint: AccountId) -> (m: Mawari)
        ensures
            m.inv(),
            m.spec_state() == initialize::initialized_state(authority, mawari_token_mint),
            m.spec_users() == Seq::<UserAccount>::empty(),
    {
        let m = Mawari { state: initialize::handler(authority, mawari_token_mint), users: Vec::new() };
        proof {
            assert(m.spec_users() =~= Seq::<UserAccount>::empty());
        }
        m
    }

    /// Read access to the global state record.
    pub fn state(&self) -> (r: &MawariState)
        ensures
            *r == self.spec_state(),
    {
        &self.state
    }

    /// The record bound to `id`, if one was ever created.
    pub fn user(&self, id: AccountId) -> (r: Option<UserAccount>)
        requires
            self.inv(),
        ensures
            has_user(self.spec_users(), id) ==> r == Some(user_record(self.spec_users(), id)),
            !has_user(self.spec_users(), id) ==> r is None,
    {
        match self.find_user(id) {
            Some(i) => {
                proof {
                    lemma_user_index_unique(self.spec_users(), id, i as int);
                }
                Some(self.users[i])
            },
            None => None,
        }
    }

    /// Credit `amount` to `user`'s balance and to the locked total. The
    /// caller (the participant, authenticated by the platform) must move the
    /// same amount into the vault atomically with this call.
    pub fn deposit(&mut self, user: AccountId, amount: u64, now: i64) -> (r: Result<
        DepositAdded,
        MawariError,
    >)
        requires
            old(self).inv(),
        ensures
            final(self).inv(),
            r == deposit_result(old(self).spec_state(), old(self).spec_users(), user, amount),
            r is Err ==> final(self).spec_state() == old(self).spec_state()
                && final(self).spec_users() == old(self).spec_users(),
            r is Ok ==> final(self).spec_state() == deposit::deposit_state(old(self).spec_state(), amount),
            r is Ok ==> final(self).spec_users() == deposit_users_after(
                old(self).spec_users(),
                user,
                amount,
                now,
            ),
    {
        let ghost pre = self.spec_users();
        match self.find_user(user) {
            Some(i) => {
                proof {
                    lemma_user_index_unique(pre, user, i as int);
                }
                let mut record = self.users[i];
                let res = deposit::handler(&mut self.state, &mut record, amount, now);
                match res {
                    Ok(()) => {
                        self.users.set(i, record);
                        proof {
                            lemma_sum_update(pre, i as int, record);
                            lemma_active_update(pre, i as int, record);
                            lemma_wf_update(pre, i as int, record);
                        }
                        Ok(DepositAdded { user, amount })
                    },
                    Err(e) => Err(e),
                }
            },
            None => Err(MawariError::NotWhitelisted),
        }
    }

    /// Debit `amount` from `user`'s balance, gated on the authority and on
    /// the next withdraw id. The platform must move the same amount out of
    /// the vault, under the vault's derived signing capability, atomically
    /// with this call.
    pub fn withdraw(
        &mut self,
        caller: AccountId,
        withdraw_id: u64,
        user: AccountId,
        amount: u64,
    ) -> (r: Result<Withdrawn, MawariError>)
        requires
            old(self).inv(),
        ensures
            final(self).inv(),
            r == withdraw_result(
                old(self).spec_state(),
                old(self).spec_users(),
                caller,
                withdraw_id,
                user,
                amount,
            ),
            r is Err ==> final(self).spec_state() == old(self).spec_state()
                && final(self).spec_users() == old(self).spec_users(),
            r is Ok ==> final(self).spec_state() == withdraw::withdraw_state(old(self).spec_state()),
            r is Ok ==> final(self).spec_users() == withdraw_users_after(
                old(self).spec_users(),
                user,
                amount,
            ),
    {
        let ghost pre = self.spec_users();
        if caller != self.state.authority {
            return Err(MawariError::Unauthorized);
        }
        match self.find_user(user) {
            Some(i) => {
                proof {
                    lemma_user_index_unique(pre, user, i as int);
                }
                let mut record = self.users[i];
                let res = withdraw::handler(caller, &mut self.state, &mut record, withdraw_id, amount);
                match res {
                    Ok(()) => {
                        self.users.set(i, record);
                        proof {
                            lemma_sum_update(pre, i as int, record);
                            lemma_active_update(pre, i as int, record);
                            lemma_wf_update(pre, i as int, record);
                        }
                        Ok(Withdrawn { withdraw_id, user, amount })
                    },
                    Err(e) => Err(e),
                }
            },
            None => Err(MawariError::NotWhitelisted),
        }
    }

    /// Re-allocate `amount` from `from`'s balance to `to`'s, gated on the
    /// authority and on the next validate id. Zero-sum: no tokens enter or
    /// leave custody.
    pub fn validate(
        &mut self,
        caller: AccountId,
        validate_id: u64,
        from: AccountId,
        to: AccountId,
        amount: u64,
    ) -> (r: Result<Validated, MawariError>)
        requires
            old(self).inv(),
        ensures
            final(self).inv(),
            r == validate_result(
                old(self).spec_state(),
                old(self).spec_users(),
                caller,
                validate_id,
                from,
                to,
                amount,
            ),
            r is Err ==> final(self).spec_state() == old(self).spec_state()
                && final(self).spec_users() == old(self).spec_users(),
            r is Ok ==> final(self).spec_state() == validate::validate_state(old(self).spec_state()),
            r is Ok ==> final(self).spec_users() == validate_users_after(
                old(self).spec_users(),
                from,
                to,
                amount,
            ),
    {
        let ghost pre = self.spec_users();
        if caller != self.state.authority {
            return Err(MawariError::Unauthorized);
        }
        let fi = match self.find_user(from) {
            Some(i) => i,
            None => return Err(MawariError::NotWhitelisted),
        };
        proof {
            lemma_user_index_unique(pre, from, fi as int);
        }
        if !self.users[fi].is_whitelisted {
            return Err(MawariError::NotWhitelisted);
        }
        let ti = match self.find_user(to) {
            Some(i) => i,
            None => return Err(MawariError::NotWhitelisted),
        };
        proof {
            lemma_user_index_unique(pre, to, ti as int);
        }
        if !self.users[ti].is_whitelisted {
            return Err(MawariError::NotWhitelisted);
        }
        if fi == ti {
            // A transfer from a record to itself: the debit and the credit
            // cancel, so only the checks and the sequence counter remain.
            if validate_id != self.state.expected_validate_id {
                return Err(MawariError::InvalidValidateId);
            }
            if self.users[fi].balance < amount {
                return Err(MawariError::InsufficientBalance);
            }
            let next_id = match self.state.expected_validate_id.checked_add(1) {
                Some(v) => v,
                None => return Err(MawariError::Overflow),
            };
            self.state.expected_validate_id = next_id;
            return Ok(Validated { validate_id, user_from: from, user_to: to, amount });
        }
        let mut from_record = self.users[fi];
        let mut to_record = self.users[ti];
        let res = validate::handler(
            caller,
            &mut self.state,
            &mut from_record,
            &mut to_record,
            validate_id,
            amount,
        );
        match res {
            Ok(()) => {
                self.users.set(fi, from_record);
                self.users.set(ti, to_record);
                proof {
                    let mid = pre.update(fi as int, from_record);
                    lemma_sum_update(pre, fi as int, from_record);
                    lemma_active_update(pre, fi as int, from_record);
                    lemma_wf_update(pre, fi as int, from_record);
                    lemma_sum_update(mid, ti as int, to_record);
                    lemma_active_update(mid, ti as int, to_record);
                    lemma_wf_update(mid, ti as int, to_record);
                }
                Ok(Validated { validate_id, user_from: from, user_to: to, amount })
            },
            Err(e) => Err(e),
        }
    }

    /// Whitelist `user`: create the record, or reactivate the deactivated
    /// one already bound to `user`, gated on the authority. A still-active
    /// membership is refused.
    pub fn whitelist_user(&mut self, caller: AccountId, user: AccountId, now: i64) -> (r: Result<
        UserAdded,
        MawariError,
    >)
        requires
            old(self).inv(),
        ensures
            final(self).inv(),
            r == whitelist_result(old(self).spec_state(), old(self).spec_users(), caller, user),
            r is Err ==> final(self).spec_state() == old(self).spec_state()
                && final(self).spec_users() == old(self).spec_users(),
            r is Ok ==> final(self).spec_state() == whitelist::add_user_state(
                old(self).spec_state(),
                now,
            ),
            r is Ok ==> final(self).spec_users() == whitelist_users_after(
                old(self).spec_users(),
                user,
                now,
            ),
    {
        let ghost pre = self.spec_users();
        match self.find_user(user) {
            Some(i) => {
                proof {
                    lemma_user_index_unique(pre, user, i as int);
                }
                let mut record = self.users[i];
                let res = whitelist::add_user_handler(caller, &mut self.state, &mut record, user, now);
                match res {
                    Ok(()) => {
                        self.users.set(i, record);
                        proof {
                            lemma_sum_update(pre, i as int, record);
                            lemma_active_update(pre, i as int, record);
                            lemma_wf_update(pre, i as int, record);
                        }
                        Ok(UserAdded { user })
                    },
                    Err(e) => Err(e),
                }
            },
            None => {
                let mut record = UserAccount::default();
                let res = whitelist::add_user_handler(caller, &mut self.state, &mut record, user, now);
                match res {
                    Ok(()) => {
                        self.users.push(record);
                        proof {
                            lemma_sum_push(pre, record);
                            lemma_active_push(pre, record);
                            lemma_wf_push(pre, record);
                        }
                        Ok(UserAdded { user })
                    },
                    Err(e) => Err(e),
                }
            },
        }
    }

    /// Deactivate `user`'s membership, gated on the authority and on a fully
    /// drained balance. The record and its history fields are kept.
    pub fn remove_user(&mut self, caller: AccountId, user: AccountId, now: i64) -> (r: Result<
        UserRemoved,
        MawariError,
    >)
        requires
            old(self).inv(),
        ensures
            final(self).inv(),
            r == remove_result(old(self).spec_state(), old(self).spec_users(), caller, user),
            r is Err ==> final(self).spec_state() == old(self).spec_state()
                && final(self).spec_users() == old(self).spec_users(),
            r is Ok ==> final(self).spec_state() == whitelist::remove_user_state(
                old(self).spec_state(),
                now,
            ),
            r is Ok ==> final(self).spec_users() == remove_users_after(
                old(self).spec_users(),
                user,
                now,
            ),
    {
        let ghost pre = self.spec_users();
        if caller != self.state.authority {
            return Err(MawariError::Unauthorized);
        }
        match self.find_user(user) {
            Some(i) => {
                proof {
                    lemma_user_index_unique(pre, user, i as int);
                }
                let mut record = self.users[i];
                let res = whitelist::remove_user_handler(caller, &mut self.state, &mut record, now);
                match res {
                    Ok(()) => {
                        self.users.set(i, record);
                        proof {
                            lemma_sum_update(pre, i as int, record);
                            lemma_active_update(pre, i as int, record);
                            lemma_wf_update(pre, i as int, record);
                        }
                        Ok(UserRemoved { user })
                    },
                    Err(e) => Err(e),
                }
            },
            None => Err(MawariError::NotWhitelisted),
        }
    }

    /// Linear scan for the record bound to `id`.
    fn find_user(&self, id: AccountId) -> (r: Option<usize>)
        ensures
            match r {
                Some(i) => i < self.spec_users().len() && self.spec_users()[i as int].owner == id,
                None => !has_user(self.spec_users(), id),
            },
    {
        let n = self.users.len();
        let mut i: usize = 0;
        while i < n
            invariant
                i <= n,
                n == self.spec_users().len(),
                forall|k: int| 0 <= k < i ==> self.spec_users()[k].owner != id,
            decreases n - i,
        {
            if self.users[i].owner == id {
                return Some(i);
            }
            i = i + 1;
        }
        None
    }
}

/// Under unique ownership, the index found for an identity is the one
/// `user_index` denotes.
pub proof fn lemma_user_index_unique(users: Seq<UserAccount>, id: AccountId, i: int)
    requires
        distinct_owners(users),
        0 <= i < users.len(),
        users[i].owner == id,
    ensures
        has_user(users, id),
        user_index(users, id) == i,
{
    assert(has_user(users, id));
    let j = user_index(users, id);
    assert(0 <= j < users.len() && users[j].owner == id);
    if i < j {
        assert(users[i].owner != users[j].owner);
    } else if j < i {
        assert(users[j].owner != users[i].owner);
    }
}

/// Replacing one record changes the balance sum by exactly the difference of
/// the two balances.
pub(crate) proof fn lemma_sum_update(users: Seq<UserAccount>, i: int, v: UserAccount)
    requires
        0 <= i < users.len(),
    ensures
        sum_balances(users.update(i, v)) == sum_balances(users) - users[i].balance + v.balance,
    decreases users.len(),
{
    let updated = users.update(i, v);
    if i == users.len() - 1 {
        assert(updated.drop_last() =~= users.drop_last());
    } else {
        assert(updated.drop_last() =~= users.drop_last().update(i, v));
        lemma_sum_update(users.drop_last(), i, v);
    }
}

/// Appending a record adds its balance to the sum.
proof fn lemma_sum_push(users: Seq<UserAccount>, v: UserAccount)
    ensures
        sum_balances(users.push(v)) == sum_balances(users) + v.balance,
{
    assert(users.push(v).drop_last() =~= users);
}

/// Replacing one record changes the active count by the difference of the
/// two membership flags.
proof fn lemma_active_update(users: Seq<UserAccount>, i: int, v: UserAccount)
    requires
        0 <= i < users.len(),
    ensures
        active_users(users.update(i, v)) == active_users(users) - (
            if users[i].is_whitelisted { 1int } else { 0int }
        ) + (if v.is_whitelisted { 1int } else { 0int }),
    decreases users.len(),
{
    let updated = users.update(i, v);
    if i == users.len() - 1 {
        assert(updated.drop_last() =~= users.drop_last());
    } else {
        assert(updated.drop_last() =~= users.drop_last().update(i, v));
        lemma_active_update(users.drop_last(), i, v);
    }
}

/// Appending an active record raises the active count by one, an inactive
/// one not at all.
proof fn lemma_active_push(users: Seq<UserAccount>, v: UserAccount)
    ensures
        active_users(users.push(v)) == active_users(users) + (
            if v.is_whitelisted { 1int } else { 0int }
        ),
{
    assert(users.push(v).drop_last() =~= users);
}

/// Replacing a record without rebinding its owner keeps ownership unique,
/// and keeps deactivated records empty as long as the new record obeys that
/// rule itself.
proof fn lemma_wf_update(users: Seq<UserAccount>, i: int, v: UserAccount)
    requires
        distinct_owners(users),
        inactive_records_empty(users),
        0 <= i < users.len(),
        v.owner == users[i].owner,
        !v.is_whitelisted ==> v.balance == 0,
    ensures
        distinct_owners(users.update(i, v)),
        inactive_records_empty(users.update(i, v)),
{
    let updated = users.update(i, v);
    assert forall|p: int, q: int| 0 <= p < q < updated.len() implies updated[p].owner
        != updated[q].owner by {
        assert(users[p].owner != users[q].owner);
    }
    assert forall|k: int|
        0 <= k < updated.len() && !updated[k].is_whitelisted implies updated[k].balance == 0 by {
        if k != i {
            assert(updated[k] == users[k]);
        }
    }
}

/// Appending a record for an identity that owns no record yet keeps
/// ownership unique, and keeps deactivated records empty as long as the new
/// record obeys that rule itself.
proof fn lemma_wf_push(users: Seq<UserAccount>, v: UserAccount)
    requires
        distinct_owners(users),
        inactive_records_empty(users),
        !has_user(users, v.owner),
        !v.is_whitelisted ==> v.balance == 0,
    ensures
        distinct_owners(users.push(v)),
        inactive_records_empty(users.push(v)),
{
    let updated = users.push(v);
    assert forall|p: int, q: int| 0 <= p < q < updated.len() implies updated[p].owner
        != updated[q].owner by {
        if q == users.len() {
            assert(updated[p] == users[p]);
            if users[p].owner == v.owner {
                assert(has_user(users, v.owner));
            }
        } else {
            assert(users[p].owner != users[q].owner);
        }
    }
    assert forall|k: int|
        0 <= k < updated.len() && !updated[k].is_whitelisted implies updated[k].balance == 0 by {
        if k < users.len() {
            assert(updated[k] == users[k]);
        }
    }
}

} // verus!
