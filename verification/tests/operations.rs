//! Per-operation behavior of the program facade: gates, sequencing, counters,
//! timestamps and the membership lifecycle.

use mawari::AccountId;
use mawari::Mawari;
use mawari::MawariError;

fn auth() -> AccountId {
    AccountId { value: 1 }
}

fn mint() -> AccountId {
    AccountId { value: 2 }
}

#[test]
fn initialize_binds_authority_and_mint_and_zeroes_the_rest() {
    let m = Mawari::initialize(auth(), mint());
    let s = m.state();
    assert_eq!(s.authority, auth());
    assert_eq!(s.mawari_token_mint, mint());
    assert_eq!(s.vault_token_account, AccountId::unset());
    assert_eq!(s.expected_withdraw_id, 0);
    assert_eq!(s.expected_validate_id, 0);
    assert_eq!(s.total_users, 0);
    assert_eq!(s.total_locked_tokens, 0);
    assert_eq!(s.last_update, 0);
    assert_eq!(m.user(AccountId { value: 3 }), None);
}

#[test]
fn deposit_requires_an_existing_record() {
    let u = AccountId { value: 20 };
    let mut m = Mawari::initialize(auth(), mint());
    assert_eq!(m.deposit(u, 10, 100), Err(MawariError::NotWhitelisted));
}

#[test]
fn deposit_overflowing_the_locked_total_is_rejected() {
    let u1 = AccountId { value: 21 };
    let u2 = AccountId { value: 22 };
    let mut m = Mawari::initialize(auth(), mint());
    m.whitelist_user(auth(), u1, 100).unwrap();
    m.whitelist_user(auth(), u2, 100).unwrap();
    m.deposit(u1, u64::MAX, 101).unwrap();
    assert_eq!(m.deposit(u2, 1, 102), Err(MawariError::Overflow));
    assert_eq!(m.state().total_locked_tokens, u64::MAX);
    assert_eq!(m.user(u2).unwrap().balance, 0);
}

#[test]
fn deposit_updates_only_its_own_timestamp() {
    let u = AccountId { value: 23 };
    let mut m = Mawari::initialize(auth(), mint());
    m.whitelist_user(auth(), u, 100).unwrap();
    m.deposit(u, 5, 150).unwrap();
    let rec = m.user(u).unwrap();
    assert_eq!(rec.last_deposit, 150);
    assert_eq!(rec.last_withdrawal, 100);
    assert_eq!(rec.total_deposits, 1);
    assert_eq!(rec.total_withdrawals, 0);
    assert_eq!(m.state().last_update, 100);
}

#[test]
fn withdraw_requires_the_authority() {
    let u = AccountId { value: 24 };
    let mut m = Mawari::initialize(auth(), mint());
    m.whitelist_user(auth(), u, 100).unwrap();
    m.deposit(u, 10, 101).unwrap();
    assert_eq!(m.withdraw(u, 0, u, 5), Err(MawariError::Unauthorized));
    assert_eq!(m.user(u).unwrap().balance, 10);
}

#[test]
fn withdraw_requires_an_existing_active_record() {
    let u = AccountId { value: 25 };
    let mut m = Mawari::initialize(auth(), mint());
    assert_eq!(m.withdraw(auth(), 0, u, 5), Err(MawariError::NotWhitelisted));
    m.whitelist_user(auth(), u, 100).unwrap();
    m.remove_user(auth(), u, 101).unwrap();
    assert_eq!(m.withdraw(auth(), 0, u, 5), Err(MawariError::NotWhitelisted));
}

#[test]
fn withdraw_keeps_the_locked_total_unchanged() {
    let u = AccountId { value: 26 };
    let mut m = Mawari::initialize(auth(), mint());
    m.whitelist_user(auth(), u, 100).unwrap();
    m.deposit(u, 80, 101).unwrap();
    m.withdraw(auth(), 0, u, 30).unwrap();
    assert_eq!(m.user(u).unwrap().balance, 50);
    assert_eq!(m.state().total_locked_tokens, 80);
}

#[test]
fn consecutive_withdrawals_carry_consecutive_ids() {
    let u = AccountId { value: 27 };
    let mut m = Mawari::initialize(auth(), mint());
    m.whitelist_user(auth(), u, 100).unwrap();
    m.deposit(u, 30, 101).unwrap();
    assert_eq!(m.withdraw(auth(), 1, u, 10), Err(MawariError::InvalidWithdrawId));
    assert_eq!(m.withdraw(auth(), 0, u, 10).unwrap().withdraw_id, 0);
    assert_eq!(m.withdraw(auth(), 1, u, 10).unwrap().withdraw_id, 1);
    assert_eq!(m.withdraw(auth(), 2, u, 10).unwrap().withdraw_id, 2);
    assert_eq!(m.state().expected_withdraw_id, 3);
}

#[test]
fn validate_requires_the_authority_and_active_membership_on_both_sides() {
    let u1 = AccountId { value: 28 };
    let u2 = AccountId { value: 29 };
    let mut m = Mawari::initialize(auth(), mint());
    m.whitelist_user(auth(), u1, 100).unwrap();
    m.deposit(u1, 50, 101).unwrap();
    assert_eq!(m.validate(u1, 0, u1, u2, 10), Err(MawariError::Unauthorized));
    assert_eq!(m.validate(auth(), 0, u1, u2, 10), Err(MawariError::NotWhitelisted));
    assert_eq!(m.validate(auth(), 0, u2, u1, 10), Err(MawariError::NotWhitelisted));
    m.whitelist_user(auth(), u2, 102).unwrap();
    m.remove_user(auth(), u2, 103).unwrap();
    assert_eq!(m.validate(auth(), 0, u1, u2, 10), Err(MawariError::NotWhitelisted));
    assert_eq!(m.user(u1).unwrap().balance, 50);
    assert_eq!(m.state().expected_validate_id, 0);
}

#[test]
fn validate_to_self_moves_nothing_and_advances_the_counter() {
    let u = AccountId { value: 30 };
    let mut m = Mawari::initialize(auth(), mint());
    m.whitelist_user(auth(), u, 100).unwrap();
    m.deposit(u, 40, 101).unwrap();
    let v = m.validate(auth(), 0, u, u, 15).unwrap();
    assert_eq!(v.user_from, u);
    assert_eq!(v.user_to, u);
    assert_eq!(m.user(u).unwrap().balance, 40);
    assert_eq!(m.state().expected_validate_id, 1);
    assert_eq!(m.validate(auth(), 1, u, u, 41), Err(MawariError::InsufficientBalance));
}

#[test]
fn whitelist_requires_the_authority() {
    let u = AccountId { value: 31 };
    let mut m = Mawari::initialize(auth(), mint());
    assert_eq!(m.whitelist_user(u, u, 100), Err(MawariError::Unauthorized));
    assert_eq!(m.state().total_users, 0);
    assert_eq!(m.user(u), None);
}

#[test]
fn whitelist_sets_record_fields_and_counters() {
    let u = AccountId { value: 32 };
    let mut m = Mawari::initialize(auth(), mint());
    m.whitelist_user(auth(), u, 100).unwrap();
    let rec = m.user(u).unwrap();
    assert_eq!(rec.owner, u);
    assert!(rec.is_whitelisted);
    assert_eq!(rec.balance, 0);
    assert_eq!(rec.last_deposit, 100);
    assert_eq!(rec.last_withdrawal, 100);
    assert_eq!(rec.total_deposits, 0);
    assert_eq!(rec.total_withdrawals, 0);
    assert_eq!(m.state().total_users, 1);
    assert_eq!(m.state().last_update, 100);
}

#[test]
fn whitelisting_an_active_user_again_is_rejected_and_changes_nothing() {
    // A balance changes only through a deposit, a withdrawal or an internal
    // transfer, and the membership counter counts each active member exactly
    // once — so a repeated addition for a still-active membership is refused.
    let u = AccountId { value: 33 };
    let mut m = Mawari::initialize(auth(), mint());
    m.whitelist_user(auth(), u, 100).unwrap();
    m.deposit(u, 60, 101).unwrap();
    let before_state = *m.state();
    let before_user = m.user(u).unwrap();
    assert_eq!(m.whitelist_user(auth(), u, 102), Err(MawariError::AlreadyWhitelisted));
    assert_eq!(*m.state(), before_state);
    assert_eq!(m.user(u).unwrap(), before_user);
    assert_eq!(m.user(u).unwrap().balance, 60);
    assert_eq!(m.state().total_users, 1);
}

#[test]
fn reactivating_a_removed_user_starts_with_an_empty_balance() {
    let u = AccountId { value: 34 };
    let mut m = Mawari::initialize(auth(), mint());
    m.whitelist_user(auth(), u, 100).unwrap();
    m.deposit(u, 10, 101).unwrap();
    m.withdraw(auth(), 0, u, 10).unwrap();
    m.remove_user(auth(), u, 102).unwrap();
    m.whitelist_user(auth(), u, 103).unwrap();
    let rec = m.user(u).unwrap();
    assert!(rec.is_whitelisted);
    assert_eq!(rec.balance, 0);
    assert_eq!(rec.total_deposits, 1);
    assert_eq!(m.state().total_users, 1);
}

#[test]
fn balances_never_sum_to_more_than_the_locked_total() {
    let u1 = AccountId { value: 40 };
    let u2 = AccountId { value: 41 };
    let mut m = Mawari::initialize(auth(), mint());
    m.whitelist_user(auth(), u1, 100).unwrap();
    m.whitelist_user(auth(), u2, 100).unwrap();
    m.deposit(u1, 70, 101).unwrap();
    m.deposit(u2, 30, 102).unwrap();
    m.validate(auth(), 0, u1, u2, 25).unwrap();
    m.withdraw(auth(), 0, u2, 50).unwrap();
    let sum = m.user(u1).unwrap().balance + m.user(u2).unwrap().balance;
    assert_eq!(sum, 50);
    assert_eq!(m.state().total_locked_tokens, 100);
    assert!(sum <= m.state().total_locked_tokens);
}

#[test]
fn remove_requires_the_authority_and_an_active_record() {
    let u = AccountId { value: 35 };
    let mut m = Mawari::initialize(auth(), mint());
    assert_eq!(m.remove_user(auth(), u, 100), Err(MawariError::NotWhitelisted));
    m.whitelist_user(auth(), u, 101).unwrap();
    assert_eq!(m.remove_user(u, u, 102), Err(MawariError::Unauthorized));
    m.remove_user(auth(), u, 103).unwrap();
    assert_eq!(m.remove_user(auth(), u, 104), Err(MawariError::NotWhitelisted));
}

#[test]
fn remove_with_tokens_left_is_rejected() {
    let u = AccountId { value: 36 };
    let mut m = Mawari::initialize(auth(), mint());
    m.whitelist_user(auth(), u, 100).unwrap();
    m.deposit(u, 1, 101).unwrap();
    assert_eq!(m.remove_user(auth(), u, 102), Err(MawariError::InsufficientBalance));
    assert!(m.user(u).unwrap().is_whitelisted);
    assert_eq!(m.state().total_users, 1);
    m.withdraw(auth(), 0, u, 1).unwrap();
    assert!(m.remove_user(auth(), u, 103).is_ok());
}

#[test]
fn remove_keeps_history_and_refreshes_timestamps() {
    let u = AccountId { value: 37 };
    let mut m = Mawari::initialize(auth(), mint());
    m.whitelist_user(auth(), u, 100).unwrap();
    m.deposit(u, 7, 101).unwrap();
    m.withdraw(auth(), 0, u, 7).unwrap();
    m.remove_user(auth(), u, 200).unwrap();
    let rec = m.user(u).unwrap();
    assert!(!rec.is_whitelisted);
    assert_eq!(rec.owner, u);
    assert_eq!(rec.total_deposits, 1);
    assert_eq!(rec.last_deposit, 200);
    assert_eq!(rec.last_withdrawal, 200);
    assert_eq!(m.state().last_update, 200);
}
