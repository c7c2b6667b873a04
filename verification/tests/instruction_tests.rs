use gfx_task::AccountId;
use gfx_task::GfxTaskError;
use gfx_task::MONTH_IN_SECONDS;
use gfx_task::SECONDS_PER_DAY;
use gfx_task::deposit;
use gfx_task::initialize_treasury;
use gfx_task::initialize_vault;
use gfx_task::pay_interest;
use gfx_task::token_transfer;

fn addr(byte: u8) -> AccountId {
    AccountId::new(vec![byte; 32])
}

#[test]
fn month_is_thirty_days() {
    assert_eq!(SECONDS_PER_DAY, 86_400);
    assert_eq!(MONTH_IN_SECONDS, 2_592_000);
}

#[test]
fn payout_after_thirty_one_days() {
    let mut vault = initialize_vault(addr(1), addr(2));
    let mut vault_balance: u64 = 1_000;
    let mut treasury_balance: u64 = 500;
    let now: i64 = 31 * 86_400;

    let r = pay_interest(&mut vault, &mut vault_balance, &mut treasury_balance, now);

    assert_eq!(r, Ok(10));
    assert_eq!(vault.last_interest_payment_timestamp, now);
    assert_eq!(vault_balance, 1_010);
    assert_eq!(treasury_balance, 490);
}

#[test]
fn payout_too_early_fails() {
    let mut vault = initialize_vault(addr(1), addr(2));
    vault.last_interest_payment_timestamp = 0;
    let mut vault_balance: u64 = 1_000;
    let mut treasury_balance: u64 = 500;
    let now: i64 = 10 * 86_400;

    let r = pay_interest(&mut vault, &mut vault_balance, &mut treasury_balance, now);

    assert_eq!(r, Err(GfxTaskError::InterestAlreadyPaid));
    assert_eq!(vault.last_interest_payment_timestamp, 0);
    assert_eq!(vault_balance, 1_000);
    assert_eq!(treasury_balance, 500);
}

#[test]
fn payout_at_exact_cooldown_succeeds() {
    let mut vault = initialize_vault(addr(1), addr(2));
    vault.last_interest_payment_timestamp = 100;
    let mut vault_balance: u64 = 2_000;
    let mut treasury_balance: u64 = 100;
    let now: i64 = 100 + 2_592_000;

    let r = pay_interest(&mut vault, &mut vault_balance, &mut treasury_balance, now);

    assert_eq!(r, Ok(20));
    assert_eq!(vault.last_interest_payment_timestamp, now);
    assert_eq!(vault_balance, 2_020);
    assert_eq!(treasury_balance, 80);
}

#[test]
fn payout_one_second_short_fails() {
    let mut vault = initialize_vault(addr(1), addr(2));
    vault.last_interest_payment_timestamp = 100;
    let mut vault_balance: u64 = 2_000;
    let mut treasury_balance: u64 = 100;
    let now: i64 = 100 + 2_591_999;

    let r = pay_interest(&mut vault, &mut vault_balance, &mut treasury_balance, now);

    assert_eq!(r, Err(GfxTaskError::InterestAlreadyPaid));
    assert_eq!(vault.last_interest_payment_timestamp, 100);
    assert_eq!(vault_balance, 2_000);
    assert_eq!(treasury_balance, 100);
}

#[test]
fn small_balance_pays_zero_but_updates_timestamp() {
    let mut vault = initialize_vault(addr(1), addr(2));
    let mut vault_balance: u64 = 99;
    let mut treasury_balance: u64 = 1_000;
    let now: i64 = 40 * 86_400;

    let r = pay_interest(&mut vault, &mut vault_balance, &mut treasury_balance, now);

    assert_eq!(r, Ok(0));
    assert_eq!(vault.last_interest_payment_timestamp, now);
    assert_eq!(vault_balance, 99);
    assert_eq!(treasury_balance, 1_000);
}

#[test]
fn payout_with_poor_treasury_fails() {
    let mut vault = initialize_vault(addr(1), addr(2));
    let mut vault_balance: u64 = 1_000;
    let mut treasury_balance: u64 = 9;
    let now: i64 = 31 * 86_400;

    let r = pay_interest(&mut vault, &mut vault_balance, &mut treasury_balance, now);

    assert_eq!(r, Err(GfxTaskError::InsufficientFunds));
    assert_eq!(vault.last_interest_payment_timestamp, 0);
    assert_eq!(vault_balance, 1_000);
    assert_eq!(treasury_balance, 9);
}

#[test]
fn payout_keeps_vault_identity() {
    let mut vault = initialize_vault(addr(7), addr(8));
    let mut vault_balance: u64 = 300;
    let mut treasury_balance: u64 = 300;
    let now: i64 = 45 * 86_400;

    let r = pay_interest(&mut vault, &mut vault_balance, &mut treasury_balance, now);

    assert_eq!(r, Ok(3));
    assert_eq!(vault.user.bytes, vec![7u8; 32]);
    assert_eq!(vault.mint.bytes, vec![8u8; 32]);
}

#[test]
fn fresh_vault_starts_eligible() {
    let vault = initialize_vault(addr(1), addr(2));
    assert_eq!(vault.last_interest_payment_timestamp, 0);
    assert_eq!(vault.user.bytes, vec![1u8; 32]);
    assert_eq!(vault.mint.bytes, vec![2u8; 32]);
}

#[test]
fn deposit_into_fresh_vault() {
    let vault = initialize_vault(addr(1), addr(2));
    let mut from_balance: u64 = 700;
    let mut vault_balance: u64 = 0;

    let r = deposit(500, &mut from_balance, &mut vault_balance);

    assert_eq!(r, Ok(()));
    assert_eq!(vault_balance, 500);
    assert_eq!(from_balance, 200);
    assert_eq!(vault.user.bytes, vec![1u8; 32]);
    assert_eq!(vault.mint.bytes, vec![2u8; 32]);
    assert_eq!(vault.last_interest_payment_timestamp, 0);
}

#[test]
fn deposit_more_than_held_fails() {
    let mut from_balance: u64 = 400;
    let mut vault_balance: u64 = 10;

    let r = deposit(500, &mut from_balance, &mut vault_balance);

    assert_eq!(r, Err(GfxTaskError::InsufficientFunds));
    assert_eq!(from_balance, 400);
    assert_eq!(vault_balance, 10);
}

#[test]
fn deposit_overflowing_vault_fails() {
    let mut from_balance: u64 = u64::MAX;
    let mut vault_balance: u64 = u64::MAX - 10;

    let r = deposit(11, &mut from_balance, &mut vault_balance);

    assert_eq!(r, Err(GfxTaskError::BalanceOverflow));
    assert_eq!(from_balance, u64::MAX);
    assert_eq!(vault_balance, u64::MAX - 10);
}

#[test]
fn transfer_moves_exact_amount() {
    let mut source: u64 = 50;
    let mut dest: u64 = 5;

    let r = token_transfer(&mut source, &mut dest, 50);

    assert_eq!(r, Ok(()));
    assert_eq!(source, 0);
    assert_eq!(dest, 55);
}

#[test]
fn treasury_funding_by_admin() {
    let admin = addr(9);
    let signer = addr(9);
    let mut admin_balance: u64 = 1_000;
    let mut treasury_balance: u64 = 0;

    let r = initialize_treasury(&signer, &admin, 600, &mut admin_balance, &mut treasury_balance);

    assert_eq!(r, Ok(()));
    assert_eq!(admin_balance, 400);
    assert_eq!(treasury_balance, 600);
}

#[test]
fn treasury_funding_by_stranger_fails() {
    let admin = addr(9);
    let signer = addr(10);
    let mut admin_balance: u64 = 1_000;
    let mut treasury_balance: u64 = 0;

    let r = initialize_treasury(&signer, &admin, 600, &mut admin_balance, &mut treasury_balance);

    assert_eq!(r, Err(GfxTaskError::UnauthorizedSigner));
    assert_eq!(admin_balance, 1_000);
    assert_eq!(treasury_balance, 0);
}

#[test]
fn treasury_funding_without_funds_fails() {
    let admin = addr(9);
    let mut admin_balance: u64 = 100;
    let mut treasury_balance: u64 = 0;

    let r = initialize_treasury(&admin, &admin, 600, &mut admin_balance, &mut treasury_balance);

    assert_eq!(r, Err(GfxTaskError::InsufficientFunds));
    assert_eq!(admin_balance, 100);
    assert_eq!(treasury_balance, 0);
}

#[test]
fn second_payout_within_month_fails() {
    let mut vault = initialize_vault(addr(1), addr(2));
    let mut vault_balance: u64 = 1_000;
    let mut treasury_balance: u64 = 500;

    let first: i64 = 31 * 86_400;
    assert_eq!(
        pay_interest(&mut vault, &mut vault_balance, &mut treasury_balance, first),
        Ok(10)
    );

    let second: i64 = 40 * 86_400;
    assert_eq!(
        pay_interest(&mut vault, &mut vault_balance, &mut treasury_balance, second),
        Err(GfxTaskError::InterestAlreadyPaid)
    );
    assert_eq!(vault.last_interest_payment_timestamp, first);

    let third: i64 = 62 * 86_400;
    assert_eq!(
        pay_interest(&mut vault, &mut vault_balance, &mut treasury_balance, third),
        Ok(10)
    );
    assert_eq!(vault.last_interest_payment_timestamp, third);
    assert_eq!(vault_balance, 1_020);
    assert_eq!(treasury_balance, 480);
}

#[test]
fn account_id_matches_compares_bytes() {
    let a = addr(4);
    let b = addr(4);
    let c = addr(5);
    assert!(a.matches(&b));
    assert!(!a.matches(&c));
}
