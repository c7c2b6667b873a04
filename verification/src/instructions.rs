use vstd::prelude::*;

use crate::state::AccountId;
use crate::state::Vault;
use crate::token::GfxTaskError;
use crate::token::token_transfer;
use crate::token::transfer_ok;

verus! {

pub const SECONDS_PER_DAY: i64 = 86400;

/// The payout cooldown: thirty days.
pub const MONTH_IN_SECONDS: i64 = SECONDS_PER_DAY * 30;

/// Fund the treasury: move `amount` tokens from the admin's account into the
/// treasury token account. Only the configured admin identity may do so; any
/// other signer is rejected before funds move.
pub fn initialize_treasury(
    signer: &AccountId,
    admin: &AccountId,
    amount: u64,
    admin_balance: &mut u64,
    treasury_balance: &mut u64,
) -> (r: Result<(), GfxTaskError>)
    ensures
        signer@ != admin@ ==> r == Err::<(), GfxTaskError>(GfxTaskError::UnauthorizedSigner),
        signer@ == admin@ ==> {
            &&& (r is Ok <==> transfer_ok(*old(admin_balance), *old(treasury_balance), amount))
            &&& (r is Ok ==> *final(admin_balance) == *old(admin_balance) - amount
                && *final(treasury_balance) == *old(treasury_balance) + amount)
            &&& (amount > *old(admin_balance) ==> r == Err::<(), GfxTaskError>(
                GfxTaskError::InsufficientFunds,
            ))
            &&& (amount <= *old(admin_balance) && *old(treasury_balance) + amount > u64::MAX ==> r
                == Err::<(), GfxTaskError>(GfxTaskError::BalanceOverflow))
        },
        r is Err ==> *final(admin_balance) == *old(admin_balance) && *final(treasury_balance)
            == *old(treasury_balance),
{
    if !signer.matches(admin) {
        return Err(GfxTaskError::UnauthorizedSigner);
    }
    token_transfer(admin_balance, treasury_balance, amount)
}

/// Create a vault record for `user` and `mint`. The interest timestamp starts
/// at zero, so a brand-new vault is immediately eligible for a payout.
pub fn initialize_vault(user: AccountId, mint: AccountId) -> (v: Vault)
    ensures
        v.user@ == user@,
        v.mint@ == mint@,
        v.last_interest_payment_timestamp == 0,
        user.wf() && mint.wf() ==> v.wf(),
{
    Vault { last_interest_payment_timestamp: 0, user, mint }
}

/// Deposit `amount` tokens from the caller's account into the vault's token
/// account. No check beyond what the token transfer itself enforces.
pub fn deposit(amount: u64, from_balance: &mut u64, vault_balance: &mut u64) -> (r: Result<
    (),
    GfxTaskError,
>)
    ensures
        r is Ok <==> transfer_ok(*old(from_balance), *old(vault_balance), amount),
        r is Ok ==> *final(from_balance) == *old(from_balance) - amount && *final(vault_balance)
            == *old(vault_balance) + amount,
        amount > *old(from_balance) ==> r == Err::<(), GfxTaskError>(
            GfxTaskError::InsufficientFunds,
        ),
        amount <= *old(from_balance) && *old(vault_balance) + amount > u64::MAX ==> r == Err::<
            (),
            GfxTaskError,
        >(GfxTaskError::BalanceOverflow),
        r is Err ==> *final(from_balance) == *old(from_balance)
            && *final(vault_balance) == *old(vault_balance),
{
    token_transfer(from_balance, vault_balance, amount)
}

/// The payout a vault is owed: one percent of its current token balance,
/// rounded down.
pub open spec fn payout_amount(vault_balance: u64) -> u64 {
    vault_balance / 100
}

/// Whether a vault whose last payout was at `last_paid` is due again at `now`.
pub open spec fn interest_due(last_paid: i64, now: i64) -> bool {
    now - last_paid >= MONTH_IN_SECONDS
}

/// Interest is paid at most once per thirty-day window: once a payout lands
/// at `t1` (so the vault's timestamp becomes `t1`), no further payout is due
/// before thirty days have passed.
pub proof fn lemma_at_most_once_per_month(t1: i64, t2: i64)
    requires
        t2 - t1 < MONTH_IN_SECONDS,
    ensures
        !interest_due(t1, t2),
{
}

/// Pay interest on a vault. If thirty days have passed since the last payout,
/// one percent of the vault's balance (rounded down) moves from the treasury
/// into the vault's token account and the timestamp is set to `now`; otherwise
/// the instruction fails with `InterestAlreadyPaid` and nothing changes. A
/// balance under 100 yields a zero-amount transfer that still resets the
/// timestamp. On any failure, the vault record and both balances are left
/// unchanged.
pub fn pay_interest(
    vault: &mut Vault,
    vault_balance: &mut u64,
    treasury_balance: &mut u64,
    now: i64,
) -> (r: Result<u64, GfxTaskError>)
    requires
        i64::MIN <= now - old(vault).last_interest_payment_timestamp <= i64::MAX,
    ensures
        r is Ok <==> interest_due(old(vault).last_interest_payment_timestamp, now) && transfer_ok(
            *old(treasury_balance),
            *old(vault_balance),
            payout_amount(*old(vault_balance)),
        ),
        !interest_due(old(vault).last_interest_payment_timestamp, now) ==> r == Err::<
            u64,
            GfxTaskError,
        >(GfxTaskError::InterestAlreadyPaid),
        interest_due(old(vault).last_interest_payment_timestamp, now) && payout_amount(
            *old(vault_balance),
        ) > *old(treasury_balance) ==> r == Err::<u64, GfxTaskError>(
            GfxTaskError::InsufficientFunds,
        ),
        interest_due(old(vault).last_interest_payment_timestamp, now) && payout_amount(
            *old(vault_balance),
        ) <= *old(treasury_balance) && *old(vault_balance) + payout_amount(*old(vault_balance))
            > u64::MAX ==> r == Err::<u64, GfxTaskError>(GfxTaskError::BalanceOverflow),
        interest_due(old(vault).last_interest_payment_timestamp, now) && *old(vault_balance) < 100
            ==> r == Ok::<u64, GfxTaskError>(0) && final(vault).last_interest_payment_timestamp
            == now,
        r is Ok ==> {
            &&& r == Ok::<u64, GfxTaskError>(payout_amount(*old(vault_balance)))
            &&& final(vault).last_interest_payment_timestamp == now
            &&& *final(vault_balance) == *old(vault_balance) + payout_amount(*old(vault_balance))
            &&& *final(treasury_balance) == *old(treasury_balance) - payout_amount(
                *old(vault_balance),
            )
        },
        r is Err ==> *final(vault) == *old(vault) && *final(vault_balance) == *old(vault_balance)
            && *final(treasury_balance) == *old(treasury_balance),
        final(vault).user@ == old(vault).user@ && final(vault).mint@ == old(vault).mint@,
{
    let seconds_since_last_payment: i64 = now - vault.last_interest_payment_timestamp;
    if seconds_since_last_payment < MONTH_IN_SECONDS {
        return Err(GfxTaskError::InterestAlreadyPaid);
    }
    let amount: u64 = *vault_balance / 100;
    match token_transfer(treasury_balance, vault_balance, amount) {
        Ok(()) => {
            vault.last_interest_payment_timestamp = now;
            Ok(amount)
        },
        Err(e) => Err(e),
    }
}

} // verus!
