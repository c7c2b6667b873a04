use vstd::prelude::*;

verus! {

/// Why an instruction was rejected.
///
/// `InterestAlreadyPaid` is the one domain error raised by the payout rule
/// itself; the other variants surface the ways a token transfer can fail
/// (the source lacks funds, or the destination balance would not fit) and
/// the authority check on treasury initialization.
#[derive(Clone, Copy, Debug, PartialEq, Eq, Structural)]
pub enum GfxTaskError {
    /// The vault's cooldown window has not elapsed yet.
    InterestAlreadyPaid,
    /// The signer is not the configured admin identity.
    UnauthorizedSigner,
    /// The source token account holds less than the requested amount.
    InsufficientFunds,
    /// The destination balance would exceed the largest representable amount.
    BalanceOverflow,
}

/// Whether a transfer of `amount` from a balance of `source` to a balance of
/// `dest` can be applied.
pub open spec fn transfer_ok(source: u64, dest: u64, amount: u64) -> bool {
    amount <= source && dest + amount <= u64::MAX
}

/// Move `amount` tokens between two balances, with the checks the token
/// program applies: the source must cover the amount, and the destination
/// balance must not overflow. On failure both balances are left unchanged.
pub fn token_transfer(source: &mut u64, dest: &mut u64, amount: u64) -> (r: Result<
    (),
    GfxTaskError,
>)
    ensures
        transfer_ok(*old(source), *old(dest), amount) <==> r is Ok,
        r is Ok ==> *final(source) == *old(source) - amount && *final(dest) == *old(dest) + amount,
        amount > *old(source) ==> r == Err::<(), GfxTaskError>(GfxTaskError::InsufficientFunds),
        amount <= *old(source) && *old(dest) + amount > u64::MAX ==> r == Err::<(), GfxTaskError>(
            GfxTaskError::BalanceOverflow,
        ),
        r is Err ==> *final(source) == *old(source) && *final(dest) == *old(dest),
{
    if amount > *source {
        return Err(GfxTaskError::InsufficientFunds);
    }
    if amount > u64::MAX - *dest {
        return Err(GfxTaskError::BalanceOverflow);
    }
    *source = *source - amount;
    *dest = *dest + amount;
    Ok(())
}

} // verus!
