use vstd::prelude::*;

use crate::state::AccountId;
use crate::state::Vault;

verus! {

/// The program-derived address for a seed list under a program identity, with
/// its bump, or `None` in the (statistically improbable) event that no bump
/// yields a valid address or the seeds are too many or too long.
pub uninterp spec fn pda_of(seeds: Seq<Seq<u8>>, program_id: Seq<u8>) -> Option<(Seq<u8>, u8)>;

/// Relies on solana_program::pubkey::Pubkey::try_find_program_address: the
/// result is a deterministic function of the seed bytes and the program
/// identity alone, and `None` comes back (rather than a panic) when no bump
/// seed yields a valid address or the seed list is over the limits.
#[verifier::external_body]
fn try_find_pda(seeds: &Vec<Vec<u8>>, program_id: &AccountId) -> (r: Option<(AccountId, u8)>)
    requires
        program_id@.len() == 32,
    ensures
        ({
            let s = seeds@.map_values(|v: Vec<u8>| v@);
            match r {
                Some((a, bump)) => a@.len() == 32 && pda_of(s, program_id@) == Some((a@, bump)),
                None => pda_of(s, program_id@) is None,
            }
        }),
{
    let refs: Vec<&[u8]> = seeds.iter().map(|s| s.as_slice()).collect();
    let pk = solana_program::pubkey::Pubkey::try_from(program_id.bytes.as_slice()).unwrap();
    solana_program::pubkey::Pubkey::try_find_program_address(&refs, &pk).map(
        |(a, bump)| (AccountId { bytes: a.to_bytes().to_vec() }, bump),
    )
}

/// The seed string that scopes a treasury authority, as bytes
/// ("gfx_task_treasury").
pub open spec fn treasury_seed() -> Seq<u8> {
    seq![
        103u8, 102u8, 120u8, 95u8, 116u8, 97u8, 115u8, 107u8, 95u8, 116u8, 114u8, 101u8, 97u8,
        115u8, 117u8, 114u8, 121u8,
    ]
}

fn treasury_seed_bytes() -> (r: Vec<u8>)
    ensures
        r@ == treasury_seed(),
{
    let mut out: Vec<u8> = Vec::new();
    out.push(103);
    out.push(102);
    out.push(120);
    out.push(95);
    out.push(116);
    out.push(97);
    out.push(115);
    out.push(107);
    out.push(95);
    out.push(116);
    out.push(114);
    out.push(101);
    out.push(97);
    out.push(115);
    out.push(117);
    out.push(114);
    out.push(121);
    proof {
        assert(out@ =~= treasury_seed());
    }
    out
}

/// The treasury authority scoped to `mint`: the program-derived address of
/// the treasury seed and the mint.
pub open spec fn treasury_authority_of(mint: Seq<u8>, program_id: Seq<u8>) -> Option<
    (Seq<u8>, u8),
> {
    pda_of(seq![treasury_seed(), mint], program_id)
}

/// The associated token account of `wallet` for `mint`: the program-derived
/// address of (wallet, token program, mint) under the associated-token
/// program, bump discarded.
pub open spec fn ata_of(
    wallet: Seq<u8>,
    mint: Seq<u8>,
    token_program: Seq<u8>,
    ata_program: Seq<u8>,
) -> Option<(Seq<u8>, u8)> {
    pda_of(seq![wallet, token_program, mint], ata_program)
}

/// Derive the treasury authority and its bump for a mint.
pub fn derive_treasury_authority(mint: &AccountId, program_id: &AccountId) -> (r: Option<
    (AccountId, u8),
>)
    requires
        program_id@.len() == 32,
    ensures
        match r {
            Some((a, bump)) => a.wf() && treasury_authority_of(mint@, program_id@) == Some(
                (a@, bump),
            ),
            None => treasury_authority_of(mint@, program_id@) is None,
        },
{
    let mut seeds: Vec<Vec<u8>> = Vec::new();
    seeds.push(treasury_seed_bytes());
    seeds.push(mint.dup().bytes);
    proof {
        assert(seeds@.map_values(|v: Vec<u8>| v@) =~= seq![treasury_seed(), mint@]);
    }
    try_find_pda(&seeds, program_id)
}

/// Derive the associated token account of a wallet for a mint.
pub fn derive_associated_token_account(
    wallet: &AccountId,
    mint: &AccountId,
    token_program: &AccountId,
    ata_program: &AccountId,
) -> (r: Option<AccountId>)
    requires
        ata_program@.len() == 32,
    ensures
        match r {
            Some(a) => a.wf() && (ata_of(wallet@, mint@, token_program@, ata_program@) matches
                Some(p) && p.0 == a@),
            None => ata_of(wallet@, mint@, token_program@, ata_program@) is None,
        },
{
    let mut seeds: Vec<Vec<u8>> = Vec::new();
    seeds.push(wallet.dup().bytes);
    seeds.push(token_program.dup().bytes);
    seeds.push(mint.dup().bytes);
    proof {
        assert(seeds@.map_values(|v: Vec<u8>| v@) =~= seq![wallet@, token_program@, mint@]);
    }
    match try_find_pda(&seeds, ata_program) {
        Some((a, _bump)) => Some(a),
        None => None,
    }
}

/// The fixed identities a client is configured with: the program itself, the
/// token program, the associated-token program, and the system program.
pub struct ClientConfig {
    pub program_id: AccountId,
    pub token_program: AccountId,
    pub associated_token_program: AccountId,
    pub system_program: AccountId,
}

impl ClientConfig {
    pub open spec fn wf(&self) -> bool {
        &&& self.program_id.wf()
        &&& self.token_program.wf()
        &&& self.associated_token_program.wf()
        &&& self.system_program.wf()
    }
}

/// The account list a pay-interest instruction names, in the order the
/// program's validation layer expects.
pub struct PayInterest {
    pub mint: AccountId,
    pub user: AccountId,
    pub vault: AccountId,
    pub vault_token_account: AccountId,
    pub treasury_authority: AccountId,
    pub treasury_token_account: AccountId,
    pub signer: AccountId,
    pub token_program: AccountId,
    pub associated_token_program: AccountId,
    pub system_program: AccountId,
}

impl PayInterest {
    pub open spec fn wf(&self) -> bool {
        &&& self.mint.wf()
        &&& self.user.wf()
        &&& self.vault.wf()
        &&& self.vault_token_account.wf()
        &&& self.treasury_authority.wf()
        &&& self.treasury_token_account.wf()
        &&& self.signer.wf()
        &&& self.token_program.wf()
        &&& self.associated_token_program.wf()
        &&& self.system_program.wf()
    }
}

/// Assemble the account list and bump for a pay-interest instruction on one
/// vault: derive the vault's token account, the treasury authority for the
/// vault's mint, and the treasury's token account, and copy the rest from the
/// vault record and the configuration. Returns `None` exactly when one of the
/// three derivations has no valid address.
pub fn pay_interest_accounts(
    vault: &Vault,
    vault_address: &AccountId,
    signer: &AccountId,
    config: &ClientConfig,
) -> (r: Option<(PayInterest, u8)>)
    requires
        vault.wf(),
        vault_address.wf(),
        signer.wf(),
        config.wf(),
    ensures
        match r {
            Some((a, bump)) => {
                &&& a.wf()
                &&& a.mint@ == vault.mint@
                &&& a.user@ == vault.user@
                &&& a.vault@ == vault_address@
                &&& a.signer@ == signer@
                &&& a.token_program@ == config.token_program@
                &&& a.associated_token_program@ == config.associated_token_program@
                &&& a.system_program@ == config.system_program@
                &&& (ata_of(
                    vault_address@,
                    vault.mint@,
                    config.token_program@,
                    config.associated_token_program@,
                ) matches Some(p) && p.0 == a.vault_token_account@)
                &&& treasury_authority_of(vault.mint@, config.program_id@) == Some(
                    (a.treasury_authority@, bump),
                )
                &&& (ata_of(
                    a.treasury_authority@,
                    vault.mint@,
                    config.token_program@,
                    config.associated_token_program@,
                ) matches Some(p) && p.0 == a.treasury_token_account@)
            },
            None => {
                ||| ata_of(
                    vault_address@,
                    vault.mint@,
                    config.token_program@,
                    config.associated_token_program@,
                ) is None
                ||| treasury_authority_of(vault.mint@, config.program_id@) is None
                ||| (treasury_authority_of(vault.mint@, config.program_id@) matches Some(t) && (
                ata_of(
                    t.0,
                    vault.mint@,
                    config.token_program@,
                    config.associated_token_program@,
                ) is None))
            },
        },
{
    let vault_token_account = match derive_associated_token_account(
        vault_address,
        &vault.mint,
        &config.token_program,
        &config.associated_token_program,
    ) {
        Some(a) => a,
        None => {
            return None;
        },
    };
    let (treasury_authority, bump) = match derive_treasury_authority(
        &vault.mint,
        &config.program_id,
    ) {
        Some(p) => p,
        None => {
            return None;
        },
    };
    let treasury_token_account = match derive_associated_token_account(
        &treasury_authority,
        &vault.mint,
        &config.token_program,
        &config.associated_token_program,
    ) {
        Some(a) => a,
        None => {
            return None;
        },
    };
    let accounts = PayInterest {
        mint: vault.mint.dup(),
        user: vault.user.dup(),
        vault: vault_address.dup(),
        vault_token_account,
        treasury_authority,
        treasury_token_account,
        signer: signer.dup(),
        token_program: config.token_program.dup(),
        associated_token_program: config.associated_token_program.dup(),
        system_program: config.system_program.dup(),
    };
    Some((accounts, bump))
}

} // verus!
