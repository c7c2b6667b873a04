//! Per-user token vaults that accrue a fixed-rate monthly interest from a
//! central treasury: the state transitions of the four on-chain instructions,
//! the wire form of the vault account record, and the address derivations a
//! payout client needs, with verified contracts.

mod client;
mod codec;
mod instructions;
mod state;
mod token;

pub use client::ClientConfig;
pub use client::PayInterest;
pub use client::ata_of;
pub use client::derive_associated_token_account;
pub use client::derive_treasury_authority;
pub use client::pay_interest_accounts;
pub use client::pda_of;
pub use client::treasury_authority_of;
pub use client::treasury_seed;
pub use codec::decode_vault;
pub use codec::encode_vault;
pub use codec::has_vault_discriminator;
pub use codec::le8;
pub use codec::le8_val;
pub use codec::lemma_vault_record_invertible;
pub use codec::ts_to_u64;
pub use codec::u64_to_ts;
pub use codec::valid_vault_record;
pub use codec::vault_discriminator;
pub use codec::vault_discriminator_bytes;
pub use codec::vault_record_bytes;

pub use instructions::MONTH_IN_SECONDS;
pub use instructions::SECONDS_PER_DAY;
pub use instructions::deposit;
pub use instructions::initialize_treasury;
pub use instructions::initialize_vault;
pub use instructions::interest_due;
pub use instructions::lemma_at_most_once_per_month;
pub use instructions::pay_interest;
pub use instructions::payout_amount;
pub use state::AccountId;
pub use state::Vault;
pub use token::GfxTaskError;
pub use token::token_transfer;
pub use token::transfer_ok;
