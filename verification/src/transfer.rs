//! Token movements that an operation asks for. The registry decides them; the
//! ledger carries them out in the same transaction, or the whole operation is
//! undone.

use vstd::prelude::*;
use crate::pubkey::Pubkey;

verus! {

/// The accounts of a checked token transfer.
#[derive(Clone, Copy, Debug, PartialEq, Eq)]
pub struct TransferChecked {
    /// The token account that pays.
    pub from: Pubkey,
    /// The mint of the token moved.
    pub mint: Pubkey,
    /// The token account that receives.
    pub to: Pubkey,
    /// Who authorises the payment.
    pub authority: Pubkey,
}

/// What the registry signs with for its reward vault: the seeds of the vault's
/// derived address, which are a fixed tag, the reward mint and a bump.
#[derive(Clone, Copy, Debug, PartialEq, Eq)]
pub struct VaultSeeds {
    pub reward_mint: Pubkey,
    pub bump: u8,
}

/// A token transfer to carry out.
#[derive(Clone, Copy, Debug, PartialEq, Eq)]
pub struct TokenTransfer {
    /// Between which accounts, and on whose authority.
    pub accounts: TransferChecked,
    /// How many tokens, in the mint's smallest unit.
    pub amount: u64,
    /// The decimals of the mint, which the token program checks.
    pub decimals: u8,
    /// `Some` where the registry itself authorises the transfer, out of its
    /// vault; `None` where the signer of the operation does.
    pub signer: Option<VaultSeeds>,
}

} // verus!
