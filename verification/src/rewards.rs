//! Paying rewards out of the registry's vault, and admin withdrawals.

use vstd::prelude::*;
use crate::error::ErrorCode;
use crate::pubkey::Pubkey;
use crate::state::{AgentIdentity, AgentIdentityView, GlobalState, GlobalStateView, MAX_TIER, Mint, TokenAccount};
use crate::transfer::{TokenTransfer, TransferChecked, VaultSeeds};

verus! {

/// The tokens paid for one claim.
pub const REWARD_AMOUNT: u64 = 1000;

/// What `claim_rewards` works on.
pub struct ClaimRewards<'a> {
    pub global_state: &'a GlobalState,
    pub identity: &'a AgentIdentity,
    /// The signer, who has to control the record.
    pub owner: Pubkey,
    /// The registry's vault, which pays.
    pub reward_vault: TokenAccount,
    /// The signer's token account, which receives.
    pub user_reward_account: TokenAccount,
    pub reward_mint: Mint,
}

/// What `admin_withdraw_sol` works on.
pub struct AdminWithdrawSol<'a> {
    pub global_state: &'a GlobalState,
    /// The signer, who has to be an admin.
    pub admin: Pubkey,
    /// The lamports held by the registry's own account.
    pub global_state_lamports: &'a mut u64,
    /// The lamports held by the admin.
    pub admin_lamports: &'a mut u64,
    /// The lamports the registry's account has to keep, lest the ledger reclaim it.
    pub rent_exempt_minimum: u64,
}

/// What `admin_withdraw_rewards` works on.
pub struct AdminWithdrawRewards<'a> {
    pub global_state: &'a GlobalState,
    /// The signer, who has to be an admin.
    pub admin: Pubkey,
    /// The registry's vault, which pays.
    pub reward_vault: TokenAccount,
    /// The admin's token account, which receives.
    pub admin_token_account: TokenAccount,
    pub reward_mint: Mint,
}

/// The seeds with which the registry signs for its vault.
pub open spec fn vault_seeds(state: GlobalStateView) -> VaultSeeds {
    VaultSeeds { reward_mint: state.reward_mint, bump: state.vault_bump }
}

/// A payment out of the vault, which the vault itself authorises.
pub open spec fn vault_payment(vault: TokenAccount, to: TokenAccount, mint: Mint) -> TransferChecked {
    TransferChecked { from: vault.key, mint: mint.key, to: to.key, authority: vault.key }
}

/// Why a claim is refused, if it is. The record's state comes first, then its
/// tier, then whether the signer controls it.
pub open spec fn claim_error(identity: AgentIdentityView, signer: Pubkey) -> Option<ErrorCode> {
    if !identity.is_active {
        Some(ErrorCode::InactiveIdentity)
    } else if identity.tier >= MAX_TIER {
        Some(ErrorCode::TierNotEligible)
    } else if signer != identity.owner {
        Some(ErrorCode::Unauthorized)
    } else {
        None
    }
}

/// What the registry's account can spare: its balance above the minimum it
/// has to keep.
pub open spec fn available_lamports(balance: u64, rent_exempt_minimum: u64) -> int {
    if balance >= rent_exempt_minimum {
        balance - rent_exempt_minimum
    } else {
        0
    }
}

/// Why a withdrawal of lamports is refused, if it is. The first rule broken
/// decides.
pub open spec fn withdraw_sol_error(
    state: GlobalStateView,
    signer: Pubkey,
    balance: u64,
    rent_exempt_minimum: u64,
    amount: u64,
) -> Option<ErrorCode> {
    if !state.is_admin(signer) {
        Some(ErrorCode::Unauthorized)
    } else if amount > available_lamports(balance, rent_exempt_minimum) {
        Some(ErrorCode::InsufficientBalance)
    } else {
        None
    }
}

/// Why a withdrawal of reward tokens is refused, if it is. The first rule
/// broken decides.
pub open spec fn withdraw_rewards_error(
    state: GlobalStateView,
    signer: Pubkey,
    vault_amount: u64,
    amount: u64,
) -> Option<ErrorCode> {
    if !state.is_admin(signer) {
        Some(ErrorCode::Unauthorized)
    } else if vault_amount < amount {
        Some(ErrorCode::InsufficientTokenBalance)
    } else {
        None
    }
}

impl<'a> ClaimRewards<'a> {
    /// The accounts of the payment: from the vault to the signer's token
    /// account, on the vault's own authority.
    pub fn into_transfer_context(&self) -> (accounts: TransferChecked)
        ensures
            accounts == vault_payment(self.reward_vault, self.user_reward_account, self.reward_mint),
    {
        TransferChecked {
            from: self.reward_vault.key,
            mint: self.reward_mint.key,
            to: self.user_reward_account.key,
            authority: self.reward_vault.key,
        }
    }
}

impl<'a> AdminWithdrawRewards<'a> {
    /// The accounts of the payment: from the vault to the admin's token
    /// account, on the vault's own authority.
    pub fn into_transfer_context(&self) -> (accounts: TransferChecked)
        ensures
            accounts == vault_payment(self.reward_vault, self.admin_token_account, self.reward_mint),
    {
        TransferChecked {
            from: self.reward_vault.key,
            mint: self.reward_mint.key,
            to: self.admin_token_account.key,
            authority: self.reward_vault.key,
        }
    }
}

/// Grants the fixed reward for an identity that is active and ranks above the
/// lowest tier, to the agent that controls it. A retired identity and one in
/// the lowest tier are told so whoever signs. Nothing is recorded: the outcome
/// is the payment to make, out of the vault, signed for by the registry.
pub fn claim_rewards(ctx: ClaimRewards<'_>) -> (r: Result<TokenTransfer, ErrorCode>)
    ensures
        !ctx.identity.is_active ==> r == Err::<TokenTransfer, ErrorCode>(
            ErrorCode::InactiveIdentity,
        ),
        ctx.identity.is_active && ctx.identity.tier >= MAX_TIER ==> r == Err::<
            TokenTransfer,
            ErrorCode,
        >(ErrorCode::TierNotEligible),
        r == match claim_error(ctx.identity@, ctx.owner) {
            Some(e) => Err::<TokenTransfer, ErrorCode>(e),
            None => Ok(
                TokenTransfer {
                    accounts: vault_payment(
                        ctx.reward_vault,
                        ctx.user_reward_account,
                        ctx.reward_mint,
                    ),
                    amount: REWARD_AMOUNT,
                    decimals: ctx.reward_mint.decimals,
                    signer: Some(vault_seeds(ctx.global_state@)),
                },
            ),
        },
{
    if !ctx.identity.is_active {
        return Err(ErrorCode::InactiveIdentity);
    }
    if ctx.identity.tier >= MAX_TIER {
        return Err(ErrorCode::TierNotEligible);
    }
    if ctx.owner != ctx.identity.owner {
        return Err(ErrorCode::Unauthorized);
    }
    let seeds = VaultSeeds {
        reward_mint: ctx.global_state.reward_mint,
        bump: ctx.global_state.vault_bump,
    };
    Ok(
        TokenTransfer {
            accounts: ctx.into_transfer_context(),
            amount: REWARD_AMOUNT,
            decimals: ctx.reward_mint.decimals,
            signer: Some(seeds),
        },
    )
}

/// Moves lamports from the registry's account to an admin, as far as the
/// registry's account stays at or above the minimum it has to keep. A
/// withdrawal that is granted has to fit on top of what the admin holds.
pub fn admin_withdraw_sol(ctx: AdminWithdrawSol<'_>, amount: u64) -> (r: Result<(), ErrorCode>)
    requires
        withdraw_sol_error(
            ctx.global_state@,
            ctx.admin,
            *old(ctx.global_state_lamports),
            ctx.rent_exempt_minimum,
            amount,
        ) is None ==> *old(ctx.admin_lamports) + amount <= u64::MAX,
    ensures
        r == match withdraw_sol_error(
            ctx.global_state@,
            ctx.admin,
            *old(ctx.global_state_lamports),
            ctx.rent_exempt_minimum,
            amount,
        ) {
            Some(e) => Err::<(), ErrorCode>(e),
            None => Ok(()),
        },
        !ctx.global_state@.is_admin(ctx.admin) ==> r == Err::<(), ErrorCode>(
            ErrorCode::Unauthorized,
        ),
        r is Err ==> *final(ctx.global_state_lamports) == *old(ctx.global_state_lamports)
            && *final(ctx.admin_lamports) == *old(ctx.admin_lamports),
        r is Ok ==> *final(ctx.global_state_lamports) == *old(ctx.global_state_lamports) - amount
            && *final(ctx.admin_lamports) == *old(ctx.admin_lamports) + amount,
        *old(ctx.global_state_lamports) >= ctx.rent_exempt_minimum
            ==> *final(ctx.global_state_lamports) >= ctx.rent_exempt_minimum,
{
    if !ctx.global_state.is_admin(&ctx.admin) {
        return Err(ErrorCode::Unauthorized);
    }
    let available: u64 = (*ctx.global_state_lamports).saturating_sub(ctx.rent_exempt_minimum);
    if amount > available {
        return Err(ErrorCode::InsufficientBalance);
    }
    *ctx.global_state_lamports = *ctx.global_state_lamports - amount;
    *ctx.admin_lamports = *ctx.admin_lamports + amount;
    Ok(())
}

/// Grants an admin's withdrawal of reward tokens, as far as the vault holds
/// them. The outcome is the payment to make, out of the vault, signed for by
/// the registry.
pub fn admin_withdraw_rewards(ctx: AdminWithdrawRewards<'_>, amount: u64) -> (r: Result<
    TokenTransfer,
    ErrorCode,
>)
    ensures
        r == match withdraw_rewards_error(
            ctx.global_state@,
            ctx.admin,
            ctx.reward_vault.amount,
            amount,
        ) {
            Some(e) => Err::<TokenTransfer, ErrorCode>(e),
            None => Ok(
                TokenTransfer {
                    accounts: vault_payment(
                        ctx.reward_vault,
                        ctx.admin_token_account,
                        ctx.reward_mint,
                    ),
                    amount,
                    decimals: ctx.reward_mint.decimals,
                    signer: Some(vault_seeds(ctx.global_state@)),
                },
            ),
        },
        !ctx.global_state@.is_admin(ctx.admin) ==> r == Err::<TokenTransfer, ErrorCode>(
            ErrorCode::Unauthorized,
        ),
{
    if !ctx.global_state.is_admin(&ctx.admin) {
        return Err(ErrorCode::Unauthorized);
    }
    if ctx.reward_vault.amount < amount {
        return Err(ErrorCode::InsufficientTokenBalance);
    }
    let seeds = VaultSeeds {
        reward_mint: ctx.global_state.reward_mint,
        bump: ctx.global_state.vault_bump,
    };
    Ok(
        TokenTransfer {
            accounts: ctx.into_transfer_context(),
            amount,
            decimals: ctx.reward_mint.decimals,
            signer: Some(seeds),
        },
    )
}

} // verus!
