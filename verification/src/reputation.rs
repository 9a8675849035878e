//! Recommending and reporting an identity, each against a proof of which
//! identity is meant.

use vstd::prelude::*;
use crate::error::ErrorCode;
use crate::identity::updated_total;
use crate::pubkey::Pubkey;
use crate::state::{
    AgentIdentity, AgentIdentityView, GlobalState, GlobalStateView, Mint, TokenAccount,
};
use crate::transfer::{TokenTransfer, TransferChecked};

verus! {

/// The tokens a recommendation costs.
pub const RECOMMEND_FEE: u64 = 100_000_000;

/// The score a recommendation adds.
pub const RECOMMEND_SCORE: u64 = 100;

/// The tokens a report costs.
pub const REPORT_FEE: u64 = 50_000_000;

/// The score a report takes away.
pub const REPORT_PENALTY: u64 = 200;

/// What the recommend and report operations work on.
pub struct ActionAgent<'a> {
    pub global_state: &'a mut GlobalState,
    pub target_identity: &'a mut AgentIdentity,
    /// The signer, who pays for the action.
    pub actor: Pubkey,
    /// The signer's token account, which pays.
    pub actor_token_account: TokenAccount,
    /// The registry's vault, which receives.
    pub reward_vault: TokenAccount,
    pub reward_mint: Mint,
}

/// What `get_hex_id_by_sns` works on.
pub struct GetHexIdBySns<'a> {
    pub identity: &'a AgentIdentity,
}

/// `score` raised by `by`, stopping at `u64::MAX`.
pub open spec fn raised(score: u64, by: u64) -> u64 {
    if score + by > u64::MAX {
        u64::MAX
    } else {
        (score + by) as u64
    }
}

/// `score` lowered by `by`, stopping at zero.
pub open spec fn lowered(score: u64, by: u64) -> u64 {
    if score < by {
        0
    } else {
        (score - by) as u64
    }
}

/// A record after one recommendation.
pub open spec fn recommended(identity: AgentIdentityView) -> AgentIdentityView {
    AgentIdentityView {
        recommendations: raised(identity.recommendations, 1),
        score: raised(identity.score, RECOMMEND_SCORE),
        ..identity
    }
}

/// A record after one report.
pub open spec fn reported(identity: AgentIdentityView) -> AgentIdentityView {
    AgentIdentityView {
        reports: raised(identity.reports, 1),
        score: lowered(identity.score, REPORT_PENALTY),
        ..identity
    }
}

/// The aggregate after the score of `target` has become `new_score`: the
/// running total follows the score of an active record. A retired record does
/// not count, and the aggregate stays as it is.
pub open spec fn total_following(
    state: GlobalStateView,
    target: AgentIdentityView,
    new_score: u64,
) -> GlobalStateView {
    if target.is_active {
        GlobalStateView {
            total_score: updated_total(state.total_score, target.score, new_score) as u64,
            ..state
        }
    } else {
        state
    }
}

/// The accounts of a payment for an action: from the actor's token account
/// into the vault, on the actor's authority.
pub open spec fn action_accounts(
    actor: Pubkey,
    actor_token_account: TokenAccount,
    reward_vault: TokenAccount,
    reward_mint: Mint,
) -> TransferChecked {
    TransferChecked {
        from: actor_token_account.key,
        mint: reward_mint.key,
        to: reward_vault.key,
        authority: actor,
    }
}

/// The payment for an action: `amount` tokens from the actor's account into
/// the vault, signed for by the actor.
pub open spec fn action_payment(
    actor: Pubkey,
    actor_token_account: TokenAccount,
    reward_vault: TokenAccount,
    reward_mint: Mint,
    amount: u64,
) -> TokenTransfer {
    TokenTransfer {
        accounts: action_accounts(actor, actor_token_account, reward_vault, reward_mint),
        amount,
        decimals: reward_mint.decimals,
        signer: None,
    }
}

/// Why a handle is no proof of an identity, if it is none.
pub open spec fn handle_proof_error(identity: AgentIdentityView, handle: Seq<char>) -> Option<
    ErrorCode,
> {
    if identity.handle != handle {
        Some(ErrorCode::HandleMismatch)
    } else {
        None
    }
}

/// Why an opaque identifier is no proof of an identity, if it is none.
pub open spec fn hex_id_proof_error(identity: AgentIdentityView, hex_id: [u8; 512]) -> Option<
    ErrorCode,
> {
    if identity.hex_id != hex_id {
        Some(ErrorCode::HexIdMismatch)
    } else {
        None
    }
}

/// Why a handle on a platform is no proof of an identity, if it is none. A
/// platform without a link comes before a link that differs.
pub open spec fn sns_proof_error(
    identity: AgentIdentityView,
    platform: Seq<char>,
    sns_handle: Seq<char>,
) -> Option<ErrorCode> {
    if !identity.sns.contains_key(platform) {
        Some(ErrorCode::SnsNotFound)
    } else if identity.sns[platform] != sns_handle {
        Some(ErrorCode::SnsHandleMismatch)
    } else {
        None
    }
}

/// Whether two opaque identifiers agree in every byte. All 512 bytes are
/// looked at, whatever the first ones were, so the time taken tells nothing
/// about where two identifiers part.
pub fn hex_id_matches(stored: &[u8; 512], supplied: &[u8; 512]) -> (same: bool)
    ensures
        same == (*stored == *supplied),
        (exists|i: int| 0 <= i < 512 && stored[i] != supplied[i]) ==> !same,
{
    let mut difference: u8 = 0;
    let mut i: usize = 0;
    while i < 512
        invariant
            i <= 512,
            (difference == 0) == (forall|j: int| 0 <= j < i ==> stored[j] == supplied[j]),
        decreases 512 - i,
    {
        let a: u8 = stored[i];
        let b: u8 = supplied[i];
        let before: u8 = difference;
        difference = difference | (a ^ b);
        proof {
            assert(((before | (a ^ b)) == 0) == (before == 0 && a == b)) by (bit_vector);
        }
        i += 1;
    }
    proof {
        assert((difference == 0) == (*stored =~= *supplied));
    }
    difference == 0
}

/// Checks a handle against an identity.
pub fn check_handle_proof(identity: &AgentIdentity, handle: &String) -> (r: Result<(), ErrorCode>)
    ensures
        r == match handle_proof_error(identity@, handle@) {
            Some(e) => Err::<(), ErrorCode>(e),
            None => Ok(()),
        },
{
    if identity.handle == *handle {
        Ok(())
    } else {
        Err(ErrorCode::HandleMismatch)
    }
}

/// Checks an opaque identifier against an identity.
pub fn check_hex_id_proof(identity: &AgentIdentity, hex_id: &[u8; 512]) -> (r: Result<
    (),
    ErrorCode,
>)
    ensures
        r == match hex_id_proof_error(identity@, *hex_id) {
            Some(e) => Err::<(), ErrorCode>(e),
            None => Ok(()),
        },
        (exists|i: int| 0 <= i < 512 && identity.hex_id[i] != hex_id[i]) ==> r == Err::<
            (),
            ErrorCode,
        >(ErrorCode::HexIdMismatch),
{
    if hex_id_matches(&identity.hex_id, hex_id) {
        Ok(())
    } else {
        Err(ErrorCode::HexIdMismatch)
    }
}

/// Checks a handle on an outside platform against an identity.
pub fn check_sns_proof(identity: &AgentIdentity, platform: &String, sns_handle: &String) -> (r:
    Result<(), ErrorCode>)
    ensures
        r == match sns_proof_error(identity@, platform@, sns_handle@) {
            Some(e) => Err::<(), ErrorCode>(e),
            None => Ok(()),
        },
{
    match identity.sns.get(platform) {
        None => Err(ErrorCode::SnsNotFound),
        Some(stored_handle) => {
            if *stored_handle == *sns_handle {
                Ok(())
            } else {
                Err(ErrorCode::SnsHandleMismatch)
            }
        },
    }
}

impl<'a> ActionAgent<'a> {
    /// The accounts of the payment: from the actor's token account into the
    /// vault, on the actor's authority.
    pub fn into_transfer_context(&self) -> (accounts: TransferChecked)
        ensures
            accounts == action_accounts(
                self.actor,
                self.actor_token_account,
                self.reward_vault,
                self.reward_mint,
            ),
    {
        TransferChecked {
            from: self.actor_token_account.key,
            mint: self.reward_mint.key,
            to: self.reward_vault.key,
            authority: self.actor,
        }
    }
}

/// Records a recommendation on the target, lets the running total follow the
/// target's score, and names the payment due.
pub fn process_recommendation(ctx: ActionAgent<'_>) -> (payment: TokenTransfer)
    ensures
        payment == action_payment(
            ctx.actor,
            ctx.actor_token_account,
            ctx.reward_vault,
            ctx.reward_mint,
            RECOMMEND_FEE,
        ),
        final(ctx.target_identity)@ == recommended(old(ctx.target_identity)@),
        final(ctx.target_identity).is_active == old(ctx.target_identity).is_active,
        final(ctx.global_state)@ == total_following(
            old(ctx.global_state)@,
            old(ctx.target_identity)@,
            final(ctx.target_identity).score,
        ),
        !old(ctx.target_identity).is_active ==> *final(ctx.global_state) == *old(ctx.global_state),
{
    let payment = TokenTransfer {
        accounts: ctx.into_transfer_context(),
        amount: RECOMMEND_FEE,
        decimals: ctx.reward_mint.decimals,
        signer: None,
    };
    let old_score: u64 = ctx.target_identity.score;
    let new_score: u64 = old_score.saturating_add(RECOMMEND_SCORE);
    ctx.target_identity.recommendations = ctx.target_identity.recommendations.saturating_add(1);
    ctx.target_identity.score = new_score;
    if ctx.target_identity.is_active {
        ctx.global_state.total_score = ctx.global_state.total_score.saturating_sub(
            old_score,
        ).saturating_add(new_score);
    }
    payment
}

/// Records a report on the target, lets the running total follow the target's
/// score, and names the payment due.
pub fn process_report(ctx: ActionAgent<'_>) -> (payment: TokenTransfer)
    ensures
        payment == action_payment(
            ctx.actor,
            ctx.actor_token_account,
            ctx.reward_vault,
            ctx.reward_mint,
            REPORT_FEE,
        ),
        final(ctx.target_identity)@ == reported(old(ctx.target_identity)@),
        final(ctx.target_identity).is_active == old(ctx.target_identity).is_active,
        final(ctx.global_state)@ == total_following(
            old(ctx.global_state)@,
            old(ctx.target_identity)@,
            final(ctx.target_identity).score,
        ),
        !old(ctx.target_identity).is_active ==> *final(ctx.global_state) == *old(ctx.global_state),
{
    let payment = TokenTransfer {
        accounts: ctx.into_transfer_context(),
        amount: REPORT_FEE,
        decimals: ctx.reward_mint.decimals,
        signer: None,
    };
    let old_score: u64 = ctx.target_identity.score;
    let new_score: u64 = old_score.saturating_sub(REPORT_PENALTY);
    ctx.target_identity.reports = ctx.target_identity.reports.saturating_add(1);
    ctx.target_identity.score = new_score;
    if ctx.target_identity.is_active {
        ctx.global_state.total_score = ctx.global_state.total_score.saturating_sub(
            old_score,
        ).saturating_add(new_score);
    }
    payment
}

/// Recommends the target, which the actor names by its handle.
pub fn recommend_with_handle(ctx: ActionAgent<'_>, handle: String) -> (r: Result<
    TokenTransfer,
    ErrorCode,
>)
    ensures
        match handle_proof_error(old(ctx.target_identity)@, handle@) {
            Some(e) => r == Err::<TokenTransfer, ErrorCode>(e) && *final(ctx.target_identity)
                == *old(ctx.target_identity)
                && *final(ctx.global_state) == *old(ctx.global_state),
            None => r == Ok::<TokenTransfer, ErrorCode>(
                action_payment(
                    ctx.actor,
                    ctx.actor_token_account,
                    ctx.reward_vault,
                    ctx.reward_mint,
                    RECOMMEND_FEE,
                ),
            ) && final(ctx.target_identity)@ == recommended(old(ctx.target_identity)@)
                && final(ctx.global_state)@ == total_following(
                old(ctx.global_state)@,
                old(ctx.target_identity)@,
                final(ctx.target_identity).score,
            ),
        },
        final(ctx.target_identity).is_active == old(ctx.target_identity).is_active,
{
    match check_handle_proof(&*ctx.target_identity, &handle) {
        Err(e) => Err(e),
        Ok(()) => Ok(process_recommendation(ctx)),
    }
}

/// Recommends the target, which the actor names by its opaque identifier.
pub fn recommend_with_hex_id(ctx: ActionAgent<'_>, hex_id: [u8; 512]) -> (r: Result<
    TokenTransfer,
    ErrorCode,
>)
    ensures
        match hex_id_proof_error(old(ctx.target_identity)@, hex_id) {
            Some(e) => r == Err::<TokenTransfer, ErrorCode>(e) && *final(ctx.target_identity)
                == *old(ctx.target_identity)
                && *final(ctx.global_state) == *old(ctx.global_state),
            None => r == Ok::<TokenTransfer, ErrorCode>(
                action_payment(
                    ctx.actor,
                    ctx.actor_token_account,
                    ctx.reward_vault,
                    ctx.reward_mint,
                    RECOMMEND_FEE,
                ),
            ) && final(ctx.target_identity)@ == recommended(old(ctx.target_identity)@)
                && final(ctx.global_state)@ == total_following(
                old(ctx.global_state)@,
                old(ctx.target_identity)@,
                final(ctx.target_identity).score,
            ),
        },
        final(ctx.target_identity).is_active == old(ctx.target_identity).is_active,
        (exists|i: int| 0 <= i < 512 && old(ctx.target_identity).hex_id[i] != hex_id[i]) ==> r
            == Err::<TokenTransfer, ErrorCode>(ErrorCode::HexIdMismatch),
{
    match check_hex_id_proof(&*ctx.target_identity, &hex_id) {
        Err(e) => Err(e),
        Ok(()) => Ok(process_recommendation(ctx)),
    }
}

/// Recommends the target, which the actor names by its handle on an outside
/// platform.
pub fn recommend_with_sns(ctx: ActionAgent<'_>, platform: String, sns_handle: String) -> (r: Result<
    TokenTransfer,
    ErrorCode,
>)
    ensures
        match sns_proof_error(old(ctx.target_identity)@, platform@, sns_handle@) {
            Some(e) => r == Err::<TokenTransfer, ErrorCode>(e) && *final(ctx.target_identity)
                == *old(ctx.target_identity)
                && *final(ctx.global_state) == *old(ctx.global_state),
            None => r == Ok::<TokenTransfer, ErrorCode>(
                action_payment(
                    ctx.actor,
                    ctx.actor_token_account,
                    ctx.reward_vault,
                    ctx.reward_mint,
                    RECOMMEND_FEE,
                ),
            ) && final(ctx.target_identity)@ == recommended(old(ctx.target_identity)@)
                && final(ctx.global_state)@ == total_following(
                old(ctx.global_state)@,
                old(ctx.target_identity)@,
                final(ctx.target_identity).score,
            ),
        },
        final(ctx.target_identity).is_active == old(ctx.target_identity).is_active,
{
    match check_sns_proof(&*ctx.target_identity, &platform, &sns_handle) {
        Err(e) => Err(e),
        Ok(()) => Ok(process_recommendation(ctx)),
    }
}

/// Reports the target, which the actor names by its handle.
pub fn report_with_handle(ctx: ActionAgent<'_>, handle: String) -> (r: Result<
    TokenTransfer,
    ErrorCode,
>)
    ensures
        match handle_proof_error(old(ctx.target_identity)@, handle@) {
            Some(e) => r == Err::<TokenTransfer, ErrorCode>(e) && *final(ctx.target_identity)
                == *old(ctx.target_identity)
                && *final(ctx.global_state) == *old(ctx.global_state),
            None => r == Ok::<TokenTransfer, ErrorCode>(
                action_payment(
                    ctx.actor,
                    ctx.actor_token_account,
                    ctx.reward_vault,
                    ctx.reward_mint,
                    REPORT_FEE,
                ),
            ) && final(ctx.target_identity)@ == reported(old(ctx.target_identity)@)
                && final(ctx.global_state)@ == total_following(
                old(ctx.global_state)@,
                old(ctx.target_identity)@,
                final(ctx.target_identity).score,
            ),
        },
        final(ctx.target_identity).is_active == old(ctx.target_identity).is_active,
{
    match check_handle_proof(&*ctx.target_identity, &handle) {
        Err(e) => Err(e),
        Ok(()) => Ok(process_report(ctx)),
    }
}

/// Reports the target, which the actor names by its opaque identifier.
pub fn report_with_hex_id(ctx: ActionAgent<'_>, hex_id: [u8; 512]) -> (r: Result<
    TokenTransfer,
    ErrorCode,
>)
    ensures
        match hex_id_proof_error(old(ctx.target_identity)@, hex_id) {
            Some(e) => r == Err::<TokenTransfer, ErrorCode>(e) && *final(ctx.target_identity)
                == *old(ctx.target_identity)
                && *final(ctx.global_state) == *old(ctx.global_state),
            None => r == Ok::<TokenTransfer, ErrorCode>(
                action_payment(
                    ctx.actor,
                    ctx.actor_token_account,
                    ctx.reward_vault,
                    ctx.reward_mint,
                    REPORT_FEE,
                ),
            ) && final(ctx.target_identity)@ == reported(old(ctx.target_identity)@)
                && final(ctx.global_state)@ == total_following(
                old(ctx.global_state)@,
                old(ctx.target_identity)@,
                final(ctx.target_identity).score,
            ),
        },
        final(ctx.target_identity).is_active == old(ctx.target_identity).is_active,
        (exists|i: int| 0 <= i < 512 && old(ctx.target_identity).hex_id[i] != hex_id[i]) ==> r
            == Err::<TokenTransfer, ErrorCode>(ErrorCode::HexIdMismatch),
{
    match check_hex_id_proof(&*ctx.target_identity, &hex_id) {
        Err(e) => Err(e),
        Ok(()) => Ok(process_report(ctx)),
    }
}

/// Reports the target, which the actor names by its handle on an outside
/// platform.
pub fn report_with_sns(ctx: ActionAgent<'_>, platform: String, sns_handle: String) -> (r: Result<
    TokenTransfer,
    ErrorCode,
>)
    ensures
        match sns_proof_error(old(ctx.target_identity)@, platform@, sns_handle@) {
            Some(e) => r == Err::<TokenTransfer, ErrorCode>(e) && *final(ctx.target_identity)
                == *old(ctx.target_identity)
                && *final(ctx.global_state) == *old(ctx.global_state),
            None => r == Ok::<TokenTransfer, ErrorCode>(
                action_payment(
                    ctx.actor,
                    ctx.actor_token_account,
                    ctx.reward_vault,
                    ctx.reward_mint,
                    REPORT_FEE,
                ),
            ) && final(ctx.target_identity)@ == reported(old(ctx.target_identity)@)
                && final(ctx.global_state)@ == total_following(
                old(ctx.global_state)@,
                old(ctx.target_identity)@,
                final(ctx.target_identity).score,
            ),
        },
        final(ctx.target_identity).is_active == old(ctx.target_identity).is_active,
{
    match check_sns_proof(&*ctx.target_identity, &platform, &sns_handle) {
        Err(e) => Err(e),
        Ok(()) => Ok(process_report(ctx)),
    }
}

/// Looks an identity's opaque identifier up by its handle on an outside
/// platform.
pub fn get_hex_id_by_sns(ctx: GetHexIdBySns<'_>, platform: String, handle: String) -> (r: Result<
    [u8; 512],
    ErrorCode,
>)
    ensures
        r == match sns_proof_error(ctx.identity@, platform@, handle@) {
            Some(e) => Err::<[u8; 512], ErrorCode>(e),
            None => Ok(ctx.identity.hex_id),
        },
{
    match check_sns_proof(ctx.identity, &platform, &handle) {
        Err(e) => Err(e),
        Ok(()) => Ok(ctx.identity.hex_id),
    }
}

/// Where the running total counts the target's score, it counts the new score
/// after a recommendation or a report: the total moves by as much as the
/// score, as long as it stays within `u64`.
pub proof fn lemma_total_follows_score(
    state: GlobalStateView,
    target: AgentIdentityView,
    new_score: u64,
)
    requires
        target.is_active,
        state.total_score >= target.score,
        state.total_score - target.score + new_score <= u64::MAX,
    ensures
        total_following(state, target, new_score).total_score == state.total_score - target.score
            + new_score,
{
}

/// A recommendation followed at once by a report moves the score up by
/// `RECOMMEND_SCORE`, as far as `u64` reaches, and then down by
/// `REPORT_PENALTY`, as far as zero: from 50 it ends at 0.
pub proof fn lemma_recommend_then_report(identity: AgentIdentityView)
    ensures
        reported(recommended(identity)).score == vstd::math::max(
            vstd::math::min(identity.score + RECOMMEND_SCORE, u64::MAX as int) - REPORT_PENALTY,
            0,
        ),
        identity.score <= REPORT_PENALTY - RECOMMEND_SCORE ==> reported(
            recommended(identity),
        ).score == 0,
        REPORT_PENALTY - RECOMMEND_SCORE <= identity.score <= u64::MAX - RECOMMEND_SCORE
            ==> reported(recommended(identity)).score == identity.score + RECOMMEND_SCORE
            - REPORT_PENALTY,
        reported(recommended(identity)).recommendations == raised(identity.recommendations, 1),
        reported(recommended(identity)).reports == raised(identity.reports, 1),
{
}

} // verus!
