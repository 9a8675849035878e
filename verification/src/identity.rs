//! Issuing identity records and keeping them up to date.

use vstd::prelude::*;
use crate::error::ErrorCode;
use crate::fee::{fee, issuance_fee, BASE_FEE, MAX_FEE};
use crate::handle::{check_handle_format, check_vanity_suffix, has_vanity_suffix, is_valid_handle};
use crate::pubkey::{base58_text, Pubkey};
use crate::sns::SnsLinks;
use crate::state::{AgentIdentity, AgentIdentityView, GlobalState, GlobalStateView, MAX_TIER, MIN_TIER};

verus! {

/// What `issue_identity` works on.
pub struct IssueIdentity<'a> {
    pub global_state: &'a mut GlobalState,
    /// The signer, who pays the fee and will control the record.
    pub owner: Pubkey,
    /// The identity token minted beforehand for this record.
    pub sbt_mint: Pubkey,
    /// The ledger's clock, in seconds.
    pub unix_timestamp: i64,
}

/// What a successful issuance hands back.
#[derive(Clone, Debug, PartialEq, Eq)]
pub struct Issuance {
    /// The new record, to be stored under its handle.
    pub identity: AgentIdentity,
    /// The lamports the owner pays into the registry in the same transaction.
    pub fee: u64,
}

/// What `reissue_identity` works on.
pub struct ReissueIdentity<'a> {
    /// The record to retire.
    pub identity: &'a mut AgentIdentity,
    /// The signer, who has to control the record.
    pub owner: Pubkey,
    /// Who will control the new record.
    pub new_owner: Pubkey,
    /// The identity token minted for the new record.
    pub new_mint: Pubkey,
    /// The ledger's clock, in seconds.
    pub unix_timestamp: i64,
}

/// What `update_agent_status` works on.
pub struct UpdateAgentStatus<'a> {
    pub global_state: &'a mut GlobalState,
    pub identity: &'a mut AgentIdentity,
    /// The signer, who has to be an admin.
    pub admin: Pubkey,
}

/// What `update_sns` works on.
pub struct UpdateSns<'a> {
    pub global_state: &'a GlobalState,
    pub identity: &'a mut AgentIdentity,
    /// The signer, who has to be an admin.
    pub admin: Pubkey,
}

/// What `update_private_vault` works on.
pub struct UpdateAgentData<'a> {
    pub identity: &'a mut AgentIdentity,
    /// The signer, who has to control the record.
    pub owner: Pubkey,
}

/// Why an issuance is refused, if it is, given the written form of the
/// identity token's address. The first rule broken decides.
pub open spec fn issue_error(mint_address: Seq<char>, handle: Seq<char>) -> Option<ErrorCode> {
    if !has_vanity_suffix(mint_address) {
        Some(ErrorCode::InvalidMintAddress)
    } else if !is_valid_handle(handle) {
        Some(ErrorCode::InvalidHandleFormat)
    } else {
        None
    }
}

/// A record as issuance creates it: active, unscored, in the lowest tier, with
/// no links and an empty vault.
pub open spec fn issued_identity(
    owner: Pubkey,
    mint: Pubkey,
    handle: Seq<char>,
    uri: Seq<char>,
    hex_id: [u8; 512],
    now: i64,
) -> AgentIdentityView {
    AgentIdentityView {
        owner,
        mint,
        handle,
        hex_id,
        score: 0,
        is_active: true,
        uri,
        last_claim_ts: now,
        sns: Map::empty(),
        private_vault: Seq::empty(),
        tier: MAX_TIER,
        recommendations: 0,
        reports: 0,
    }
}

/// Why a reissuance is refused, if it is. The first rule broken decides.
pub open spec fn reissue_error(identity: AgentIdentityView, signer: Pubkey) -> Option<ErrorCode> {
    if signer != identity.owner {
        Some(ErrorCode::Unauthorized)
    } else if !identity.is_active {
        Some(ErrorCode::InactiveIdentity)
    } else {
        None
    }
}

/// Why a status update is refused, if it is. The first rule broken decides.
pub open spec fn update_status_error(state: GlobalStateView, signer: Pubkey, tier: u8) -> Option<
    ErrorCode,
> {
    if !state.is_admin(signer) {
        Some(ErrorCode::Unauthorized)
    } else if !(MIN_TIER <= tier <= MAX_TIER) {
        Some(ErrorCode::InvalidTier)
    } else {
        None
    }
}

/// The running total after one record's score went from `old_score` to
/// `new_score`: the old score is taken off, stopping at zero, and the new one
/// put on, stopping at `u64::MAX`.
pub open spec fn updated_total(total: u64, old_score: u64, new_score: u64) -> int {
    let lowered = if total >= old_score {
        total - old_score
    } else {
        0
    };
    if lowered + new_score > u64::MAX {
        u64::MAX as int
    } else {
        lowered + new_score
    }
}

/// Decides whether an issuance is refused for what it asks, given the written
/// form of the identity token's address.
pub fn check_issue_request_at(mint_address: &str, handle: &str) -> (refusal: Option<ErrorCode>)
    ensures
        refusal == issue_error(mint_address@, handle@),
{
    if !check_vanity_suffix(mint_address) {
        Some(ErrorCode::InvalidMintAddress)
    } else if !check_handle_format(handle) {
        Some(ErrorCode::InvalidHandleFormat)
    } else {
        None
    }
}

/// Decides whether an issuance is refused for what it asks: writes the
/// identity token's address out and goes on as `check_issue_request_at` does.
pub fn check_issue_request(sbt_mint: &Pubkey, handle: &str) -> (refusal: Option<ErrorCode>)
    ensures
        refusal == issue_error(base58_text(sbt_mint.bytes@), handle@),
{
    let mint_address = sbt_mint.to_base58();
    check_issue_request_at(mint_address.as_str(), handle)
}

/// Issues an identity, given the written form of the identity token's address.
///
/// The address has to carry the vanity suffix and the handle has to be well
/// formed. The fee is the one for the number of identities issued before this
/// one. That no record exists under the handle yet is for the store to check.
/// A request that is granted is counted, so the count has to have room for it.
pub fn issue_identity_at(
    ctx: IssueIdentity<'_>,
    mint_address: &str,
    handle: String,
    _name: String,
    uri: String,
    hex_id: [u8; 512],
) -> (r: Result<Issuance, ErrorCode>)
    requires
        issue_error(mint_address@, handle@) is None
            ==> old(ctx.global_state).total_agents < u64::MAX,
    ensures
        match r {
            Ok(issuance) => {
                &&& issue_error(mint_address@, handle@) is None
                &&& issuance.identity@ == issued_identity(
                    ctx.owner,
                    ctx.sbt_mint,
                    handle@,
                    uri@,
                    hex_id,
                    ctx.unix_timestamp,
                )
                &&& issuance.fee == fee(old(ctx.global_state).total_agents as nat)
                &&& BASE_FEE <= issuance.fee <= MAX_FEE
                &&& final(ctx.global_state)@ == (GlobalStateView {
                    total_agents: (old(ctx.global_state).total_agents + 1) as u64,
                    ..old(ctx.global_state)@
                })
            },
            Err(e) => {
                &&& issue_error(mint_address@, handle@) == Some(e)
                &&& *final(ctx.global_state) == *old(ctx.global_state)
            },
        },
{
    match check_issue_request_at(mint_address, handle.as_str()) {
        Some(refusal) => {
            return Err(refusal);
        },
        None => {},
    }
    let fee_amount: u64 = issuance_fee(ctx.global_state.total_agents);
    let identity = AgentIdentity {
        owner: ctx.owner,
        mint: ctx.sbt_mint,
        handle,
        hex_id,
        score: 0,
        is_active: true,
        uri,
        last_claim_ts: ctx.unix_timestamp,
        sns: SnsLinks::new(),
        private_vault: Vec::new(),
        tier: MAX_TIER,
        recommendations: 0,
        reports: 0,
    };
    ctx.global_state.total_agents = ctx.global_state.total_agents + 1;
    Ok(Issuance { identity, fee: fee_amount })
}

/// Issues an identity: writes the identity token's address out and goes on as
/// `issue_identity_at` does. A well-formed handle may be granted and counted,
/// so the count has to have room for it.
pub fn issue_identity(
    ctx: IssueIdentity<'_>,
    handle: String,
    name: String,
    uri: String,
    hex_id: [u8; 512],
) -> (r: Result<Issuance, ErrorCode>)
    requires
        is_valid_handle(handle@) ==> old(ctx.global_state).total_agents < u64::MAX,
    ensures
        match r {
            Ok(issuance) => {
                &&& issue_error(base58_text(ctx.sbt_mint.bytes@), handle@) is None
                &&& issuance.identity@ == issued_identity(
                    ctx.owner,
                    ctx.sbt_mint,
                    handle@,
                    uri@,
                    hex_id,
                    ctx.unix_timestamp,
                )
                &&& issuance.fee == fee(old(ctx.global_state).total_agents as nat)
                &&& BASE_FEE <= issuance.fee <= MAX_FEE
                &&& final(ctx.global_state)@ == (GlobalStateView {
                    total_agents: (old(ctx.global_state).total_agents + 1) as u64,
                    ..old(ctx.global_state)@
                })
            },
            Err(e) => {
                &&& issue_error(base58_text(ctx.sbt_mint.bytes@), handle@) == Some(e)
                &&& *final(ctx.global_state) == *old(ctx.global_state)
            },
        },
{
    let mint_address = ctx.sbt_mint.to_base58();
    issue_identity_at(ctx, mint_address.as_str(), handle, name, uri, hex_id)
}

/// Hands an identity over to a new record. The signer has to control the old
/// record, which has to be active still. The old record is retired for good;
/// the new one is the old one under its new owner and token, stamped with the
/// time of the handover.
pub fn reissue_identity(ctx: ReissueIdentity<'_>) -> (r: Result<AgentIdentity, ErrorCode>)
    ensures
        match r {
            Ok(reissued) => {
                &&& reissue_error(old(ctx.identity)@, ctx.owner) is None
                &&& final(ctx.identity)@ == (AgentIdentityView {
                    is_active: false,
                    ..old(ctx.identity)@
                })
                &&& reissued@ == (AgentIdentityView {
                    owner: ctx.new_owner,
                    mint: ctx.new_mint,
                    last_claim_ts: ctx.unix_timestamp,
                    ..old(ctx.identity)@
                })
                &&& reissued@.handle == old(ctx.identity)@.handle
                &&& reissued@.hex_id == old(ctx.identity)@.hex_id
                &&& reissued.score == old(ctx.identity).score
                &&& reissued.tier == old(ctx.identity).tier
                &&& reissued@.uri == old(ctx.identity)@.uri
                &&& reissued.is_active
            },
            Err(e) => {
                &&& reissue_error(old(ctx.identity)@, ctx.owner) == Some(e)
                &&& *final(ctx.identity) == *old(ctx.identity)
            },
        },
        r is Ok ==> !final(ctx.identity).is_active,
        !old(ctx.identity).is_active ==> !final(ctx.identity).is_active,
{
    if ctx.owner != ctx.identity.owner {
        return Err(ErrorCode::Unauthorized);
    }
    if !ctx.identity.is_active {
        return Err(ErrorCode::InactiveIdentity);
    }
    let reissued = AgentIdentity {
        owner: ctx.new_owner,
        mint: ctx.new_mint,
        handle: ctx.identity.handle.clone(),
        hex_id: ctx.identity.hex_id,
        score: ctx.identity.score,
        is_active: true,
        uri: ctx.identity.uri.clone(),
        last_claim_ts: ctx.unix_timestamp,
        sns: ctx.identity.sns.clone(),
        private_vault: ctx.identity.private_vault.clone(),
        tier: ctx.identity.tier,
        recommendations: ctx.identity.recommendations,
        reports: ctx.identity.reports,
    };
    ctx.identity.is_active = false;
    Ok(reissued)
}

/// Sets an identity's score and tier, and its metadata pointer where one is
/// given, and carries the change of score over to the registry's running
/// total. Only an admin may do so.
pub fn update_agent_status(
    ctx: UpdateAgentStatus<'_>,
    new_score: u64,
    tier: u8,
    new_uri: Option<String>,
) -> (r: Result<(), ErrorCode>)
    ensures
        r == match update_status_error(old(ctx.global_state)@, ctx.admin, tier) {
            Some(e) => Err::<(), ErrorCode>(e),
            None => Ok(()),
        },
        !old(ctx.global_state)@.is_admin(ctx.admin) ==> r == Err::<(), ErrorCode>(
            ErrorCode::Unauthorized,
        ),
        r is Err ==> *final(ctx.global_state) == *old(ctx.global_state) && *final(ctx.identity)
            == *old(ctx.identity),
        r is Ok ==> final(ctx.global_state)@ == (GlobalStateView {
            total_score: updated_total(
                old(ctx.global_state).total_score,
                old(ctx.identity).score,
                new_score,
            ) as u64,
            ..old(ctx.global_state)@
        }),
        r is Ok ==> final(ctx.identity)@ == (AgentIdentityView {
            score: new_score,
            tier,
            uri: match new_uri {
                Some(uri) => uri@,
                None => old(ctx.identity)@.uri,
            },
            ..old(ctx.identity)@
        }),
        final(ctx.identity).is_active == old(ctx.identity).is_active,
{
    if !ctx.global_state.is_admin(&ctx.admin) {
        return Err(ErrorCode::Unauthorized);
    }
    if tier < MIN_TIER || tier > MAX_TIER {
        return Err(ErrorCode::InvalidTier);
    }
    ctx.global_state.total_score = ctx.global_state.total_score.saturating_sub(
        ctx.identity.score,
    ).saturating_add(new_score);
    ctx.identity.score = new_score;
    ctx.identity.tier = tier;
    match new_uri {
        Some(uri) => {
            ctx.identity.uri = uri;
        },
        None => {},
    }
    Ok(())
}

/// Links the identity to a handle on a platform, or drops the platform's link.
/// Only an admin may do so. Dropping a link that is not there changes nothing
/// and is no error.
pub fn update_sns(ctx: UpdateSns<'_>, platform: String, handle: String, remove: bool) -> (r: Result<
    (),
    ErrorCode,
>)
    ensures
        r == if ctx.global_state@.is_admin(ctx.admin) {
            Ok::<(), ErrorCode>(())
        } else {
            Err(ErrorCode::Unauthorized)
        },
        r is Err ==> *final(ctx.identity) == *old(ctx.identity),
        r is Ok ==> final(ctx.identity)@ == (AgentIdentityView {
            sns: if remove {
                old(ctx.identity)@.sns.remove(platform@)
            } else {
                old(ctx.identity)@.sns.insert(platform@, handle@)
            },
            ..old(ctx.identity)@
        }),
        final(ctx.identity).is_active == old(ctx.identity).is_active,
{
    if !ctx.global_state.is_admin(&ctx.admin) {
        return Err(ErrorCode::Unauthorized);
    }
    if remove {
        ctx.identity.sns.remove(&platform);
    } else {
        ctx.identity.sns.insert(platform, handle);
    }
    Ok(())
}

/// Replaces the identity's private bytes as a whole. Only the agent that
/// controls the record may do so.
pub fn update_private_vault(ctx: UpdateAgentData<'_>, encrypted_data: Vec<u8>) -> (r: Result<
    (),
    ErrorCode,
>)
    ensures
        r == if ctx.owner == old(ctx.identity).owner {
            Ok::<(), ErrorCode>(())
        } else {
            Err(ErrorCode::Unauthorized)
        },
        r is Err ==> *final(ctx.identity) == *old(ctx.identity),
        r is Ok ==> final(ctx.identity)@ == (AgentIdentityView {
            private_vault: encrypted_data@,
            ..old(ctx.identity)@
        }),
        final(ctx.identity).is_active == old(ctx.identity).is_active,
{
    if ctx.owner != ctx.identity.owner {
        return Err(ErrorCode::Unauthorized);
    }
    ctx.identity.private_vault = encrypted_data;
    Ok(())
}

} // verus!
