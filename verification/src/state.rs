//! The records that the registry keeps: its own aggregate and one identity per
//! agent, each with the mathematical value that the contracts speak of.

use vstd::prelude::*;
use crate::pubkey::Pubkey;
use crate::sns::SnsLinks;

verus! {

/// The most admins the registry can have, the owner included.
pub const MAX_ADMINS: usize = 10;

/// The best tier.
pub const MIN_TIER: u8 = 1;

/// The lowest tier, which every identity starts in and which earns no reward.
pub const MAX_TIER: u8 = 10;

/// The registry's aggregate: who governs it and what it has counted so far.
#[derive(Clone, Debug, PartialEq, Eq)]
pub struct GlobalState {
    /// Who set the registry up. Never changes, and is always an admin.
    pub owner: Pubkey,
    /// Who may carry out privileged operations.
    pub admins: Vec<Pubkey>,
    /// The token that rewards are paid in.
    pub reward_mint: Pubkey,
    /// Identities issued so far.
    pub total_agents: u64,
    /// Running total of the scores of the active identities.
    pub total_score: u64,
    /// Tokens set aside for rewards.
    pub reward_pool: u64,
    /// Bump of the reward vault's derived address.
    pub vault_bump: u8,
    /// Bump of the registry's own derived address.
    pub state_bump: u8,
}

/// The value of a `GlobalState`.
pub struct GlobalStateView {
    pub owner: Pubkey,
    pub admins: Seq<Pubkey>,
    pub reward_mint: Pubkey,
    pub total_agents: u64,
    pub total_score: u64,
    pub reward_pool: u64,
    pub vault_bump: u8,
    pub state_bump: u8,
}

impl View for GlobalState {
    type V = GlobalStateView;

    open spec fn view(&self) -> GlobalStateView {
        GlobalStateView {
            owner: self.owner,
            admins: self.admins@,
            reward_mint: self.reward_mint,
            total_agents: self.total_agents,
            total_score: self.total_score,
            reward_pool: self.reward_pool,
            vault_bump: self.vault_bump,
            state_bump: self.state_bump,
        }
    }
}

impl GlobalStateView {
    /// Whether `key` is on the admin list.
    pub open spec fn is_admin(self, key: Pubkey) -> bool {
        self.admins.contains(key)
    }

    /// The admin list is in order: between one and `MAX_ADMINS` keys, none of
    /// them twice, the owner among them.
    pub open spec fn wf(self) -> bool {
        &&& 1 <= self.admins.len() <= MAX_ADMINS
        &&& self.admins.contains(self.owner)
        &&& self.admins.no_duplicates()
    }
}

impl GlobalState {
    /// Whether `key` is on the admin list.
    pub fn is_admin(&self, key: &Pubkey) -> (found: bool)
        ensures
            found == self@.is_admin(*key),
    {
        let mut i: usize = 0;
        while i < self.admins.len()
            invariant
                i <= self.admins.len(),
                forall|j: int| 0 <= j < i ==> self.admins[j] != *key,
            decreases self.admins.len() - i,
        {
            if self.admins[i] == *key {
                return true;
            }
            i += 1;
        }
        false
    }
}

/// The record of one agent.
#[derive(Clone, Debug, PartialEq, Eq)]
pub struct AgentIdentity {
    /// The agent that controls this record.
    pub owner: Pubkey,
    /// The identity token that stands for this record.
    pub mint: Pubkey,
    /// The agent's unique name.
    pub handle: String,
    /// The agent's opaque identifier.
    pub hex_id: [u8; 512],
    /// Reputation.
    pub score: u64,
    /// Cleared when the record is superseded by a reissued one; never set again.
    pub is_active: bool,
    /// Where the agent's metadata lives.
    pub uri: String,
    /// When the record was issued.
    pub last_claim_ts: i64,
    /// Handles on outside platforms.
    pub sns: SnsLinks,
    /// Bytes that only the owner writes and the registry never reads.
    pub private_vault: Vec<u8>,
    /// Rank, from `MIN_TIER` (best) to `MAX_TIER` (no reward).
    pub tier: u8,
    /// How often peers have recommended the agent.
    pub recommendations: u64,
    /// How often peers have reported the agent.
    pub reports: u64,
}

/// The value of an `AgentIdentity`.
pub struct AgentIdentityView {
    pub owner: Pubkey,
    pub mint: Pubkey,
    pub handle: Seq<char>,
    pub hex_id: [u8; 512],
    pub score: u64,
    pub is_active: bool,
    pub uri: Seq<char>,
    pub last_claim_ts: i64,
    pub sns: Map<Seq<char>, Seq<char>>,
    pub private_vault: Seq<u8>,
    pub tier: u8,
    pub recommendations: u64,
    pub reports: u64,
}

impl View for AgentIdentity {
    type V = AgentIdentityView;

    open spec fn view(&self) -> AgentIdentityView {
        AgentIdentityView {
            owner: self.owner,
            mint: self.mint,
            handle: self.handle@,
            hex_id: self.hex_id,
            score: self.score,
            is_active: self.is_active,
            uri: self.uri@,
            last_claim_ts: self.last_claim_ts,
            sns: self.sns@,
            private_vault: self.private_vault@,
            tier: self.tier,
            recommendations: self.recommendations,
            reports: self.reports,
        }
    }
}

/// A token account as far as the registry looks at it.
#[derive(Clone, Copy, Debug, PartialEq, Eq)]
pub struct TokenAccount {
    /// The account's address.
    pub key: Pubkey,
    /// The tokens it holds.
    pub amount: u64,
}

/// A token mint as far as the registry looks at it.
#[derive(Clone, Copy, Debug, PartialEq, Eq)]
pub struct Mint {
    /// The mint's address.
    pub key: Pubkey,
    /// The number of decimals its amounts are written with.
    pub decimals: u8,
}

} // verus!
