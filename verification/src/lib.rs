//! Verified core of a soulbound agent-identity registry: issuance pricing,
//! admin authority, reputation scoring and reward gating.
//!
//! Every operation takes the records it works on as a bundle of borrows, checks
//! its rules before it changes anything, and either changes the records as its
//! contract says or leaves them exactly as they were. Where tokens have to
//! move, the operation hands back the transfer to make; the caller carries it
//! out in the same transaction.

pub mod admin;
pub mod error;
pub mod fee;
pub mod handle;
pub mod identity;
pub mod pubkey;
pub mod registry;
pub mod reputation;
pub mod rewards;
pub mod sns;
pub mod state;
pub mod transfer;

pub use admin::{add_admin, initialize, remove_admin, Initialize, InitializeBumps, ManageAdmins};
pub use error::{ErrorCode, ErrorKind};
pub use fee::{issuance_fee, BASE_FEE, FEE_INCREMENT, MAX_FEE};
pub use handle::{check_handle_format, check_vanity_suffix};
pub use identity::{
    check_issue_request, check_issue_request_at, issue_identity, issue_identity_at, reissue_identity, update_agent_status,
    update_private_vault, update_sns, Issuance, IssueIdentity, ReissueIdentity, UpdateAgentData,
    UpdateAgentStatus, UpdateSns,
};
pub use pubkey::Pubkey;
pub use registry::{Registry, RegistryError};
pub use reputation::{
    check_handle_proof, check_hex_id_proof, check_sns_proof, get_hex_id_by_sns, hex_id_matches,
    process_recommendation, process_report, recommend_with_handle, recommend_with_hex_id,
    recommend_with_sns, report_with_handle, report_with_hex_id, report_with_sns, ActionAgent,
    GetHexIdBySns, RECOMMEND_FEE, RECOMMEND_SCORE, REPORT_FEE, REPORT_PENALTY,
};
pub use rewards::{
    admin_withdraw_rewards, admin_withdraw_sol, claim_rewards, AdminWithdrawRewards,
    AdminWithdrawSol, ClaimRewards, REWARD_AMOUNT,
};
pub use sns::{SnsLink, SnsLinks};
pub use state::{
    AgentIdentity, GlobalState, Mint, TokenAccount, MAX_ADMINS, MAX_TIER, MIN_TIER,
};
pub use transfer::{TokenTransfer, TransferChecked, VaultSeeds};
