use nebulon_sbt_identity::{
    admin_withdraw_rewards, admin_withdraw_sol, claim_rewards, initialize, AdminWithdrawRewards,
    AdminWithdrawSol, AgentIdentity, ClaimRewards, ErrorCode, GlobalState, Initialize,
    InitializeBumps, Mint, Pubkey, SnsLinks, TokenAccount, TokenTransfer, TransferChecked,
    VaultSeeds, REWARD_AMOUNT,
};

fn pk(n: u8) -> Pubkey {
    Pubkey::new_from_array([n; 32])
}

fn state() -> GlobalState {
    initialize(
        Initialize { admin: pk(1), bumps: InitializeBumps { global_state: 255, reward_vault: 250 } },
        pk(9),
    )
}

fn identity(tier: u8, is_active: bool) -> AgentIdentity {
    AgentIdentity {
        owner: pk(20),
        mint: pk(30),
        handle: "@agent7".to_string(),
        hex_id: [4u8; 512],
        score: 10,
        is_active,
        uri: "u".to_string(),
        last_claim_ts: 11,
        sns: SnsLinks::new(),
        private_vault: Vec::new(),
        tier,
        recommendations: 0,
        reports: 0,
    }
}

fn claim<'a>(state: &'a GlobalState, identity: &'a AgentIdentity) -> ClaimRewards<'a> {
    ClaimRewards {
        global_state: state,
        identity,
        owner: pk(20),
        reward_vault: TokenAccount { key: pk(50), amount: 5_000 },
        user_reward_account: TokenAccount { key: pk(21), amount: 0 },
        reward_mint: Mint { key: pk(9), decimals: 6 },
    }
}

#[test]
fn claim_pays_a_thousand_out_of_the_vault() {
    assert_eq!(REWARD_AMOUNT, 1000);
    let state = state();
    let eligible = identity(9, true);
    let before = eligible.clone();
    let r = claim_rewards(claim(&state, &eligible));
    assert_eq!(
        r,
        Ok(TokenTransfer {
            accounts: TransferChecked { from: pk(50), mint: pk(9), to: pk(21), authority: pk(50) },
            amount: 1000,
            decimals: 6,
            signer: Some(VaultSeeds { reward_mint: pk(9), bump: 250 }),
        })
    );
    assert_eq!(eligible, before);
    assert!(claim_rewards(claim(&state, &identity(1, true))).is_ok());
}

#[test]
fn claim_is_refused_in_the_lowest_tier() {
    let state = state();
    assert_eq!(claim_rewards(claim(&state, &identity(10, true))), Err(ErrorCode::TierNotEligible));
    assert_eq!(claim_rewards(claim(&state, &identity(11, true))), Err(ErrorCode::TierNotEligible));
}

#[test]
fn claim_is_refused_for_a_retired_identity_whatever_its_tier() {
    let state = state();
    assert_eq!(claim_rewards(claim(&state, &identity(3, false))), Err(ErrorCode::InactiveIdentity));
    assert_eq!(claim_rewards(claim(&state, &identity(10, false))), Err(ErrorCode::InactiveIdentity));
}

#[test]
fn claim_is_for_the_agent_that_controls_the_identity() {
    let state = state();
    let eligible = identity(3, true);
    let mut by_admin = claim(&state, &eligible);
    by_admin.owner = pk(1);
    assert_eq!(claim_rewards(by_admin), Err(ErrorCode::Unauthorized));
    let mut by_stranger = claim(&state, &eligible);
    by_stranger.owner = pk(77);
    assert_eq!(claim_rewards(by_stranger), Err(ErrorCode::Unauthorized));
}

#[test]
fn claim_tells_the_state_of_the_record_before_it_asks_who_signs() {
    let state = state();
    let retired = identity(3, false);
    let mut on_retired = claim(&state, &retired);
    on_retired.owner = pk(77);
    assert_eq!(claim_rewards(on_retired), Err(ErrorCode::InactiveIdentity));
    let retired_lowest = identity(10, false);
    let mut on_retired_lowest = claim(&state, &retired_lowest);
    on_retired_lowest.owner = pk(77);
    assert_eq!(claim_rewards(on_retired_lowest), Err(ErrorCode::InactiveIdentity));
    let lowest = identity(10, true);
    let mut on_lowest = claim(&state, &lowest);
    on_lowest.owner = pk(77);
    assert_eq!(claim_rewards(on_lowest), Err(ErrorCode::TierNotEligible));
}

#[test]
fn claim_and_withdrawal_name_the_vault_as_payer_and_authority() {
    let state = state();
    let eligible = identity(2, true);
    assert_eq!(
        claim(&state, &eligible).into_transfer_context(),
        TransferChecked { from: pk(50), mint: pk(9), to: pk(21), authority: pk(50) }
    );
    let withdrawal = AdminWithdrawRewards {
        global_state: &state,
        admin: pk(1),
        reward_vault: TokenAccount { key: pk(50), amount: 5 },
        admin_token_account: TokenAccount { key: pk(60), amount: 0 },
        reward_mint: Mint { key: pk(9), decimals: 6 },
    };
    assert_eq!(
        withdrawal.into_transfer_context(),
        TransferChecked { from: pk(50), mint: pk(9), to: pk(60), authority: pk(50) }
    );
}

#[test]
fn admin_withdraws_lamports_above_the_retained_minimum() {
    let state = state();
    let mut registry: u64 = 10_000;
    let mut admin: u64 = 7;
    let r = admin_withdraw_sol(
        AdminWithdrawSol {
            global_state: &state,
            admin: pk(1),
            global_state_lamports: &mut registry,
            admin_lamports: &mut admin,
            rent_exempt_minimum: 4_000,
        },
        6_000,
    );
    assert_eq!(r, Ok(()));
    assert_eq!(registry, 4_000);
    assert_eq!(admin, 6_007);
}

#[test]
fn admin_cannot_withdraw_into_the_retained_minimum() {
    let state = state();
    let mut registry: u64 = 10_000;
    let mut admin: u64 = 7;
    let r = admin_withdraw_sol(
        AdminWithdrawSol {
            global_state: &state,
            admin: pk(1),
            global_state_lamports: &mut registry,
            admin_lamports: &mut admin,
            rent_exempt_minimum: 4_000,
        },
        6_001,
    );
    assert_eq!(r, Err(ErrorCode::InsufficientBalance));
    assert_eq!(registry, 10_000);
    assert_eq!(admin, 7);
}

#[test]
fn nothing_but_zero_can_be_withdrawn_below_the_minimum() {
    let state = state();
    let mut registry: u64 = 3_000;
    let mut admin: u64 = 7;
    let one = admin_withdraw_sol(
        AdminWithdrawSol {
            global_state: &state,
            admin: pk(1),
            global_state_lamports: &mut registry,
            admin_lamports: &mut admin,
            rent_exempt_minimum: 4_000,
        },
        1,
    );
    assert_eq!(one, Err(ErrorCode::InsufficientBalance));
    let zero = admin_withdraw_sol(
        AdminWithdrawSol {
            global_state: &state,
            admin: pk(1),
            global_state_lamports: &mut registry,
            admin_lamports: &mut admin,
            rent_exempt_minimum: 4_000,
        },
        0,
    );
    assert_eq!(zero, Ok(()));
    assert_eq!(registry, 3_000);
    assert_eq!(admin, 7);
}

#[test]
fn a_stranger_withdraws_no_lamports() {
    let state = state();
    let mut registry: u64 = 10_000;
    let mut stranger: u64 = 7;
    let r = admin_withdraw_sol(
        AdminWithdrawSol {
            global_state: &state,
            admin: pk(2),
            global_state_lamports: &mut registry,
            admin_lamports: &mut stranger,
            rent_exempt_minimum: 4_000,
        },
        1,
    );
    assert_eq!(r, Err(ErrorCode::Unauthorized));
    assert_eq!(registry, 10_000);
    assert_eq!(stranger, 7);
    let too_much = admin_withdraw_sol(
        AdminWithdrawSol {
            global_state: &state,
            admin: pk(2),
            global_state_lamports: &mut registry,
            admin_lamports: &mut stranger,
            rent_exempt_minimum: 4_000,
        },
        20_000,
    );
    assert_eq!(too_much, Err(ErrorCode::Unauthorized));
}

#[test]
fn admin_withdraws_reward_tokens_up_to_the_vault_balance() {
    let state = state();
    let withdraw = |admin: u8, amount: u64| {
        admin_withdraw_rewards(
            AdminWithdrawRewards {
                global_state: &state,
                admin: pk(admin),
                reward_vault: TokenAccount { key: pk(50), amount: 5_000 },
                admin_token_account: TokenAccount { key: pk(60), amount: 0 },
                reward_mint: Mint { key: pk(9), decimals: 6 },
            },
            amount,
        )
    };
    let expected = |amount: u64| TokenTransfer {
        accounts: TransferChecked { from: pk(50), mint: pk(9), to: pk(60), authority: pk(50) },
        amount,
        decimals: 6,
        signer: Some(VaultSeeds { reward_mint: pk(9), bump: 250 }),
    };
    assert_eq!(withdraw(1, 5_000), Ok(expected(5_000)));
    assert_eq!(withdraw(1, 1), Ok(expected(1)));
    assert_eq!(withdraw(1, 0), Ok(expected(0)));
    assert_eq!(withdraw(1, 5_001), Err(ErrorCode::InsufficientTokenBalance));
    assert_eq!(withdraw(2, 1), Err(ErrorCode::Unauthorized));
    assert_eq!(withdraw(2, 5_001), Err(ErrorCode::Unauthorized));
}
