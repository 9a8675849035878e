use nebulon_sbt_identity::{
    add_admin, initialize, remove_admin, ErrorCode, GlobalState, Initialize, InitializeBumps,
    ManageAdmins, Pubkey, MAX_ADMINS,
};

fn key(n: u8) -> Pubkey {
    Pubkey::new_from_array([n; 32])
}

fn fresh() -> GlobalState {
    initialize(
        Initialize { admin: key(1), bumps: InitializeBumps { global_state: 254, reward_vault: 253 } },
        key(9),
    )
}

fn full() -> GlobalState {
    let mut state = fresh();
    for n in 2..=10u8 {
        assert_eq!(add_admin(ManageAdmins { global_state: &mut state, owner: key(1) }, key(n)), Ok(()));
    }
    state
}

#[test]
fn initialize_makes_the_signer_owner_and_only_admin() {
    let state = fresh();
    assert_eq!(state.owner, key(1));
    assert_eq!(state.admins, vec![key(1)]);
    assert_eq!(state.reward_mint, key(9));
    assert_eq!(state.total_agents, 0);
    assert_eq!(state.total_score, 0);
    assert_eq!(state.reward_pool, 0);
    assert_eq!(state.state_bump, 254);
    assert_eq!(state.vault_bump, 253);
}

#[test]
fn add_admin_appends_the_candidate() {
    let mut state = fresh();
    let r = add_admin(ManageAdmins { global_state: &mut state, owner: key(1) }, key(2));
    assert_eq!(r, Ok(()));
    assert_eq!(state.admins, vec![key(1), key(2)]);
    assert_eq!(state.owner, key(1));
}

#[test]
fn add_admin_by_another_than_the_owner_is_unauthorized() {
    let mut state = fresh();
    add_admin(ManageAdmins { global_state: &mut state, owner: key(1) }, key(2)).unwrap();
    let before = state.clone();
    let r = add_admin(ManageAdmins { global_state: &mut state, owner: key(2) }, key(3));
    assert_eq!(r, Err(ErrorCode::Unauthorized));
    assert_eq!(state, before);
}

#[test]
fn add_admin_twice_is_refused() {
    let mut state = fresh();
    add_admin(ManageAdmins { global_state: &mut state, owner: key(1) }, key(2)).unwrap();
    let before = state.clone();
    let r = add_admin(ManageAdmins { global_state: &mut state, owner: key(1) }, key(2));
    assert_eq!(r, Err(ErrorCode::AdminAlreadyExists));
    let again = add_admin(ManageAdmins { global_state: &mut state, owner: key(1) }, key(1));
    assert_eq!(again, Err(ErrorCode::AdminAlreadyExists));
    assert_eq!(state, before);
}

#[test]
fn add_admin_beyond_the_tenth_is_refused_and_changes_nothing() {
    let mut state = full();
    assert_eq!(state.admins.len(), MAX_ADMINS);
    let before = state.clone();
    let r = add_admin(ManageAdmins { global_state: &mut state, owner: key(1) }, key(11));
    assert_eq!(r, Err(ErrorCode::AdminLimitReached));
    assert_eq!(state, before);
}

#[test]
fn add_admin_reports_the_full_list_before_the_duplicate() {
    let mut state = full();
    let r = add_admin(ManageAdmins { global_state: &mut state, owner: key(1) }, key(5));
    assert_eq!(r, Err(ErrorCode::AdminLimitReached));
    let unauthorized = add_admin(ManageAdmins { global_state: &mut state, owner: key(5) }, key(5));
    assert_eq!(unauthorized, Err(ErrorCode::Unauthorized));
}

#[test]
fn remove_admin_takes_the_key_off_and_keeps_the_order() {
    let mut state = fresh();
    for n in 2..=4u8 {
        add_admin(ManageAdmins { global_state: &mut state, owner: key(1) }, key(n)).unwrap();
    }
    let r = remove_admin(ManageAdmins { global_state: &mut state, owner: key(1) }, key(3));
    assert_eq!(r, Ok(()));
    assert_eq!(state.admins, vec![key(1), key(2), key(4)]);
}

#[test]
fn remove_admin_makes_room_for_another() {
    let mut state = full();
    remove_admin(ManageAdmins { global_state: &mut state, owner: key(1) }, key(10)).unwrap();
    let r = add_admin(ManageAdmins { global_state: &mut state, owner: key(1) }, key(11));
    assert_eq!(r, Ok(()));
    assert_eq!(state.admins.len(), 10);
    assert_eq!(state.admins[9], key(11));
}

#[test]
fn remove_admin_of_the_owner_always_fails() {
    let mut state = fresh();
    add_admin(ManageAdmins { global_state: &mut state, owner: key(1) }, key(2)).unwrap();
    let before = state.clone();
    let by_owner = remove_admin(ManageAdmins { global_state: &mut state, owner: key(1) }, key(1));
    assert_eq!(by_owner, Err(ErrorCode::CannotRemoveOwner));
    let by_admin = remove_admin(ManageAdmins { global_state: &mut state, owner: key(2) }, key(1));
    assert_eq!(by_admin, Err(ErrorCode::Unauthorized));
    assert_eq!(state, before);
}

#[test]
fn remove_admin_of_an_unknown_key_is_refused() {
    let mut state = fresh();
    let before = state.clone();
    let r = remove_admin(ManageAdmins { global_state: &mut state, owner: key(1) }, key(7));
    assert_eq!(r, Err(ErrorCode::AdminNotFound));
    assert_eq!(state, before);
}

#[test]
fn remove_admin_by_another_than_the_owner_is_unauthorized() {
    let mut state = fresh();
    add_admin(ManageAdmins { global_state: &mut state, owner: key(1) }, key(2)).unwrap();
    add_admin(ManageAdmins { global_state: &mut state, owner: key(1) }, key(3)).unwrap();
    let before = state.clone();
    let r = remove_admin(ManageAdmins { global_state: &mut state, owner: key(2) }, key(3));
    assert_eq!(r, Err(ErrorCode::Unauthorized));
    assert_eq!(state, before);
}

#[test]
fn is_admin_tells_members_from_strangers() {
    let mut state = fresh();
    add_admin(ManageAdmins { global_state: &mut state, owner: key(1) }, key(2)).unwrap();
    assert!(state.is_admin(&key(1)));
    assert!(state.is_admin(&key(2)));
    assert!(!state.is_admin(&key(3)));
}

#[test]
fn keys_are_equal_when_every_byte_agrees() {
    let mut bytes = [3u8; 32];
    assert!(Pubkey::new_from_array(bytes) == key(3));
    bytes[31] = 4;
    assert!(Pubkey::new_from_array(bytes) != key(3));
    bytes[31] = 3;
    bytes[0] = 0;
    assert!(Pubkey::new_from_array(bytes) != key(3));
}
