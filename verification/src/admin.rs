//! Setting the registry up and managing its admin list.

use vstd::prelude::*;
use crate::error::ErrorCode;
use crate::pubkey::Pubkey;
use crate::state::{GlobalState, GlobalStateView, MAX_ADMINS};

verus! {

/// The bumps of the two addresses derived when the registry is set up.
#[derive(Clone, Copy, Debug, PartialEq, Eq)]
pub struct InitializeBumps {
    pub global_state: u8,
    pub reward_vault: u8,
}

/// What `initialize` works on.
#[derive(Clone, Copy, Debug, PartialEq, Eq)]
pub struct Initialize {
    /// The signer, who becomes the registry's owner.
    pub admin: Pubkey,
    /// The bumps found for the registry and its reward vault.
    pub bumps: InitializeBumps,
}

/// What `add_admin` and `remove_admin` work on.
pub struct ManageAdmins<'a> {
    pub global_state: &'a mut GlobalState,
    /// The signer, who has to be the registry's owner.
    pub owner: Pubkey,
}

/// The registry as `initialize` leaves it.
pub open spec fn initial_state(ctx: Initialize, reward_mint: Pubkey) -> GlobalStateView {
    GlobalStateView {
        owner: ctx.admin,
        admins: seq![ctx.admin],
        reward_mint,
        total_agents: 0,
        total_score: 0,
        reward_pool: 0,
        vault_bump: ctx.bumps.reward_vault,
        state_bump: ctx.bumps.global_state,
    }
}

/// Why `add_admin` refuses, if it does. The first rule broken decides.
pub open spec fn add_admin_error(state: GlobalStateView, signer: Pubkey, new_admin: Pubkey) -> Option<
    ErrorCode,
> {
    if signer != state.owner {
        Some(ErrorCode::Unauthorized)
    } else if state.admins.len() >= MAX_ADMINS {
        Some(ErrorCode::AdminLimitReached)
    } else if state.admins.contains(new_admin) {
        Some(ErrorCode::AdminAlreadyExists)
    } else {
        None
    }
}

/// Why `remove_admin` refuses, if it does. The first rule broken decides.
pub open spec fn remove_admin_error(
    state: GlobalStateView,
    signer: Pubkey,
    admin_to_remove: Pubkey,
) -> Option<ErrorCode> {
    if signer != state.owner {
        Some(ErrorCode::Unauthorized)
    } else if admin_to_remove == state.owner {
        Some(ErrorCode::CannotRemoveOwner)
    } else if !state.admins.contains(admin_to_remove) {
        Some(ErrorCode::AdminNotFound)
    } else {
        None
    }
}

/// The admin list without `key`.
pub open spec fn without(admins: Seq<Pubkey>, key: Pubkey) -> Seq<Pubkey> {
    admins.filter(|admin: Pubkey| admin != key)
}

/// Creates the registry: the signer owns it and is its only admin, and nothing
/// has been counted yet.
pub fn initialize(ctx: Initialize, reward_mint: Pubkey) -> (state: GlobalState)
    ensures
        state@ == initial_state(ctx, reward_mint),
        state@.wf(),
{
    let mut admins: Vec<Pubkey> = Vec::new();
    admins.push(ctx.admin);
    let state = GlobalState {
        owner: ctx.admin,
        admins,
        reward_mint,
        total_agents: 0,
        total_score: 0,
        reward_pool: 0,
        vault_bump: ctx.bumps.reward_vault,
        state_bump: ctx.bumps.global_state,
    };
    proof {
        assert(state.admins@ =~= seq![ctx.admin]);
        assert(state.admins@[0] == ctx.admin);
    }
    state
}

/// Puts `new_admin` on the admin list. Only the owner may do so, the list
/// holds at most `MAX_ADMINS` keys, and no key twice.
pub fn add_admin(ctx: ManageAdmins<'_>, new_admin: Pubkey) -> (r: Result<(), ErrorCode>)
    ensures
        r == match add_admin_error(old(ctx.global_state)@, ctx.owner, new_admin) {
            Some(e) => Err::<(), ErrorCode>(e),
            None => Ok(()),
        },
        r is Err ==> *final(ctx.global_state) == *old(ctx.global_state),
        r is Ok ==> final(ctx.global_state)@ == (GlobalStateView {
            admins: old(ctx.global_state)@.admins.push(new_admin),
            ..old(ctx.global_state)@
        }),
        old(ctx.global_state)@.admins.len() >= MAX_ADMINS ==> r is Err,
        old(ctx.global_state)@.wf() ==> final(ctx.global_state)@.wf(),
{
    if ctx.owner != ctx.global_state.owner {
        return Err(ErrorCode::Unauthorized);
    }
    if ctx.global_state.admins.len() >= MAX_ADMINS {
        return Err(ErrorCode::AdminLimitReached);
    }
    if ctx.global_state.is_admin(&new_admin) {
        return Err(ErrorCode::AdminAlreadyExists);
    }
    ctx.global_state.admins.push(new_admin);
    proof {
        let before = old(ctx.global_state)@.admins;
        let after = ctx.global_state@.admins;
        if old(ctx.global_state)@.wf() {
            assert(after[before.index_of(old(ctx.global_state).owner)] == old(
                ctx.global_state,
            ).owner);
        }
    }
    Ok(())
}

/// Takes `admin_to_remove` off the admin list. Only the owner may do so, and
/// the owner stays on the list whatever happens.
pub fn remove_admin(ctx: ManageAdmins<'_>, admin_to_remove: Pubkey) -> (r: Result<(), ErrorCode>)
    ensures
        r == match remove_admin_error(old(ctx.global_state)@, ctx.owner, admin_to_remove) {
            Some(e) => Err::<(), ErrorCode>(e),
            None => Ok(()),
        },
        r is Err ==> *final(ctx.global_state) == *old(ctx.global_state),
        r is Ok ==> final(ctx.global_state)@ == (GlobalStateView {
            admins: without(old(ctx.global_state)@.admins, admin_to_remove),
            ..old(ctx.global_state)@
        }),
        admin_to_remove == old(ctx.global_state).owner ==> r is Err,
        old(ctx.global_state)@.wf() ==> final(ctx.global_state)@.wf(),
{
    if ctx.owner != ctx.global_state.owner {
        return Err(ErrorCode::Unauthorized);
    }
    if admin_to_remove == ctx.global_state.owner {
        return Err(ErrorCode::CannotRemoveOwner);
    }
    if !ctx.global_state.is_admin(&admin_to_remove) {
        return Err(ErrorCode::AdminNotFound);
    }
    let ghost before = ctx.global_state@.admins;
    let mut kept: Vec<Pubkey> = Vec::new();
    let mut i: usize = 0;
    while i < ctx.global_state.admins.len()
        invariant
            i <= ctx.global_state.admins.len(),
            ctx.global_state.admins@ == before,
            kept@ == without(before.take(i as int), admin_to_remove),
        decreases ctx.global_state.admins.len() - i,
    {
        let admin = ctx.global_state.admins[i];
        proof {
            reveal(Seq::filter);
            assert(before.take(i + 1).drop_last() =~= before.take(i as int));
        }
        if admin != admin_to_remove {
            kept.push(admin);
        }
        i += 1;
    }
    proof {
        assert(before.take(i as int) =~= before);
        lemma_without(before, admin_to_remove);
    }
    ctx.global_state.admins = kept;
    Ok(())
}

/// What is left of an admin list when a key is dropped from it: every other
/// key, none of them more often than before.
pub proof fn lemma_without(admins: Seq<Pubkey>, key: Pubkey)
    ensures
        forall|other: Pubkey|
            without(admins, key).contains(other) <==> admins.contains(other) && other != key,
        without(admins, key).len() <= admins.len(),
        admins.no_duplicates() ==> without(admins, key).no_duplicates(),
    decreases admins.len(),
{
    reveal(Seq::filter);
    let keep = |admin: Pubkey| admin != key;
    let kept = without(admins, key);
    if admins.len() > 0 {
        let rest = admins.drop_last();
        let last = admins.last();
        lemma_without(rest, key);
        assert forall|other: Pubkey| kept.contains(other) <==> admins.contains(other) && other
            != key by {
            if kept.contains(other) {
                let i = kept.index_of(other);
                if keep(last) && i == kept.len() - 1 {
                    assert(admins[admins.len() - 1] == other);
                } else {
                    assert(without(rest, key)[i] == other);
                    assert(without(rest, key).contains(other));
                    assert(rest.contains(other));
                    assert(admins[rest.index_of(other)] == other);
                }
            }
            if admins.contains(other) && other != key {
                let i = admins.index_of(other);
                if i == admins.len() - 1 {
                    assert(kept[kept.len() - 1] == other);
                } else {
                    assert(rest[i] == other);
                    assert(rest.contains(other));
                    assert(without(rest, key).contains(other));
                    assert(kept[without(rest, key).index_of(other)] == other);
                }
            }
        }
        if admins.no_duplicates() {
            assert(rest.no_duplicates());
            if keep(last) {
                if without(rest, key).contains(last) {
                    assert(rest.contains(last));
                    assert(admins[rest.index_of(last)] == last);
                }
            }
        }
    }
}

} // verus!
