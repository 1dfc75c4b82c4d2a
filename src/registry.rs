use vstd::prelude::*;

use crate::error::CustomError;
use crate::key::{contains_key, has_duplicate_keys, position_of, Pubkey};
use crate::state::{GlobalState, Quest, MAX_SUPPORTED_TOKEN_MINTS};

verus! {

/// Accounts of `initialize`.
pub struct Initialize {
    pub owner: Pubkey,
    pub global_state: GlobalState,
}

/// Accounts of `update_quest_status`.
pub struct UpdateQuestStatus {
    pub owner: Pubkey,
    pub global_state: GlobalState,
    pub quest: Quest,
}

/// Accounts of `add_supported_token` and `remove_supported_token`.
pub struct ModifyToken {
    pub owner: Pubkey,
    pub global_state: GlobalState,
    pub token_mint: Pubkey,
}

/// Accounts of `pause` and `unpause`.
pub struct PauseContract {
    pub owner: Pubkey,
    pub global_state: GlobalState,
}

/// Accounts of `set_owner`.
pub struct SetOwner {
    pub current_owner: Pubkey,
    pub global_state: GlobalState,
}

/// Sets up the registry: the signer becomes owner, nothing is paused, and
/// `supported_token_mints` becomes the allow-list.
pub fn initialize(ctx: &mut Initialize, supported_token_mints: Vec<Pubkey>) -> (r: Result<
    (),
    CustomError,
>)
    ensures
        match r {
            Ok(()) => {
                &&& supported_token_mints@.len() <= MAX_SUPPORTED_TOKEN_MINTS
                &&& supported_token_mints@.no_duplicates()
                &&& final(ctx).owner == old(ctx).owner
                &&& final(ctx).global_state.owner == old(ctx).owner
                &&& !final(ctx).global_state.paused
                &&& final(ctx).global_state.supported_token_mints@ == supported_token_mints@
                &&& final(ctx).global_state.quest_count == 0
                &&& final(ctx).global_state.wf()
            },
            Err(e) => {
                &&& e == (if supported_token_mints@.len() > MAX_SUPPORTED_TOKEN_MINTS {
                    CustomError::TooManyTokenMints
                } else {
                    CustomError::TokenAlreadySupported
                })
                &&& !(supported_token_mints@.len() <= MAX_SUPPORTED_TOKEN_MINTS
                    && supported_token_mints@.no_duplicates())
                &&& *final(ctx) == *old(ctx)
            },
        },
{
    if supported_token_mints.len() > MAX_SUPPORTED_TOKEN_MINTS {
        return Err(CustomError::TooManyTokenMints);
    }
    if has_duplicate_keys(&supported_token_mints) {
        return Err(CustomError::TokenAlreadySupported);
    }
    ctx.global_state.owner = ctx.owner;
    ctx.global_state.paused = false;
    ctx.global_state.supported_token_mints = supported_token_mints;
    ctx.global_state.quest_count = 0;
    Ok(())
}

/// The registry owner sets whether a quest is active.
pub fn update_quest_status(ctx: &mut UpdateQuestStatus, is_active: bool) -> (r: Result<
    (),
    CustomError,
>)
    ensures
        match r {
            Ok(()) => {
                &&& old(ctx).owner == old(ctx).global_state.owner
                &&& final(ctx).quest == (Quest { is_active, ..old(ctx).quest })
                &&& old(ctx).quest.wf() ==> final(ctx).quest.wf()
                &&& final(ctx).owner == old(ctx).owner
                &&& final(ctx).global_state == old(ctx).global_state
            },
            Err(e) => {
                &&& e == CustomError::UnauthorizedStatusUpdate
                &&& old(ctx).owner != old(ctx).global_state.owner
                &&& *final(ctx) == *old(ctx)
            },
        },
{
    if !ctx.owner.same_as(&ctx.global_state.owner) {
        return Err(CustomError::UnauthorizedStatusUpdate);
    }
    ctx.quest.is_active = is_active;
    Ok(())
}

/// Why `add_supported_token` rejects `ctx`, if it does.
pub open spec fn add_token_error(ctx: ModifyToken) -> Option<CustomError> {
    if ctx.owner != ctx.global_state.owner {
        Some(CustomError::UnauthorizedTokenModification)
    } else if ctx.global_state.supported_token_mints@.contains(ctx.token_mint) {
        Some(CustomError::TokenAlreadySupported)
    } else if ctx.global_state.supported_token_mints@.len() >= MAX_SUPPORTED_TOKEN_MINTS {
        Some(CustomError::TooManyTokenMints)
    } else {
        None
    }
}

/// The registry owner adds a token kind to the allow-list.
pub fn add_supported_token(ctx: &mut ModifyToken) -> (r: Result<(), CustomError>)
    ensures
        old(ctx).global_state.wf() ==> final(ctx).global_state.wf(),
        match r {
            Ok(()) => {
                &&& add_token_error(*old(ctx)) is None
                &&& final(ctx).global_state.supported_token_mints@
                    == old(ctx).global_state.supported_token_mints@.push(old(ctx).token_mint)
                &&& final(ctx).global_state.owner == old(ctx).global_state.owner
                &&& final(ctx).global_state.paused == old(ctx).global_state.paused
                &&& final(ctx).global_state.quest_count == old(ctx).global_state.quest_count
                &&& final(ctx).owner == old(ctx).owner
                &&& final(ctx).token_mint == old(ctx).token_mint
            },
            Err(e) => add_token_error(*old(ctx)) == Some(e) && *final(ctx) == *old(ctx),
        },
{
    if !ctx.owner.same_as(&ctx.global_state.owner) {
        return Err(CustomError::UnauthorizedTokenModification);
    }
    if contains_key(&ctx.global_state.supported_token_mints, &ctx.token_mint) {
        return Err(CustomError::TokenAlreadySupported);
    }
    if ctx.global_state.supported_token_mints.len() >= MAX_SUPPORTED_TOKEN_MINTS {
        return Err(CustomError::TooManyTokenMints);
    }
    let mint = ctx.token_mint;
    ctx.global_state.supported_token_mints.push(mint);
    Ok(())
}

/// Why `remove_supported_token` rejects `ctx`, if it does.
pub open spec fn remove_token_error(ctx: ModifyToken) -> Option<CustomError> {
    if ctx.owner != ctx.global_state.owner {
        Some(CustomError::UnauthorizedTokenModification)
    } else if !ctx.global_state.supported_token_mints@.contains(ctx.token_mint) {
        Some(CustomError::TokenNotFound)
    } else {
        None
    }
}

/// The registry owner removes a token kind from the allow-list; the others keep their order.
pub fn remove_supported_token(ctx: &mut ModifyToken) -> (r: Result<(), CustomError>)
    ensures
        old(ctx).global_state.wf() ==> final(ctx).global_state.wf(),
        match r {
            Ok(()) => {
                &&& remove_token_error(*old(ctx)) is None
                &&& final(ctx).global_state.supported_token_mints@
                    == old(ctx).global_state.supported_token_mints@.remove_value(old(ctx).token_mint)
                &&& old(ctx).global_state.wf()
                    ==> !final(ctx).global_state.supported_token_mints@.contains(old(ctx).token_mint)
                &&& final(ctx).global_state.owner == old(ctx).global_state.owner
                &&& final(ctx).global_state.paused == old(ctx).global_state.paused
                &&& final(ctx).global_state.quest_count == old(ctx).global_state.quest_count
                &&& final(ctx).owner == old(ctx).owner
                &&& final(ctx).token_mint == old(ctx).token_mint
            },
            Err(e) => remove_token_error(*old(ctx)) == Some(e) && *final(ctx) == *old(ctx),
        },
{
    if !ctx.owner.same_as(&ctx.global_state.owner) {
        return Err(CustomError::UnauthorizedTokenModification);
    }
    match position_of(&ctx.global_state.supported_token_mints, &ctx.token_mint) {
        None => Err(CustomError::TokenNotFound),
        Some(i) => {
            let ghost before = ctx.global_state.supported_token_mints@;
            ctx.global_state.supported_token_mints.remove(i);
            proof {
                assert(before.index_of_first(ctx.token_mint) == Some(i as int)) by {
                    before.index_of_first_ensures(ctx.token_mint);
                }
                assert(ctx.global_state.supported_token_mints@ =~= before.remove(i as int));
                if before.no_duplicates() {
                    assert(!ctx.global_state.supported_token_mints@.contains(ctx.token_mint)) by {
                        if ctx.global_state.supported_token_mints@.contains(ctx.token_mint) {
                            let k = choose|k: int|
                                0 <= k < ctx.global_state.supported_token_mints@.len()
                                    && ctx.global_state.supported_token_mints@[k] == ctx.token_mint;
                            if k < i {
                                assert(before[k] == before[i as int]);
                            } else {
                                assert(before[k + 1] == before[i as int]);
                            }
                        }
                    }
                }
            }
            Ok(())
        },
    }
}

/// Why `pause` (when `to_paused`) or `unpause` rejects `ctx`, if it does.
pub open spec fn pause_error(ctx: PauseContract, to_paused: bool) -> Option<CustomError> {
    if ctx.owner != ctx.global_state.owner {
        Some(CustomError::UnauthorizedPauseAction)
    } else if ctx.global_state.paused == to_paused {
        Some(
            if to_paused {
                CustomError::AlreadyPaused
            } else {
                CustomError::AlreadyUnpaused
            },
        )
    } else {
        None
    }
}

/// The registry owner stops all funds-moving instructions.
pub fn pause(ctx: &mut PauseContract) -> (r: Result<(), CustomError>)
    ensures
        match r {
            Ok(()) => {
                &&& pause_error(*old(ctx), true) is None
                &&& final(ctx).global_state == (GlobalState { paused: true, ..old(ctx).global_state })
                &&& final(ctx).owner == old(ctx).owner
            },
            Err(e) => pause_error(*old(ctx), true) == Some(e) && *final(ctx) == *old(ctx),
        },
{
    if !ctx.owner.same_as(&ctx.global_state.owner) {
        return Err(CustomError::UnauthorizedPauseAction);
    }
    if ctx.global_state.paused {
        return Err(CustomError::AlreadyPaused);
    }
    ctx.global_state.paused = true;
    Ok(())
}

/// The registry owner lets funds-moving instructions run again.
pub fn unpause(ctx: &mut PauseContract) -> (r: Result<(), CustomError>)
    ensures
        match r {
            Ok(()) => {
                &&& pause_error(*old(ctx), false) is None
                &&& final(ctx).global_state == (GlobalState { paused: false, ..old(ctx).global_state })
                &&& final(ctx).owner == old(ctx).owner
            },
            Err(e) => pause_error(*old(ctx), false) == Some(e) && *final(ctx) == *old(ctx),
        },
{
    if !ctx.owner.same_as(&ctx.global_state.owner) {
        return Err(CustomError::UnauthorizedPauseAction);
    }
    if !ctx.global_state.paused {
        return Err(CustomError::AlreadyUnpaused);
    }
    ctx.global_state.paused = false;
    Ok(())
}

/// The current owner hands the registry to `new_owner`.
pub fn set_owner(ctx: &mut SetOwner, new_owner: Pubkey) -> (r: Result<(), CustomError>)
    ensures
        match r {
            Ok(()) => {
                &&& old(ctx).current_owner == old(ctx).global_state.owner
                &&& final(ctx).global_state == (GlobalState { owner: new_owner, ..old(ctx).global_state })
                &&& final(ctx).current_owner == old(ctx).current_owner
            },
            Err(e) => {
                &&& e == CustomError::UnauthorizedRewardAction
                &&& old(ctx).current_owner != old(ctx).global_state.owner
                &&& *final(ctx) == *old(ctx)
            },
        },
{
    if !ctx.current_owner.same_as(&ctx.global_state.owner) {
        return Err(CustomError::UnauthorizedRewardAction);
    }
    ctx.global_state.owner = new_owner;
    Ok(())
}

} // verus!
