use vstd::prelude::*;

use crate::derive::{
    escrow_seeds, global_state_seeds, is_derived, is_escrow_address, is_global_state_address,
};
use crate::error::CustomError;
use crate::key::{contains_key, Pubkey};
use crate::state::{
    GlobalState, Quest, TokenAccount, TokenAction, MAX_QUEST_ID_LENGTH, WITHDRAWAL_DELAY_SECONDS,
};

verus! {

/// Accounts of `create_quest`.
pub struct CreateQuest {
    pub program_id: Pubkey,
    pub creator: Pubkey,
    pub global_state: GlobalState,
    pub token_mint: Pubkey,
    pub escrow_account: Pubkey,
    pub creator_token_account: TokenAccount,
    pub quest: Quest,
    pub quest_key: Pubkey,
}

/// Accounts of `get_quest_info`.
pub struct GetQuestInfo {
    pub quest: Quest,
}

/// Accounts of `get_all_quests`.
pub struct GetAllQuests {
    pub global_state: GlobalState,
}

/// Accounts of `cancel_quest`.
pub struct CancelQuest {
    pub program_id: Pubkey,
    pub creator: Pubkey,
    pub global_state: GlobalState,
    pub global_state_key: Pubkey,
    pub quest: Quest,
    pub escrow_account: TokenAccount,
    pub creator_token_account: TokenAccount,
}

/// Accounts of `claim_remaining_reward`.
pub struct ClaimRemainingReward {
    pub program_id: Pubkey,
    pub claimer: Pubkey,
    pub global_state: GlobalState,
    pub global_state_key: Pubkey,
    pub quest: Quest,
    pub escrow_account: TokenAccount,
    pub creator_token_account: TokenAccount,
}

/// Length of a quest id in bytes.
pub open spec fn id_byte_len(id: Seq<char>) -> nat {
    vstd::utf8::encode_utf8(id).len()
}

/// Whether `escrow` is the quest's escrow account, of its token kind, held by the registry.
pub open spec fn is_quest_escrow(quest: Quest, escrow: TokenAccount, registry: Pubkey) -> bool {
    &&& escrow.key == quest.escrow_account
    &&& escrow.mint == quest.token_mint
    &&& escrow.owner == registry
}

pub(crate) fn check_quest_escrow(quest: &Quest, escrow: &TokenAccount, registry: &Pubkey) -> (r: bool)
    ensures
        r == is_quest_escrow(*quest, *escrow, *registry),
{
    escrow.key.same_as(&quest.escrow_account) && escrow.mint.same_as(&quest.token_mint)
        && escrow.owner.same_as(registry)
}

/// Whether `account` holds tokens of kind `mint` for `owner`.
pub open spec fn is_account_of(account: TokenAccount, mint: Pubkey, owner: Pubkey) -> bool {
    account.mint == mint && account.owner == owner
}

pub(crate) fn check_account_of(account: &TokenAccount, mint: &Pubkey, owner: &Pubkey) -> (r: bool)
    ensures
        r == is_account_of(*account, *mint, *owner),
{
    account.mint.same_as(mint) && account.owner.same_as(owner)
}

/// Why `create_quest` rejects its arguments, if it does.
pub open spec fn create_quest_error(
    ctx: CreateQuest,
    id: Seq<char>,
    amount: u64,
    deadline: i64,
    max_winners: u32,
    now: i64,
) -> Option<CustomError> {
    if ctx.global_state.paused {
        Some(CustomError::ContractPaused)
    } else if !ctx.global_state.supported_token_mints@.contains(ctx.token_mint) {
        Some(CustomError::UnsupportedTokenMint)
    } else if amount == 0 || max_winners == 0 {
        Some(CustomError::InvalidAmount)
    } else if id_byte_len(id) > MAX_QUEST_ID_LENGTH {
        Some(CustomError::InvalidQuestId)
    } else if deadline <= now {
        Some(CustomError::InvalidDeadline)
    } else if !is_derived(escrow_seeds(ctx.quest_key@), ctx.program_id, ctx.escrow_account) {
        Some(CustomError::AddressDerivationMismatch)
    } else if !is_account_of(ctx.creator_token_account, ctx.token_mint, ctx.creator) {
        Some(CustomError::InvalidTokenAccount)
    } else if ctx.creator_token_account.amount < amount {
        Some(CustomError::InsufficientBalance)
    } else {
        None
    }
}

/// Opens a quest funded with `amount` tokens from the creator, and returns the
/// deposit into escrow that the token service must carry out.
pub fn create_quest(
    ctx: &mut CreateQuest,
    id: String,
    amount: u64,
    deadline: i64,
    max_winners: u32,
    now: i64,
) -> (r: Result<TokenAction, CustomError>)
    ensures
        match r {
            Ok(action) => {
                &&& create_quest_error(*old(ctx), id@, amount, deadline, max_winners, now) is None
                &&& final(ctx).quest == (Quest {
                    id,
                    creator: old(ctx).creator,
                    token_mint: old(ctx).token_mint,
                    escrow_account: old(ctx).escrow_account,
                    amount,
                    deadline,
                    is_active: true,
                    total_winners: 0,
                    total_reward_distributed: 0,
                    max_winners,
                })
                &&& final(ctx).quest.wf()
                &&& final(ctx).global_state == (GlobalState {
                    quest_count: if old(ctx).global_state.quest_count == u32::MAX {
                        u32::MAX
                    } else {
                        (old(ctx).global_state.quest_count + 1) as u32
                    },
                    ..old(ctx).global_state
                })
                &&& action == (TokenAction::Transfer {
                    from: old(ctx).creator_token_account.key,
                    to: old(ctx).escrow_account,
                    authority: old(ctx).creator,
                    amount,
                })
                &&& final(ctx).program_id == old(ctx).program_id
                &&& final(ctx).creator == old(ctx).creator
                &&& final(ctx).token_mint == old(ctx).token_mint
                &&& final(ctx).escrow_account == old(ctx).escrow_account
                &&& final(ctx).creator_token_account == old(ctx).creator_token_account
                &&& final(ctx).quest_key == old(ctx).quest_key
            },
            Err(e) => {
                &&& create_quest_error(*old(ctx), id@, amount, deadline, max_winners, now) == Some(e)
                &&& *final(ctx) == *old(ctx)
            },
        },
{
    if ctx.global_state.paused {
        return Err(CustomError::ContractPaused);
    }
    if !contains_key(&ctx.global_state.supported_token_mints, &ctx.token_mint) {
        return Err(CustomError::UnsupportedTokenMint);
    }
    if amount == 0 || max_winners == 0 {
        return Err(CustomError::InvalidAmount);
    }
    if id.as_str().as_bytes().len() > MAX_QUEST_ID_LENGTH {
        return Err(CustomError::InvalidQuestId);
    }
    if deadline <= now {
        return Err(CustomError::InvalidDeadline);
    }
    if !is_escrow_address(&ctx.program_id, &ctx.quest_key, &ctx.escrow_account) {
        return Err(CustomError::AddressDerivationMismatch);
    }
    if !check_account_of(&ctx.creator_token_account, &ctx.token_mint, &ctx.creator) {
        return Err(CustomError::InvalidTokenAccount);
    }
    if ctx.creator_token_account.amount < amount {
        return Err(CustomError::InsufficientBalance);
    }
    ctx.quest = Quest {
        id,
        creator: ctx.creator,
        token_mint: ctx.token_mint,
        escrow_account: ctx.escrow_account,
        amount,
        deadline,
        is_active: true,
        total_winners: 0,
        total_reward_distributed: 0,
        max_winners,
    };
    ctx.global_state.quest_count = ctx.global_state.quest_count.saturating_add(1);
    Ok(
        TokenAction::Transfer {
            from: ctx.creator_token_account.key,
            to: ctx.escrow_account,
            authority: ctx.creator,
            amount,
        },
    )
}

/// Returns the quest record as it stands.
pub fn get_quest_info(ctx: &GetQuestInfo) -> (r: Result<Quest, CustomError>)
    ensures
        r == Ok::<Quest, CustomError>(ctx.quest),
{
    let q = Quest {
        id: ctx.quest.id.clone(),
        creator: ctx.quest.creator,
        token_mint: ctx.quest.token_mint,
        escrow_account: ctx.quest.escrow_account,
        amount: ctx.quest.amount,
        deadline: ctx.quest.deadline,
        is_active: ctx.quest.is_active,
        total_winners: ctx.quest.total_winners,
        total_reward_distributed: ctx.quest.total_reward_distributed,
        max_winners: ctx.quest.max_winners,
    };
    Ok(q)
}

/// Quests are not listed by the registry: callers find quest records themselves, so
/// the list is always empty.
pub fn get_all_quests(ctx: &GetAllQuests) -> (r: Result<Vec<String>, CustomError>)
    ensures
        r matches Ok(v) && v@.len() == 0,
{
    Ok(Vec::new())
}

/// Why `cancel_quest` rejects `ctx`, if it does.
pub open spec fn cancel_quest_error(ctx: CancelQuest) -> Option<CustomError> {
    if ctx.global_state.paused {
        Some(CustomError::ContractPaused)
    } else if !ctx.quest.is_active {
        Some(CustomError::QuestNotActive)
    } else if ctx.quest.creator != ctx.creator {
        Some(CustomError::UnauthorizedCancellation)
    } else if !is_derived(global_state_seeds(), ctx.program_id, ctx.global_state_key) {
        Some(CustomError::AddressDerivationMismatch)
    } else if !is_quest_escrow(ctx.quest, ctx.escrow_account, ctx.global_state_key)
        || !is_account_of(ctx.creator_token_account, ctx.quest.token_mint, ctx.creator) {
        Some(CustomError::InvalidTokenAccount)
    } else {
        None
    }
}

/// The creator ends an active quest: the whole escrow balance goes back to the
/// creator and the escrow account is closed.
pub fn cancel_quest(ctx: &mut CancelQuest) -> (r: Result<Vec<TokenAction>, CustomError>)
    ensures
        match r {
            Ok(actions) => {
                &&& cancel_quest_error(*old(ctx)) is None
                &&& final(ctx).quest == (Quest { is_active: false, ..old(ctx).quest })
                &&& old(ctx).quest.wf() ==> final(ctx).quest.wf()
                &&& actions@ == seq![
                    TokenAction::Transfer {
                        from: old(ctx).escrow_account.key,
                        to: old(ctx).creator_token_account.key,
                        authority: old(ctx).global_state_key,
                        amount: old(ctx).escrow_account.amount,
                    },
                    TokenAction::CloseAccount {
                        account: old(ctx).escrow_account.key,
                        destination: old(ctx).creator,
                        authority: old(ctx).global_state_key,
                    },
                ]
                &&& final(ctx).program_id == old(ctx).program_id
                &&& final(ctx).creator == old(ctx).creator
                &&& final(ctx).global_state == old(ctx).global_state
                &&& final(ctx).global_state_key == old(ctx).global_state_key
                &&& final(ctx).escrow_account == old(ctx).escrow_account
                &&& final(ctx).creator_token_account == old(ctx).creator_token_account
            },
            Err(e) => cancel_quest_error(*old(ctx)) == Some(e) && *final(ctx) == *old(ctx),
        },
{
    if ctx.global_state.paused {
        return Err(CustomError::ContractPaused);
    }
    if !ctx.quest.is_active {
        return Err(CustomError::QuestNotActive);
    }
    if !ctx.quest.creator.same_as(&ctx.creator) {
        return Err(CustomError::UnauthorizedCancellation);
    }
    if !is_global_state_address(&ctx.program_id, &ctx.global_state_key) {
        return Err(CustomError::AddressDerivationMismatch);
    }
    if !check_quest_escrow(&ctx.quest, &ctx.escrow_account, &ctx.global_state_key)
        || !check_account_of(&ctx.creator_token_account, &ctx.quest.token_mint, &ctx.creator) {
        return Err(CustomError::InvalidTokenAccount);
    }
    ctx.quest.is_active = false;
    let mut actions: Vec<TokenAction> = Vec::new();
    actions.push(
        TokenAction::Transfer {
            from: ctx.escrow_account.key,
            to: ctx.creator_token_account.key,
            authority: ctx.global_state_key,
            amount: ctx.escrow_account.amount,
        },
    );
    actions.push(
        TokenAction::CloseAccount {
            account: ctx.escrow_account.key,
            destination: ctx.creator,
            authority: ctx.global_state_key,
        },
    );
    Ok(actions)
}

/// Why `claim_remaining_reward` rejects `ctx` at time `now`, if it does.
pub open spec fn claim_remaining_error(ctx: ClaimRemainingReward, now: i64) -> Option<CustomError> {
    if ctx.global_state.paused {
        Some(CustomError::ContractPaused)
    } else if ctx.claimer != ctx.quest.creator && ctx.claimer != ctx.global_state.owner {
        Some(CustomError::UnauthorizedWithdrawal)
    } else if ctx.quest.is_active {
        Some(CustomError::QuestNotActive)
    } else if now < ctx.quest.deadline + WITHDRAWAL_DELAY_SECONDS {
        Some(CustomError::WithdrawalTooEarly)
    } else if ctx.quest.remaining() <= 0 {
        Some(CustomError::NoTokensToWithdraw)
    } else if !is_derived(global_state_seeds(), ctx.program_id, ctx.global_state_key) {
        Some(CustomError::AddressDerivationMismatch)
    } else if !is_quest_escrow(ctx.quest, ctx.escrow_account, ctx.global_state_key)
        || !is_account_of(ctx.creator_token_account, ctx.quest.token_mint, ctx.quest.creator) {
        Some(CustomError::InvalidTokenAccount)
    } else if ctx.escrow_account.amount < ctx.quest.remaining() {
        Some(CustomError::InsufficientBalance)
    } else {
        None
    }
}

/// What a successful sweep does to the quest: its budget is pinned to what was paid out.
pub open spec fn swept(quest: Quest) -> Quest {
    Quest { amount: quest.total_reward_distributed, ..quest }
}

/// The actions of a successful sweep: the remainder goes to the creator, and the
/// escrow account is closed when that empties it.
pub open spec fn sweep_actions(ctx: ClaimRemainingReward) -> Seq<TokenAction> {
    let transfer = TokenAction::Transfer {
        from: ctx.escrow_account.key,
        to: ctx.creator_token_account.key,
        authority: ctx.global_state_key,
        amount: ctx.quest.remaining() as u64,
    };
    if ctx.escrow_account.amount == ctx.quest.remaining() {
        seq![
            transfer,
            TokenAction::CloseAccount {
                account: ctx.escrow_account.key,
                destination: ctx.quest.creator,
                authority: ctx.global_state_key,
            },
        ]
    } else {
        seq![transfer]
    }
}

/// Returns what a finished quest did not pay out to its creator, once a week has
/// passed since its deadline.
pub fn claim_remaining_reward(ctx: &mut ClaimRemainingReward, now: i64) -> (r: Result<
    Vec<TokenAction>,
    CustomError,
>)
    ensures
        match r {
            Ok(actions) => {
                &&& claim_remaining_error(*old(ctx), now) is None
                &&& final(ctx).quest == swept(old(ctx).quest)
                &&& final(ctx).quest.wf()
                &&& final(ctx).quest.remaining() == 0
                &&& actions@ == sweep_actions(*old(ctx))
                &&& final(ctx).program_id == old(ctx).program_id
                &&& final(ctx).claimer == old(ctx).claimer
                &&& final(ctx).global_state == old(ctx).global_state
                &&& final(ctx).global_state_key == old(ctx).global_state_key
                &&& final(ctx).escrow_account == old(ctx).escrow_account
                &&& final(ctx).creator_token_account == old(ctx).creator_token_account
            },
            Err(e) => claim_remaining_error(*old(ctx), now) == Some(e) && *final(ctx) == *old(ctx),
        },
{
    if ctx.global_state.paused {
        return Err(CustomError::ContractPaused);
    }
    if !ctx.claimer.same_as(&ctx.quest.creator) && !ctx.claimer.same_as(&ctx.global_state.owner) {
        return Err(CustomError::UnauthorizedWithdrawal);
    }
    if ctx.quest.is_active {
        return Err(CustomError::QuestNotActive);
    }
    if ctx.quest.deadline > i64::MAX - WITHDRAWAL_DELAY_SECONDS || now < ctx.quest.deadline
        + WITHDRAWAL_DELAY_SECONDS {
        return Err(CustomError::WithdrawalTooEarly);
    }
    if ctx.quest.amount <= ctx.quest.total_reward_distributed {
        return Err(CustomError::NoTokensToWithdraw);
    }
    if !is_global_state_address(&ctx.program_id, &ctx.global_state_key) {
        return Err(CustomError::AddressDerivationMismatch);
    }
    if !check_quest_escrow(&ctx.quest, &ctx.escrow_account, &ctx.global_state_key)
        || !check_account_of(
        &ctx.creator_token_account,
        &ctx.quest.token_mint,
        &ctx.quest.creator,
    ) {
        return Err(CustomError::InvalidTokenAccount);
    }
    let remaining = ctx.quest.amount - ctx.quest.total_reward_distributed;
    if ctx.escrow_account.amount < remaining {
        return Err(CustomError::InsufficientBalance);
    }
    ctx.quest.amount = ctx.quest.total_reward_distributed;
    let mut actions: Vec<TokenAction> = Vec::new();
    actions.push(
        TokenAction::Transfer {
            from: ctx.escrow_account.key,
            to: ctx.creator_token_account.key,
            authority: ctx.global_state_key,
            amount: remaining,
        },
    );
    if ctx.escrow_account.amount == remaining {
        actions.push(
            TokenAction::CloseAccount {
                account: ctx.escrow_account.key,
                destination: ctx.quest.creator,
                authority: ctx.global_state_key,
            },
        );
    }
    Ok(actions)
}

} // verus!
