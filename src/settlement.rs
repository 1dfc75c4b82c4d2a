use vstd::prelude::*;

use crate::derive::{global_state_seeds, is_derived, is_global_state_address};
use crate::error::CustomError;
use crate::key::Pubkey;
use crate::quest::{check_quest_escrow, is_quest_escrow};
use crate::state::{GlobalState, Quest, TokenAccount, TokenAction};

verus! {

/// Record of one bulk payout handed to an external distributor.
#[derive(Clone, Copy, Debug)]
pub struct SettlementBatch {
    pub quest: Pubkey,
    pub batch_id: u64,
    pub funded_amount: u64,
    pub distributed_amount: u64,
    pub winners_count: u32,
    pub settled: bool,
}

/// Accounts of `fund_external_settlement`.
pub struct FundExternalSettlement {
    pub program_id: Pubkey,
    pub owner: Pubkey,
    pub global_state: GlobalState,
    pub global_state_key: Pubkey,
    pub quest: Quest,
    pub quest_key: Pubkey,
    pub escrow_account: TokenAccount,
    pub distributor_account: TokenAccount,
    pub settlement: SettlementBatch,
}

/// Accounts of `settle_external`.
pub struct SettleExternal {
    pub owner: Pubkey,
    pub global_state: GlobalState,
    pub quest: Quest,
    pub quest_key: Pubkey,
    pub settlement: SettlementBatch,
}

/// Why `fund_external_settlement` rejects its arguments, if it does.
pub open spec fn fund_error(ctx: FundExternalSettlement, amount: u64) -> Option<CustomError> {
    if ctx.global_state.paused {
        Some(CustomError::ContractPaused)
    } else if ctx.owner != ctx.global_state.owner {
        Some(CustomError::UnauthorizedRewardAction)
    } else if !is_derived(global_state_seeds(), ctx.program_id, ctx.global_state_key) {
        Some(CustomError::AddressDerivationMismatch)
    } else if !is_quest_escrow(ctx.quest, ctx.escrow_account, ctx.global_state_key)
        || ctx.distributor_account.mint != ctx.quest.token_mint {
        Some(CustomError::InvalidTokenAccount)
    } else if !ctx.quest.is_active {
        Some(CustomError::QuestNotActive)
    } else if amount == 0 {
        Some(CustomError::InvalidAmount)
    } else if ctx.quest.total_reward_distributed + amount > ctx.quest.amount {
        Some(CustomError::InsufficientRewardBalance)
    } else if ctx.escrow_account.amount < amount {
        Some(CustomError::InsufficientBalance)
    } else {
        None
    }
}

/// Moves `amount` from the quest's escrow to an external distributor and records it
/// under `batch_id`. The quest's totals change only when the batch is settled.
pub fn fund_external_settlement(
    ctx: &mut FundExternalSettlement,
    amount: u64,
    batch_id: u64,
) -> (r: Result<TokenAction, CustomError>)
    ensures
        match r {
            Ok(action) => {
                &&& fund_error(*old(ctx), amount) is None
                &&& final(ctx).settlement == (SettlementBatch {
                    quest: old(ctx).quest_key,
                    batch_id,
                    funded_amount: amount,
                    distributed_amount: 0,
                    winners_count: 0,
                    settled: false,
                })
                &&& action == (TokenAction::Transfer {
                    from: old(ctx).escrow_account.key,
                    to: old(ctx).distributor_account.key,
                    authority: old(ctx).global_state_key,
                    amount,
                })
                &&& final(ctx).quest == old(ctx).quest
                &&& old(ctx).quest.wf() ==> final(ctx).quest.wf()
                &&& final(ctx).program_id == old(ctx).program_id
                &&& final(ctx).owner == old(ctx).owner
                &&& final(ctx).global_state == old(ctx).global_state
                &&& final(ctx).global_state_key == old(ctx).global_state_key
                &&& final(ctx).quest_key == old(ctx).quest_key
                &&& final(ctx).escrow_account == old(ctx).escrow_account
                &&& final(ctx).distributor_account == old(ctx).distributor_account
            },
            Err(e) => fund_error(*old(ctx), amount) == Some(e) && *final(ctx) == *old(ctx),
        },
{
    if ctx.global_state.paused {
        return Err(CustomError::ContractPaused);
    }
    if !ctx.owner.same_as(&ctx.global_state.owner) {
        return Err(CustomError::UnauthorizedRewardAction);
    }
    if !is_global_state_address(&ctx.program_id, &ctx.global_state_key) {
        return Err(CustomError::AddressDerivationMismatch);
    }
    if !check_quest_escrow(&ctx.quest, &ctx.escrow_account, &ctx.global_state_key)
        || !ctx.distributor_account.mint.same_as(&ctx.quest.token_mint) {
        return Err(CustomError::InvalidTokenAccount);
    }
    if !ctx.quest.is_active {
        return Err(CustomError::QuestNotActive);
    }
    if amount == 0 {
        return Err(CustomError::InvalidAmount);
    }
    if ctx.quest.total_reward_distributed > ctx.quest.amount || amount > ctx.quest.amount
        - ctx.quest.total_reward_distributed {
        return Err(CustomError::InsufficientRewardBalance);
    }
    if ctx.escrow_account.amount < amount {
        return Err(CustomError::InsufficientBalance);
    }
    ctx.settlement = SettlementBatch {
        quest: ctx.quest_key,
        batch_id,
        funded_amount: amount,
        distributed_amount: 0,
        winners_count: 0,
        settled: false,
    };
    Ok(
        TokenAction::Transfer {
            from: ctx.escrow_account.key,
            to: ctx.distributor_account.key,
            authority: ctx.global_state_key,
            amount,
        },
    )
}

/// Why `settle_external` rejects its arguments, if it does.
pub open spec fn settle_error(
    ctx: SettleExternal,
    distributed: u64,
    winners_count: u32,
    batch_id: u64,
) -> Option<CustomError> {
    if ctx.global_state.paused {
        Some(CustomError::ContractPaused)
    } else if ctx.owner != ctx.global_state.owner {
        Some(CustomError::UnauthorizedRewardAction)
    } else if ctx.settlement.quest != ctx.quest_key || ctx.settlement.batch_id != batch_id {
        Some(CustomError::SettlementMismatch)
    } else if ctx.settlement.settled {
        Some(CustomError::AlreadySettled)
    } else if distributed > ctx.settlement.funded_amount {
        Some(CustomError::InvalidRewardAmount)
    } else if ctx.quest.total_reward_distributed + distributed > ctx.quest.amount {
        Some(CustomError::InsufficientRewardBalance)
    } else if ctx.quest.total_winners + winners_count > u32::MAX {
        Some(CustomError::MaxWinnersReached)
    } else {
        None
    }
}

/// Books what an external distributor paid out of a funded batch: the quest's running
/// totals grow as for a direct payout, still within its budget.
pub fn settle_external(
    ctx: &mut SettleExternal,
    distributed: u64,
    winners_count: u32,
    batch_id: u64,
) -> (r: Result<(), CustomError>)
    ensures
        match r {
            Ok(()) => {
                &&& settle_error(*old(ctx), distributed, winners_count, batch_id) is None
                &&& final(ctx).quest == (Quest {
                    total_reward_distributed: (old(ctx).quest.total_reward_distributed
                        + distributed) as u64,
                    total_winners: (old(ctx).quest.total_winners + winners_count) as u32,
                    ..old(ctx).quest
                })
                &&& final(ctx).quest.wf()
                &&& final(ctx).settlement == (SettlementBatch {
                    distributed_amount: distributed,
                    winners_count,
                    settled: true,
                    ..old(ctx).settlement
                })
                &&& final(ctx).owner == old(ctx).owner
                &&& final(ctx).global_state == old(ctx).global_state
                &&& final(ctx).quest_key == old(ctx).quest_key
            },
            Err(e) => {
                &&& settle_error(*old(ctx), distributed, winners_count, batch_id) == Some(e)
                &&& *final(ctx) == *old(ctx)
            },
        },
{
    if ctx.global_state.paused {
        return Err(CustomError::ContractPaused);
    }
    if !ctx.owner.same_as(&ctx.global_state.owner) {
        return Err(CustomError::UnauthorizedRewardAction);
    }
    if !ctx.settlement.quest.same_as(&ctx.quest_key) || ctx.settlement.batch_id != batch_id {
        return Err(CustomError::SettlementMismatch);
    }
    if ctx.settlement.settled {
        return Err(CustomError::AlreadySettled);
    }
    if distributed > ctx.settlement.funded_amount {
        return Err(CustomError::InvalidRewardAmount);
    }
    if ctx.quest.total_reward_distributed > ctx.quest.amount || distributed > ctx.quest.amount
        - ctx.quest.total_reward_distributed {
        return Err(CustomError::InsufficientRewardBalance);
    }
    if winners_count > u32::MAX - ctx.quest.total_winners {
        return Err(CustomError::MaxWinnersReached);
    }
    ctx.quest.total_reward_distributed = ctx.quest.total_reward_distributed + distributed;
    ctx.quest.total_winners = ctx.quest.total_winners + winners_count;
    ctx.settlement.distributed_amount = distributed;
    ctx.settlement.winners_count = winners_count;
    ctx.settlement.settled = true;
    Ok(())
}

} // verus!
