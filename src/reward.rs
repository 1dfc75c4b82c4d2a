use vstd::prelude::*;

use crate::batch::{check_receipt_of, credited, is_new_winner, is_receipt_of, prior_amount};
use crate::derive::{global_state_seeds, is_derived, is_global_state_address};
use crate::error::CustomError;
use crate::key::Pubkey;
use crate::quest::{check_account_of, check_quest_escrow, is_account_of, is_quest_escrow};
use crate::state::{AccountClosure, GlobalState, Quest, RewardClaimed, TokenAccount, TokenAction};

verus! {

/// The raw contents of an account passed alongside an instruction.
#[derive(Clone, Debug)]
pub struct AccountData {
    pub key: Pubkey,
    pub data: Vec<u8>,
}

/// Accounts of `send_reward`: the quest's escrow, the main winner's token account
/// and receipt, and one token account per referrer.
pub struct SendReward {
    pub program_id: Pubkey,
    pub owner: Pubkey,
    pub global_state: GlobalState,
    pub global_state_key: Pubkey,
    pub quest: Quest,
    pub quest_key: Pubkey,
    pub escrow_account: TokenAccount,
    pub winner: Pubkey,
    pub winner_token_account: TokenAccount,
    pub reward_claimed_key: Pubkey,
    pub reward_claimed: Option<RewardClaimed>,
    pub remaining_accounts: Vec<AccountData>,
}

/// Accounts of `get_reward_claimed_info`.
pub struct GetRewardClaimedInfo {
    pub reward_claimed: RewardClaimed,
}

/// Accounts of `close_reward_claimed`.
pub struct CloseRewardClaimed {
    pub program_id: Pubkey,
    pub closer: Pubkey,
    pub global_state: GlobalState,
    pub reward_claimed_key: Pubkey,
    pub reward_claimed: RewardClaimed,
    /// Receives the closed receipt's storage deposit.
    pub recipient: Pubkey,
}

/// Sum of a sequence of amounts.
pub open spec fn amounts_total(s: Seq<u64>) -> int
    decreases s.len(),
{
    if s.len() == 0 {
        0
    } else {
        amounts_total(s.drop_last()) + s.last()
    }
}

/// Whether `data` is a token account of kind `mint` held by `owner`: at least 72
/// bytes, the mint in bytes 0..32 and the owner in bytes 32..64.
pub open spec fn is_token_account_data(data: Seq<u8>, mint: Pubkey, owner: Pubkey) -> bool {
    &&& data.len() >= 72
    &&& data.subrange(0, 32) == mint@
    &&& data.subrange(32, 64) == owner@
}

/// Whether bytes `offset..offset + 32` of `data` hold `k`.
fn key_at(data: &Vec<u8>, offset: usize, k: &Pubkey) -> (r: bool)
    requires
        offset + 32 <= data@.len(),
    ensures
        r == (data@.subrange(offset as int, offset + 32) == k@),
{
    let len = data.len();
    let mut i: usize = 0;
    while i < 32
        invariant
            len == data@.len(),
            offset + 32 <= data@.len(),
            i <= 32,
            forall|j: int| 0 <= j < i ==> data@[offset + j] == k.bytes[j],
        decreases 32 - i,
    {
        if data[offset + i] != k.bytes[i] {
            assert(data@.subrange(offset as int, offset + 32)[i as int] != k@[i as int]);
            return false;
        }
        i = i + 1;
    }
    assert(data@.subrange(offset as int, offset + 32) =~= k@);
    true
}

/// Reads a token account's mint and owner from its raw data and compares them.
pub fn check_token_account_data(data: &Vec<u8>, mint: &Pubkey, owner: &Pubkey) -> (r: bool)
    ensures
        r == is_token_account_data(data@, *mint, *owner),
{
    if data.len() < 72 {
        return false;
    }
    key_at(data, 0, mint) && key_at(data, 32, owner)
}

/// Whether referrer `i`'s account may receive its amount (a zero amount is skipped).
pub open spec fn referrer_ok(
    ctx: SendReward,
    winners: Seq<Pubkey>,
    amounts: Seq<u64>,
    i: int,
) -> bool {
    amounts[i] > 0 ==> is_token_account_data(
        ctx.remaining_accounts@[i].data@,
        ctx.quest.token_mint,
        winners[i],
    )
}

/// Why `send_reward` rejects its arguments, if it does.
pub open spec fn send_reward_error(
    ctx: SendReward,
    main_winner_amount: u64,
    winners: Seq<Pubkey>,
    amounts: Seq<u64>,
    skip_claimed_check: bool,
    now: i64,
) -> Option<CustomError> {
    let total = main_winner_amount + amounts_total(amounts);
    if ctx.global_state.paused {
        Some(CustomError::ContractPaused)
    } else if ctx.owner != ctx.global_state.owner {
        Some(CustomError::UnauthorizedRewardAction)
    } else if !is_derived(global_state_seeds(), ctx.program_id, ctx.global_state_key) {
        Some(CustomError::AddressDerivationMismatch)
    } else if !is_quest_escrow(ctx.quest, ctx.escrow_account, ctx.global_state_key) {
        Some(CustomError::InvalidTokenAccount)
    } else if !is_receipt_of(
        ctx.program_id,
        ctx.quest_key,
        ctx.winner,
        ctx.reward_claimed_key,
        ctx.reward_claimed,
    ) {
        Some(CustomError::AddressDerivationMismatch)
    } else if winners.len() != amounts.len() {
        Some(CustomError::InvalidReferrerData)
    } else if total > u64::MAX {
        Some(CustomError::InvalidRewardAmount)
    } else if !ctx.quest.is_active {
        Some(CustomError::QuestNotActive)
    } else if now > ctx.quest.deadline {
        Some(CustomError::InvalidDeadline)
    } else if ctx.quest.total_reward_distributed + total > ctx.quest.amount {
        Some(CustomError::InsufficientRewardBalance)
    } else if ctx.quest.total_winners >= ctx.quest.max_winners {
        Some(CustomError::MaxWinnersReached)
    } else if !is_account_of(ctx.winner_token_account, ctx.quest.token_mint, ctx.winner) {
        Some(CustomError::MissingAssociatedTokenAccount)
    } else if ctx.remaining_accounts@.len() != winners.len() {
        Some(CustomError::InvalidReferrerAccounts)
    } else if !skip_claimed_check && !is_new_winner(ctx.reward_claimed) {
        Some(CustomError::AlreadyRewarded)
    } else if prior_amount(ctx.reward_claimed) + main_winner_amount > u64::MAX {
        Some(CustomError::InvalidRewardAmount)
    } else if ctx.escrow_account.amount < total {
        Some(CustomError::InsufficientBalance)
    } else if exists|i: int| 0 <= i < winners.len() && !#[trigger] referrer_ok(ctx, winners, amounts, i) {
        Some(CustomError::MissingAssociatedTokenAccount)
    } else {
        None
    }
}

/// Transfers to the first `n` referrers: one for each nonzero amount.
pub open spec fn referrer_transfers(ctx: SendReward, amounts: Seq<u64>, n: int) -> Seq<TokenAction>
    decreases n,
{
    if n <= 0 {
        Seq::empty()
    } else {
        let prev = referrer_transfers(ctx, amounts, n - 1);
        if amounts[n - 1] > 0 {
            prev.push(
                TokenAction::Transfer {
                    from: ctx.escrow_account.key,
                    to: ctx.remaining_accounts@[n - 1].key,
                    authority: ctx.global_state_key,
                    amount: amounts[n - 1],
                },
            )
        } else {
            prev
        }
    }
}

/// All transfers of `send_reward`: the main winner's (where nonzero), then the referrers'.
pub open spec fn reward_transfers(
    ctx: SendReward,
    main_winner_amount: u64,
    amounts: Seq<u64>,
) -> Seq<TokenAction> {
    let main = if main_winner_amount > 0 {
        seq![
            TokenAction::Transfer {
                from: ctx.escrow_account.key,
                to: ctx.winner_token_account.key,
                authority: ctx.global_state_key,
                amount: main_winner_amount,
            },
        ]
    } else {
        Seq::empty()
    };
    main + referrer_transfers(ctx, amounts, amounts.len() as int)
}

proof fn lemma_amounts_total_prefix(s: Seq<u64>, i: int)
    requires
        0 <= i <= s.len(),
    ensures
        0 <= amounts_total(s.take(i)) <= amounts_total(s),
    decreases s.len() - i,
{
    if i < s.len() {
        lemma_amounts_total_prefix(s, i + 1);
        assert(s.take(i + 1).drop_last() =~= s.take(i));
        lemma_amounts_total_nonneg(s.take(i));
    } else {
        assert(s.take(i) =~= s);
        lemma_amounts_total_nonneg(s);
    }
}

proof fn lemma_amounts_total_nonneg(s: Seq<u64>)
    ensures
        0 <= amounts_total(s),
    decreases s.len(),
{
    if s.len() > 0 {
        lemma_amounts_total_nonneg(s.drop_last());
    }
}

/// Sum of `amounts`, or `None` where it does not fit in 64 bits.
fn checked_total(amounts: &Vec<u64>) -> (r: Option<u64>)
    ensures
        match r {
            Some(t) => t == amounts_total(amounts@),
            None => amounts_total(amounts@) > u64::MAX,
        },
{
    let mut acc: u64 = 0;
    let mut i: usize = 0;
    while i < amounts.len()
        invariant
            i <= amounts@.len(),
            acc == amounts_total(amounts@.take(i as int)),
        decreases amounts@.len() - i,
    {
        assert(amounts@.take(i + 1).drop_last() =~= amounts@.take(i as int));
        if acc > u64::MAX - amounts[i] {
            proof {
                lemma_amounts_total_prefix(amounts@, i + 1);
            }
            return None;
        }
        acc = acc + amounts[i];
        i = i + 1;
    }
    assert(amounts@.take(i as int) =~= amounts@);
    Some(acc)
}

/// Pays the main winner and any referrers out of the quest's escrow, and records
/// the main winner's payment on its claim receipt. Returns the transfers to carry out.
pub fn send_reward(
    ctx: &mut SendReward,
    main_winner_amount: u64,
    referrer_winners: Vec<Pubkey>,
    referrer_amounts: Vec<u64>,
    skip_claimed_check: bool,
    now: i64,
) -> (r: Result<Vec<TokenAction>, CustomError>)
    ensures
        match r {
            Ok(actions) => {
                let total = main_winner_amount + amounts_total(referrer_amounts@);
                &&& send_reward_error(
                    *old(ctx),
                    main_winner_amount,
                    referrer_winners@,
                    referrer_amounts@,
                    skip_claimed_check,
                    now,
                ) is None
                &&& final(ctx).quest == (Quest {
                    total_reward_distributed: (old(ctx).quest.total_reward_distributed + total) as u64,
                    total_winners: if is_new_winner(old(ctx).reward_claimed) {
                        (old(ctx).quest.total_winners + 1) as u32
                    } else {
                        old(ctx).quest.total_winners
                    },
                    ..old(ctx).quest
                })
                &&& final(ctx).quest.wf()
                &&& final(ctx).reward_claimed == Some(
                    credited(
                        old(ctx).reward_claimed,
                        old(ctx).quest_key,
                        old(ctx).winner,
                        main_winner_amount as int,
                    ),
                )
                &&& actions@ == reward_transfers(*old(ctx), main_winner_amount, referrer_amounts@)
                &&& final(ctx).program_id == old(ctx).program_id
                &&& final(ctx).owner == old(ctx).owner
                &&& final(ctx).global_state == old(ctx).global_state
                &&& final(ctx).global_state_key == old(ctx).global_state_key
                &&& final(ctx).quest_key == old(ctx).quest_key
                &&& final(ctx).escrow_account == old(ctx).escrow_account
                &&& final(ctx).winner == old(ctx).winner
                &&& final(ctx).winner_token_account == old(ctx).winner_token_account
                &&& final(ctx).reward_claimed_key == old(ctx).reward_claimed_key
                &&& final(ctx).remaining_accounts == old(ctx).remaining_accounts
            },
            Err(e) => {
                &&& send_reward_error(
                    *old(ctx),
                    main_winner_amount,
                    referrer_winners@,
                    referrer_amounts@,
                    skip_claimed_check,
                    now,
                ) == Some(e)
                &&& *final(ctx) == *old(ctx)
            },
        },
{
    if ctx.global_state.paused {
        return Err(CustomError::ContractPaused);
    }
    if !ctx.owner.same_as(&ctx.global_state.owner) {
        return Err(CustomError::UnauthorizedRewardAction);
    }
    if !is_global_state_address(&ctx.program_id, &ctx.global_state_key) {
        return Err(CustomError::AddressDerivationMismatch);
    }
    if !check_quest_escrow(&ctx.quest, &ctx.escrow_account, &ctx.global_state_key) {
        return Err(CustomError::InvalidTokenAccount);
    }
    if !check_receipt_of(
        &ctx.program_id,
        &ctx.quest_key,
        &ctx.winner,
        &ctx.reward_claimed_key,
        &ctx.reward_claimed,
    ) {
        return Err(CustomError::AddressDerivationMismatch);
    }
    if referrer_winners.len() != referrer_amounts.len() {
        return Err(CustomError::InvalidReferrerData);
    }
    let referrer_total = match checked_total(&referrer_amounts) {
        Some(t) => t,
        None => {
            return Err(CustomError::InvalidRewardAmount);
        },
    };
    if main_winner_amount > u64::MAX - referrer_total {
        return Err(CustomError::InvalidRewardAmount);
    }
    let total = main_winner_amount + referrer_total;
    if !ctx.quest.is_active {
        return Err(CustomError::QuestNotActive);
    }
    if now > ctx.quest.deadline {
        return Err(CustomError::InvalidDeadline);
    }
    if ctx.quest.total_reward_distributed > ctx.quest.amount || total > ctx.quest.amount
        - ctx.quest.total_reward_distributed {
        return Err(CustomError::InsufficientRewardBalance);
    }
    if ctx.quest.total_winners >= ctx.quest.max_winners {
        return Err(CustomError::MaxWinnersReached);
    }
    if !check_account_of(&ctx.winner_token_account, &ctx.quest.token_mint, &ctx.winner) {
        return Err(CustomError::MissingAssociatedTokenAccount);
    }
    if ctx.remaining_accounts.len() != referrer_winners.len() {
        return Err(CustomError::InvalidReferrerAccounts);
    }
    let (prior, claimed) = match ctx.reward_claimed {
        Some(rc) => (rc.reward_amount, rc.claimed),
        None => (0u64, false),
    };
    if !skip_claimed_check && claimed {
        return Err(CustomError::AlreadyRewarded);
    }
    if prior > u64::MAX - main_winner_amount {
        return Err(CustomError::InvalidRewardAmount);
    }
    if ctx.escrow_account.amount < total {
        return Err(CustomError::InsufficientBalance);
    }
    let n = referrer_amounts.len();
    let mut actions: Vec<TokenAction> = Vec::new();
    if main_winner_amount > 0 {
        actions.push(
            TokenAction::Transfer {
                from: ctx.escrow_account.key,
                to: ctx.winner_token_account.key,
                authority: ctx.global_state_key,
                amount: main_winner_amount,
            },
        );
    }
    let ghost main_actions = actions@;
    let mut i: usize = 0;
    #[verifier::loop_isolation(false)]
    while i < n
        invariant
            n == referrer_amounts@.len() == referrer_winners@.len() == ctx.remaining_accounts@.len(),
            i <= n,
            forall|k: int| 0 <= k < i ==> #[trigger] referrer_ok(*ctx, referrer_winners@, referrer_amounts@, k),
            actions@ == main_actions + referrer_transfers(*ctx, referrer_amounts@, i as int),
        decreases n - i,
    {
        if referrer_amounts[i] > 0 {
            if !check_token_account_data(
                &ctx.remaining_accounts[i].data,
                &ctx.quest.token_mint,
                &referrer_winners[i],
            ) {
                assert(!referrer_ok(*ctx, referrer_winners@, referrer_amounts@, i as int));
                return Err(CustomError::MissingAssociatedTokenAccount);
            }
            actions.push(
                TokenAction::Transfer {
                    from: ctx.escrow_account.key,
                    to: ctx.remaining_accounts[i].key,
                    authority: ctx.global_state_key,
                    amount: referrer_amounts[i],
                },
            );
        }
        i = i + 1;
        assert(actions@ =~= main_actions + referrer_transfers(*ctx, referrer_amounts@, i as int));
    }
    ctx.quest.total_reward_distributed = ctx.quest.total_reward_distributed + total;
    if !claimed {
        ctx.quest.total_winners = ctx.quest.total_winners + 1;
    }
    ctx.reward_claimed = Some(
        RewardClaimed {
            quest: ctx.quest_key,
            winner: ctx.winner,
            reward_amount: prior + main_winner_amount,
            claimed: true,
        },
    );
    Ok(actions)
}

/// Returns the claim receipt as it stands.
pub fn get_reward_claimed_info(ctx: &GetRewardClaimedInfo) -> (r: Result<RewardClaimed, CustomError>)
    ensures
        r == Ok::<RewardClaimed, CustomError>(ctx.reward_claimed),
{
    Ok(ctx.reward_claimed)
}

/// Why `close_reward_claimed` rejects `ctx`, if it does.
pub open spec fn close_reward_claimed_error(ctx: CloseRewardClaimed) -> Option<CustomError> {
    if !ctx.reward_claimed.claimed {
        Some(CustomError::RewardNotClaimed)
    } else if ctx.closer != ctx.global_state.owner && ctx.closer != ctx.reward_claimed.winner {
        Some(CustomError::UnauthorizedClosure)
    } else if !is_derived(
        crate::derive::reward_claimed_seeds(ctx.reward_claimed.quest@, ctx.reward_claimed.winner@),
        ctx.program_id,
        ctx.reward_claimed_key,
    ) {
        Some(CustomError::AddressDerivationMismatch)
    } else {
        None
    }
}

/// Closes a claimed receipt at the request of the registry owner or the receipt's
/// recipient; its storage deposit goes to `ctx.recipient`. Quest totals are untouched.
pub fn close_reward_claimed(ctx: &CloseRewardClaimed) -> (r: Result<AccountClosure, CustomError>)
    ensures
        match r {
            Ok(closure) => {
                &&& close_reward_claimed_error(*ctx) is None
                &&& closure == (AccountClosure {
                    account: ctx.reward_claimed_key,
                    destination: ctx.recipient,
                })
            },
            Err(e) => close_reward_claimed_error(*ctx) == Some(e),
        },
{
    if !ctx.reward_claimed.claimed {
        return Err(CustomError::RewardNotClaimed);
    }
    if !ctx.closer.same_as(&ctx.global_state.owner) && !ctx.closer.same_as(&ctx.reward_claimed.winner) {
        return Err(CustomError::UnauthorizedClosure);
    }
    if !crate::derive::is_reward_claimed_address(
        &ctx.program_id,
        &ctx.reward_claimed.quest,
        &ctx.reward_claimed.winner,
        &ctx.reward_claimed_key,
    ) {
        return Err(CustomError::AddressDerivationMismatch);
    }
    Ok(AccountClosure { account: ctx.reward_claimed_key, destination: ctx.recipient })
}

} // verus!
