use vstd::prelude::*;

use crate::batch::{
    credited, first_index, is_new_winner, is_receipt_of, new_winners, paid_recipient,
    prior_amount, recipients_of, RecipientAccounts, RecipientShare, SendRewardBatch,
};
use crate::derive::{global_state_seeds, is_derived};
use crate::error::CustomError;
use crate::key::Pubkey;
use crate::quest::{claim_remaining_error, is_account_of, is_quest_escrow, swept, ClaimRemainingReward};
use crate::reward::amounts_total;
use crate::state::{Quest, RewardClaimed, WITHDRAWAL_DELAY_SECONDS};

verus! {

/// A recipient has one claim receipt per quest: every address that passes as the
/// receipt of `winner` for `quest` is the same address.
pub proof fn lemma_one_receipt_per_recipient(
    program_id: Pubkey,
    quest: Pubkey,
    winner: Pubkey,
    key1: Pubkey,
    receipt1: Option<RewardClaimed>,
    key2: Pubkey,
    receipt2: Option<RewardClaimed>,
)
    requires
        is_receipt_of(program_id, quest, winner, key1, receipt1),
        is_receipt_of(program_id, quest, winner, key2, receipt2),
    ensures
        key1 == key2,
{
    broadcast use vstd::array::group_array_axioms, vstd::array::lemma_array_index;

    assert(key1@ == key2@);
    assert(key1.bytes =~= key2.bytes);
}

/// Paying the same recipient of a quest twice accumulates both amounts into its one
/// receipt, and counts the recipient as a new winner at most once.
pub proof fn lemma_repeat_payment_accumulates(
    receipt: Option<RewardClaimed>,
    quest: Pubkey,
    winner: Pubkey,
    first: int,
    second: int,
)
    requires
        0 <= first,
        0 <= second,
        prior_amount(receipt) + first + second <= u64::MAX,
    ensures
        ({
            let after_first = credited(receipt, quest, winner, first);
            let after_second = credited(Some(after_first), quest, winner, second);
            &&& after_second.reward_amount == prior_amount(receipt) + first + second
            &&& after_second.quest == quest
            &&& after_second.winner == winner
            &&& after_second.claimed
            &&& !is_new_winner(Some(after_first))
            &&& !is_new_winner(Some(after_second))
        }),
{
}

proof fn lemma_no_new_winners(recipients: Seq<RecipientAccounts>, wallets: Seq<Pubkey>, n: int)
    requires
        0 <= n <= recipients.len(),
        forall|i: int| 0 <= i < n ==> !is_new_winner(#[trigger] recipients[i].reward_claimed),
    ensures
        new_winners(recipients, wallets, n) == 0,
    decreases n,
{
    if n > 0 {
        lemma_no_new_winners(recipients, wallets, n - 1);
        assert(!is_new_winner(recipients[n - 1].reward_claimed));
    }
}

proof fn lemma_new_winners_bounded(recipients: Seq<RecipientAccounts>, wallets: Seq<Pubkey>, n: int)
    requires
        0 <= n,
    ensures
        0 <= new_winners(recipients, wallets, n) <= n,
    decreases n,
{
    if n > 0 {
        lemma_new_winners_bounded(recipients, wallets, n - 1);
    }
}

/// Within a batch a recipient is counted at one entry only: two entries that both count
/// and name the same recipient are the same entry.
pub proof fn lemma_each_recipient_counted_once(wallets: Seq<Pubkey>, i: int, j: int)
    requires
        0 <= i < wallets.len(),
        0 <= j < wallets.len(),
        first_index(wallets, i) == i,
        first_index(wallets, j) == j,
        wallets[i] == wallets[j],
    ensures
        i == j,
{
}

/// A batch counts at most one new winner per entry, and once a batch has paid its
/// recipients, paying them again through the same receipts adds no winners.
pub proof fn lemma_batch_counts_each_winner_once(
    ctx: SendRewardBatch,
    shares: Seq<RecipientShare>,
    amounts: Seq<int>,
)
    requires
        ctx.recipients@.len() == shares.len(),
    ensures
        0 <= new_winners(ctx.recipients@, recipients_of(shares), shares.len() as int) <= shares.len(),
        new_winners(
            Seq::new(shares.len(), |i: int| paid_recipient(ctx, shares, amounts, i)),
            recipients_of(shares),
            shares.len() as int,
        ) == 0,
{
    lemma_new_winners_bounded(ctx.recipients@, recipients_of(shares), shares.len() as int);
    let paid = Seq::new(shares.len(), |i: int| paid_recipient(ctx, shares, amounts, i));
    lemma_no_new_winners(paid, recipients_of(shares), shares.len() as int);
}

/// After a successful sweep, sweeping the same quest again, by the same caller under the
/// same registry at the same or a later time, fails with no funds to withdraw.
pub proof fn lemma_sweep_only_once(
    ctx: ClaimRemainingReward,
    now: i64,
    again: ClaimRemainingReward,
    later: i64,
)
    requires
        claim_remaining_error(ctx, now) is None,
        again.quest == swept(ctx.quest),
        again.global_state == ctx.global_state,
        again.claimer == ctx.claimer,
        now <= later,
    ensures
        claim_remaining_error(again, later) == Some(CustomError::NoTokensToWithdraw),
{
}

/// A sweep before a week has passed since the deadline fails as too early; at exactly
/// one week after the deadline it succeeds, given funds remain and the accounts match.
pub proof fn lemma_withdrawal_time_gate(ctx: ClaimRemainingReward, now: i64)
    requires
        !ctx.global_state.paused,
        ctx.claimer == ctx.quest.creator || ctx.claimer == ctx.global_state.owner,
        !ctx.quest.is_active,
    ensures
        now < ctx.quest.deadline + WITHDRAWAL_DELAY_SECONDS ==> claim_remaining_error(ctx, now)
            == Some(CustomError::WithdrawalTooEarly),
        (now == ctx.quest.deadline + WITHDRAWAL_DELAY_SECONDS && ctx.quest.remaining() > 0
            && is_derived(global_state_seeds(), ctx.program_id, ctx.global_state_key)
            && is_quest_escrow(ctx.quest, ctx.escrow_account, ctx.global_state_key)
            && is_account_of(ctx.creator_token_account, ctx.quest.token_mint, ctx.quest.creator)
            && ctx.escrow_account.amount >= ctx.quest.remaining()) ==> claim_remaining_error(
            ctx,
            now,
        ) is None,
{
}

/// The quest after the payouts `xs` were booked on it one after another, as a batch,
/// a single-winner payout or a settlement books its total.
pub open spec fn after_payouts(quest: Quest, xs: Seq<u64>) -> Quest
    decreases xs.len(),
{
    if xs.len() == 0 {
        quest
    } else {
        let before = after_payouts(quest, xs.drop_last());
        Quest {
            total_reward_distributed: (before.total_reward_distributed + xs.last()) as u64,
            ..before
        }
    }
}

/// Whether each payout of `xs` passed the budget check when it was booked.
pub open spec fn payouts_accepted(quest: Quest, xs: Seq<u64>) -> bool
    decreases xs.len(),
{
    if xs.len() == 0 {
        true
    } else {
        let before = after_payouts(quest, xs.drop_last());
        payouts_accepted(quest, xs.drop_last()) && before.total_reward_distributed + xs.last()
            <= before.amount
    }
}

/// However many payouts are booked on a quest, each accepted only within the remaining
/// budget, the quest never pays out more than it holds: its total is the sum of them.
pub proof fn lemma_payouts_stay_within_budget(quest: Quest, xs: Seq<u64>)
    requires
        quest.wf(),
        payouts_accepted(quest, xs),
    ensures
        after_payouts(quest, xs).wf(),
        after_payouts(quest, xs).amount == quest.amount,
        after_payouts(quest, xs).total_reward_distributed == quest.total_reward_distributed
            + amounts_total(xs),
    decreases xs.len(),
{
    if xs.len() > 0 {
        lemma_payouts_stay_within_budget(quest, xs.drop_last());
    }
}

} // verus!
