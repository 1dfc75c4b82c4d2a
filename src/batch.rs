use vstd::prelude::*;

use crate::allocation::{allocation, allocation_error, compute_shares, lemma_allocation_sums_to_total, seq_total};
use crate::derive::{
    global_state_seeds, is_associated_address, is_associated_token_address, is_derived,
    is_global_state_address, is_reward_claimed_address, reward_claimed_seeds,
};
use crate::error::CustomError;
use crate::key::Pubkey;
use crate::quest::{is_quest_escrow, check_quest_escrow};
use crate::state::{GlobalState, Quest, RewardClaimed, TokenAccount, TokenAction};

verus! {

/// One entry of a batch: a recipient and its share in basis points.
#[derive(Clone, Copy, Debug)]
pub struct RecipientShare {
    pub recipient: Pubkey,
    pub bps: u16,
}

/// The accounts that go with one recipient of a batch.
#[derive(Clone, Copy, Debug)]
pub struct RecipientAccounts {
    /// Address of the recipient's receiving token account.
    pub receiving_address: Pubkey,
    /// What that account holds, or `None` where it does not exist yet.
    pub receiving_account: Option<TokenAccount>,
    /// Address of the recipient's claim receipt for the quest.
    pub reward_claimed_key: Pubkey,
    /// The claim receipt, or `None` where none was created yet.
    pub reward_claimed: Option<RewardClaimed>,
}

/// Accounts of `send_reward_batch`.
pub struct SendRewardBatch {
    pub program_id: Pubkey,
    pub owner: Pubkey,
    pub global_state: GlobalState,
    pub global_state_key: Pubkey,
    pub quest: Quest,
    pub quest_key: Pubkey,
    pub escrow_account: TokenAccount,
    pub recipients: Vec<RecipientAccounts>,
}

/// The basis points of a batch, in order.
pub open spec fn bps_of(shares: Seq<RecipientShare>) -> Seq<u16> {
    shares.map_values(|s: RecipientShare| s.bps)
}

/// The recipients of a batch, in order.
pub open spec fn recipients_of(shares: Seq<RecipientShare>) -> Seq<Pubkey> {
    shares.map_values(|s: RecipientShare| s.recipient)
}

/// What a receipt records as paid so far (nothing, where there is no receipt).
pub open spec fn prior_amount(receipt: Option<RewardClaimed>) -> int {
    match receipt {
        Some(r) => r.reward_amount as int,
        None => 0,
    }
}

/// Whether paying into this receipt makes its recipient a new winner of the quest.
pub open spec fn is_new_winner(receipt: Option<RewardClaimed>) -> bool {
    match receipt {
        Some(r) => !r.claimed,
        None => true,
    }
}

/// The receipt after `amount` more was paid to `winner` for `quest`.
pub open spec fn credited(
    receipt: Option<RewardClaimed>,
    quest: Pubkey,
    winner: Pubkey,
    amount: int,
) -> RewardClaimed {
    RewardClaimed {
        quest,
        winner,
        reward_amount: (prior_amount(receipt) + amount) as u64,
        claimed: true,
    }
}

/// Whether the receipt at `key` belongs to `winner` for `quest`.
pub open spec fn is_receipt_of(
    program_id: Pubkey,
    quest: Pubkey,
    winner: Pubkey,
    key: Pubkey,
    receipt: Option<RewardClaimed>,
) -> bool {
    &&& is_derived(reward_claimed_seeds(quest@, winner@), program_id, key)
    &&& match receipt {
        Some(r) => r.quest == quest && r.winner == winner,
        None => true,
    }
}

pub(crate) fn check_receipt_of(
    program_id: &Pubkey,
    quest: &Pubkey,
    winner: &Pubkey,
    key: &Pubkey,
    receipt: &Option<RewardClaimed>,
) -> (r: bool)
    ensures
        r == is_receipt_of(*program_id, *quest, *winner, *key, *receipt),
{
    if !is_reward_claimed_address(program_id, quest, winner, key) {
        return false;
    }
    match receipt {
        Some(rc) => rc.quest.same_as(quest) && rc.winner.same_as(winner),
        None => true,
    }
}

/// Whether the receiving account can take `wallet`'s payment in `mint`: it exists and
/// matches, or it may be created.
pub open spec fn can_receive(acc: RecipientAccounts, wallet: Pubkey, mint: Pubkey, create: bool) -> bool {
    match acc.receiving_account {
        Some(t) => t.key == acc.receiving_address && t.mint == mint && t.owner == wallet,
        None => create,
    }
}


/// Index `j` or later of the first entry of `wallets` equal to `w` (the length if none).
pub open spec fn first_match(wallets: Seq<Pubkey>, w: Pubkey, j: int) -> int
    decreases wallets.len() - j,
{
    if j < 0 || j >= wallets.len() {
        j
    } else if wallets[j] == w {
        j
    } else {
        first_match(wallets, w, j + 1)
    }
}

/// Index of the first entry of a batch that names the same recipient as entry `i`.
pub open spec fn first_index(wallets: Seq<Pubkey>, i: int) -> int {
    first_match(wallets, wallets[i], 0)
}

/// What the first `n` entries of a batch pay to `w`, added up.
pub open spec fn wallet_total(wallets: Seq<Pubkey>, amounts: Seq<int>, w: Pubkey, n: int) -> int
    decreases n,
{
    if n <= 0 {
        0
    } else {
        wallet_total(wallets, amounts, w, n - 1) + if wallets[n - 1] == w {
            amounts[n - 1]
        } else {
            0
        }
    }
}

/// What the receipt of entry `i`'s recipient holds after the batch: what it held
/// before, plus every share of the batch paid to that recipient.
pub open spec fn receipt_total(
    ctx: SendRewardBatch,
    shares: Seq<RecipientShare>,
    amounts: Seq<int>,
    i: int,
) -> int {
    let wallets = recipients_of(shares);
    prior_amount(ctx.recipients@[first_index(wallets, i)].reward_claimed) + wallet_total(
        wallets,
        amounts,
        wallets[i],
        shares.len() as int,
    )
}

/// Why entry `i` of a batch cannot be paid its share, if it cannot.
pub open spec fn recipient_error(
    ctx: SendRewardBatch,
    shares: Seq<RecipientShare>,
    amounts: Seq<int>,
    create: bool,
    i: int,
) -> Option<CustomError> {
    let acc = ctx.recipients@[i];
    let wallet = shares[i].recipient;
    if !is_associated_address(wallet, ctx.quest.token_mint, acc.receiving_address) {
        Some(CustomError::AddressDerivationMismatch)
    } else if !can_receive(acc, wallet, ctx.quest.token_mint, create) {
        Some(CustomError::MissingAssociatedTokenAccount)
    } else if !is_receipt_of(ctx.program_id, ctx.quest_key, wallet, acc.reward_claimed_key, acc.reward_claimed) {
        Some(CustomError::AddressDerivationMismatch)
    } else if receipt_total(ctx, shares, amounts, i) > u64::MAX {
        Some(CustomError::InvalidRewardAmount)
    } else {
        None
    }
}

/// The first error among the first `n` entries of a batch.
pub open spec fn first_recipient_error(
    ctx: SendRewardBatch,
    shares: Seq<RecipientShare>,
    amounts: Seq<int>,
    create: bool,
    n: int,
) -> Option<CustomError>
    decreases n,
{
    if n <= 0 {
        None
    } else {
        match first_recipient_error(ctx, shares, amounts, create, n - 1) {
            Some(e) => Some(e),
            None => recipient_error(ctx, shares, amounts, create, n - 1),
        }
    }
}

/// How many distinct recipients among the first `n` entries become winners of the
/// quest for the first time (each recipient is counted at its first entry only).
pub open spec fn new_winners(recipients: Seq<RecipientAccounts>, wallets: Seq<Pubkey>, n: int) -> int
    decreases n,
{
    if n <= 0 {
        0
    } else {
        new_winners(recipients, wallets, n - 1) + if first_index(wallets, n - 1) == n - 1
            && is_new_winner(recipients[n - 1].reward_claimed) {
            1int
        } else {
            0int
        }
    }
}

/// Why `send_reward_batch` rejects its arguments, if it does.
pub open spec fn batch_error(
    ctx: SendRewardBatch,
    total: u64,
    shares: Seq<RecipientShare>,
    create: bool,
    now: i64,
) -> Option<CustomError> {
    let amounts = allocation(total as int, bps_of(shares));
    if ctx.global_state.paused {
        Some(CustomError::ContractPaused)
    } else if ctx.owner != ctx.global_state.owner {
        Some(CustomError::UnauthorizedRewardAction)
    } else if !is_derived(global_state_seeds(), ctx.program_id, ctx.global_state_key) {
        Some(CustomError::AddressDerivationMismatch)
    } else if !is_quest_escrow(ctx.quest, ctx.escrow_account, ctx.global_state_key) {
        Some(CustomError::InvalidTokenAccount)
    } else if !ctx.quest.is_active {
        Some(CustomError::QuestNotActive)
    } else if now > ctx.quest.deadline {
        Some(CustomError::InvalidDeadline)
    } else if total == 0 {
        Some(CustomError::InvalidAmount)
    } else if ctx.quest.total_reward_distributed + total > ctx.quest.amount {
        Some(CustomError::InsufficientRewardBalance)
    } else if ctx.escrow_account.amount < total {
        Some(CustomError::InsufficientBalance)
    } else if allocation_error(total, bps_of(shares)) is Some {
        allocation_error(total, bps_of(shares))
    } else if ctx.recipients@.len() != shares.len() {
        Some(CustomError::InvalidReferrerAccounts)
    } else if first_recipient_error(ctx, shares, amounts, create, shares.len() as int) is Some {
        first_recipient_error(ctx, shares, amounts, create, shares.len() as int)
    } else if ctx.quest.total_winners + new_winners(
        ctx.recipients@,
        recipients_of(shares),
        shares.len() as int,
    ) > u32::MAX {
        Some(CustomError::MaxWinnersReached)
    } else {
        None
    }
}

/// The token actions for the first `n` entries of a batch: where a recipient's
/// receiving account is missing it is created at the recipient's first entry, and
/// each entry's share is paid into that account.
pub open spec fn batch_actions(
    ctx: SendRewardBatch,
    shares: Seq<RecipientShare>,
    amounts: Seq<int>,
    n: int,
) -> Seq<TokenAction>
    decreases n,
{
    if n <= 0 {
        Seq::empty()
    } else {
        let i = n - 1;
        let acc = ctx.recipients@[i];
        let create = if acc.receiving_account is None && first_index(recipients_of(shares), i)
            == i {
            seq![
                TokenAction::CreateReceivingAccount {
                    account: acc.receiving_address,
                    wallet: shares[i].recipient,
                    mint: ctx.quest.token_mint,
                    payer: ctx.owner,
                },
            ]
        } else {
            Seq::empty()
        };
        batch_actions(ctx, shares, amounts, i) + create + seq![
            TokenAction::Transfer {
                from: ctx.escrow_account.key,
                to: acc.receiving_address,
                authority: ctx.global_state_key,
                amount: amounts[i] as u64,
            },
        ]
    }
}

/// Entry `i`'s accounts after the batch: its recipient's receipt holds what it held
/// before plus all the recipient's shares of the batch.
pub open spec fn paid_recipient(
    ctx: SendRewardBatch,
    shares: Seq<RecipientShare>,
    amounts: Seq<int>,
    i: int,
) -> RecipientAccounts {
    let acc = ctx.recipients@[i];
    RecipientAccounts {
        reward_claimed: Some(
            RewardClaimed {
                quest: ctx.quest_key,
                winner: shares[i].recipient,
                reward_amount: receipt_total(ctx, shares, amounts, i) as u64,
                claimed: true,
            },
        ),
        ..acc
    }
}

fn bps_vec(shares: &Vec<RecipientShare>) -> (r: Vec<u16>)
    ensures
        r@ == bps_of(shares@),
{
    let mut r: Vec<u16> = Vec::new();
    let mut i: usize = 0;
    while i < shares.len()
        invariant
            i <= shares@.len(),
            r@ == bps_of(shares@.take(i as int)),
        decreases shares@.len() - i,
    {
        r.push(shares[i].bps);
        i = i + 1;
        assert(r@ =~= bps_of(shares@.take(i as int)));
    }
    assert(shares@.take(i as int) =~= shares@);
    r
}

fn recipients_vec(shares: &Vec<RecipientShare>) -> (r: Vec<Pubkey>)
    ensures
        r@ == recipients_of(shares@),
{
    let mut r: Vec<Pubkey> = Vec::new();
    let mut i: usize = 0;
    while i < shares.len()
        invariant
            i <= shares@.len(),
            r@ == recipients_of(shares@.take(i as int)),
        decreases shares@.len() - i,
    {
        r.push(shares[i].recipient);
        i = i + 1;
        assert(r@ =~= recipients_of(shares@.take(i as int)));
    }
    assert(shares@.take(i as int) =~= shares@);
    r
}

fn check_can_receive(acc: &RecipientAccounts, wallet: &Pubkey, mint: &Pubkey, create: bool) -> (r: bool)
    ensures
        r == can_receive(*acc, *wallet, *mint, create),
{
    match &acc.receiving_account {
        Some(t) => t.key.same_as(&acc.receiving_address) && t.mint.same_as(mint) && t.owner.same_as(wallet),
        None => create,
    }
}

proof fn lemma_first_error_prefix(
    ctx: SendRewardBatch,
    shares: Seq<RecipientShare>,
    amounts: Seq<int>,
    create: bool,
    n: int,
)
    requires
        0 <= n,
        first_recipient_error(ctx, shares, amounts, create, n) is None,
    ensures
        forall|i: int| 0 <= i < n ==> recipient_error(ctx, shares, amounts, create, i) is None,
    decreases n,
{
    if n > 0 {
        lemma_first_error_prefix(ctx, shares, amounts, create, n - 1);
    }
}

proof fn lemma_first_error_stable(
    ctx: SendRewardBatch,
    shares: Seq<RecipientShare>,
    amounts: Seq<int>,
    create: bool,
    k: int,
    m: int,
)
    requires
        0 <= k <= m,
        first_recipient_error(ctx, shares, amounts, create, k) is Some,
    ensures
        first_recipient_error(ctx, shares, amounts, create, m)
            == first_recipient_error(ctx, shares, amounts, create, k),
    decreases m - k,
{
    if k < m {
        lemma_first_error_stable(ctx, shares, amounts, create, k, m - 1);
    }
}

/// Pays `total` out of the quest's escrow to the recipients of `shares`, split by
/// basis points; every recipient's claim receipt accumulates what it was paid.
/// Returns the token actions to carry out, in order.

proof fn lemma_first_match_skip(wallets: Seq<Pubkey>, w: Pubkey, j: int)
    requires
        0 <= j < wallets.len(),
        wallets[j] != w,
    ensures
        first_match(wallets, w, j) == first_match(wallets, w, j + 1),
{
}

/// Index of the first entry of `wallets` equal to entry `i`.
fn first_index_of(wallets: &Vec<Pubkey>, i: usize) -> (f: usize)
    requires
        i < wallets@.len(),
    ensures
        f <= i,
        f == first_index(wallets@, i as int),
        wallets@[f as int] == wallets@[i as int],
{
    let mut j: usize = 0;
    while !wallets[j].same_as(&wallets[i])
        invariant
            j <= i < wallets@.len(),
            first_match(wallets@, wallets@[i as int], 0) == first_match(
                wallets@,
                wallets@[i as int],
                j as int,
            ),
        decreases i - j,
    {
        proof {
            lemma_first_match_skip(wallets@, wallets@[i as int], j as int);
        }
        j = j + 1;
    }
    j
}

/// What `amounts` pays to `w`, added up.
fn wallet_total_of(
    wallets: &Vec<Pubkey>,
    amounts: &Vec<u64>,
    w: &Pubkey,
    Ghost(alloc): Ghost<Seq<int>>,
) -> (r: u128)
    requires
        wallets@.len() == amounts@.len() <= 32,
        forall|k: int| 0 <= k < amounts@.len() ==> amounts@[k] == alloc[k],
    ensures
        r == wallet_total(wallets@, alloc, *w, wallets@.len() as int),
        r <= 0x20_0000_0000_0000_0000,
{
    let n = wallets.len();
    let mut acc: u128 = 0;
    let mut k: usize = 0;
    while k < n
        invariant
            n == wallets@.len() == amounts@.len() <= 32,
            forall|m: int| 0 <= m < amounts@.len() ==> amounts@[m] == alloc[m],
            k <= n,
            acc == wallet_total(wallets@, alloc, *w, k as int),
            acc <= k * 0x1_0000_0000_0000_0000,
        decreases n - k,
    {
        if wallets[k].same_as(w) {
            acc = acc + amounts[k] as u128;
        }
        k = k + 1;
    }
    acc
}

/// Pays `total` out of the quest's escrow to the recipients of `shares`, split by
/// basis points, into each recipient's associated token account. Each recipient's one
/// claim receipt accumulates all its shares, and a recipient is counted as a new
/// winner at most once. Returns the token actions to carry out, in order.
pub fn send_reward_batch(
    ctx: &mut SendRewardBatch,
    total: u64,
    shares: Vec<RecipientShare>,
    create_receiving_accounts: bool,
    now: i64,
) -> (r: Result<Vec<TokenAction>, CustomError>)
    ensures
        match r {
            Ok(actions) => {
                let amounts = allocation(total as int, bps_of(shares@));
                &&& batch_error(*old(ctx), total, shares@, create_receiving_accounts, now) is None
                &&& seq_total(amounts) == total
                &&& final(ctx).quest == (Quest {
                    total_reward_distributed: (old(ctx).quest.total_reward_distributed + total) as u64,
                    total_winners: (old(ctx).quest.total_winners + new_winners(
                        old(ctx).recipients@,
                        recipients_of(shares@),
                        shares@.len() as int,
                    )) as u32,
                    ..old(ctx).quest
                })
                &&& final(ctx).quest.wf()
                &&& final(ctx).recipients@.len() == shares@.len()
                &&& forall|i: int| 0 <= i < shares@.len() ==> #[trigger] final(ctx).recipients@[i]
                    == paid_recipient(*old(ctx), shares@, amounts, i)
                &&& actions@ == batch_actions(*old(ctx), shares@, amounts, shares@.len() as int)
                &&& final(ctx).program_id == old(ctx).program_id
                &&& final(ctx).owner == old(ctx).owner
                &&& final(ctx).global_state == old(ctx).global_state
                &&& final(ctx).global_state_key == old(ctx).global_state_key
                &&& final(ctx).quest_key == old(ctx).quest_key
                &&& final(ctx).escrow_account == old(ctx).escrow_account
            },
            Err(e) => {
                &&& batch_error(*old(ctx), total, shares@, create_receiving_accounts, now) == Some(e)
                &&& *final(ctx) == *old(ctx)
            },
        },
{
    if ctx.global_state.paused {
        return Err(CustomError::ContractPaused);
    }
    if !ctx.owner.same_as(&ctx.global_state.owner) {
        return Err(CustomError::UnauthorizedRewardAction);
    }
    if !is_global_state_address(&ctx.program_id, &ctx.global_state_key) {
        return Err(CustomError::AddressDerivationMismatch);
    }
    if !check_quest_escrow(&ctx.quest, &ctx.escrow_account, &ctx.global_state_key) {
        return Err(CustomError::InvalidTokenAccount);
    }
    if !ctx.quest.is_active {
        return Err(CustomError::QuestNotActive);
    }
    if now > ctx.quest.deadline {
        return Err(CustomError::InvalidDeadline);
    }
    if total == 0 {
        return Err(CustomError::InvalidAmount);
    }
    if ctx.quest.total_reward_distributed > ctx.quest.amount || total > ctx.quest.amount
        - ctx.quest.total_reward_distributed {
        return Err(CustomError::InsufficientRewardBalance);
    }
    if ctx.escrow_account.amount < total {
        return Err(CustomError::InsufficientBalance);
    }
    let bps = bps_vec(&shares);
    let amounts = match compute_shares(total, &bps) {
        Ok(v) => v,
        Err(e) => {
            return Err(e);
        },
    };
    let ghost alloc = allocation(total as int, bps_of(shares@));
    let n = shares.len();
    if ctx.recipients.len() != n {
        return Err(CustomError::InvalidReferrerAccounts);
    }
    let wallets = recipients_vec(&shares);
    let ghost ws = recipients_of(shares@);
    let mut fresh: u64 = 0;
    let mut credited_totals: Vec<u64> = Vec::new();
    let mut firsts: Vec<bool> = Vec::new();
    let mut i: usize = 0;
    #[verifier::loop_isolation(false)]
    while i < n
        invariant
            n == shares@.len() == ctx.recipients@.len() == amounts@.len() == wallets@.len(),
            n <= 32,
            ws == wallets@,
            alloc == allocation(total as int, bps_of(shares@)),
            forall|k: int| 0 <= k < n ==> amounts@[k] == alloc[k],
            i <= n,
            first_recipient_error(*ctx, shares@, alloc, create_receiving_accounts, i as int) is None,
            fresh == new_winners(ctx.recipients@, ws, i as int),
            fresh <= i,
            credited_totals@.len() == i,
            firsts@.len() == i,
            forall|k: int| 0 <= k < i ==> #[trigger] credited_totals@[k] == receipt_total(*ctx, shares@, alloc, k),
            forall|k: int| 0 <= k < i ==> #[trigger] firsts@[k] == (first_index(ws, k) == k),
        decreases n - i,
    {
        let acc = ctx.recipients[i];
        let wallet = shares[i].recipient;
        assert(ws[i as int] == wallet);
        if !is_associated_token_address(&wallet, &ctx.quest.token_mint, &acc.receiving_address) {
            proof {
                lemma_first_error_stable(*ctx, shares@, alloc, create_receiving_accounts, i + 1, n as int);
            }
            return Err(CustomError::AddressDerivationMismatch);
        }
        if !check_can_receive(&acc, &wallet, &ctx.quest.token_mint, create_receiving_accounts) {
            proof {
                lemma_first_error_stable(*ctx, shares@, alloc, create_receiving_accounts, i + 1, n as int);
            }
            return Err(CustomError::MissingAssociatedTokenAccount);
        }
        if !check_receipt_of(&ctx.program_id, &ctx.quest_key, &wallet, &acc.reward_claimed_key, &acc.reward_claimed) {
            proof {
                lemma_first_error_stable(*ctx, shares@, alloc, create_receiving_accounts, i + 1, n as int);
            }
            return Err(CustomError::AddressDerivationMismatch);
        }
        let f = first_index_of(&wallets, i);
        let this_total: u64 = if f == i {
            let prior: u64 = match acc.reward_claimed {
                Some(rc) => rc.reward_amount,
                None => 0,
            };
            let wt = wallet_total_of(&wallets, &amounts, &wallet, Ghost(alloc));
            if prior as u128 + wt > u64::MAX as u128 {
                proof {
                    lemma_first_error_stable(*ctx, shares@, alloc, create_receiving_accounts, i + 1, n as int);
                }
                return Err(CustomError::InvalidRewardAmount);
            }
            (prior as u128 + wt) as u64
        } else {
            assert(first_index(ws, f as int) == f);
            credited_totals[f]
        };
        let new_winner = f == i && match acc.reward_claimed {
            Some(rc) => !rc.claimed,
            None => true,
        };
        if new_winner {
            fresh = fresh + 1;
        }
        credited_totals.push(this_total);
        firsts.push(f == i);
        i = i + 1;
    }
    if ctx.quest.total_winners as u64 + fresh > u32::MAX as u64 {
        return Err(CustomError::MaxWinnersReached);
    }
    proof {
        lemma_first_error_prefix(*ctx, shares@, alloc, create_receiving_accounts, n as int);
        lemma_allocation_sums_to_total(total, bps_of(shares@));
    }
    let ghost before = *ctx;
    let mut actions: Vec<TokenAction> = Vec::new();
    let mut i: usize = 0;
    while i < n
        invariant
            n == shares@.len() == ctx.recipients@.len() == amounts@.len() == before.recipients@.len(),
            n == credited_totals@.len() == firsts@.len(),
            ws == recipients_of(shares@),
            alloc == allocation(total as int, bps_of(shares@)),
            forall|k: int| 0 <= k < n ==> amounts@[k] == alloc[k],
            forall|k: int| 0 <= k < n ==> #[trigger] credited_totals@[k] == receipt_total(before, shares@, alloc, k),
            forall|k: int| 0 <= k < n ==> #[trigger] firsts@[k] == (first_index(ws, k) == k),
            i <= n,
            forall|k: int| 0 <= k < i ==> #[trigger] ctx.recipients@[k] == paid_recipient(before, shares@, alloc, k),
            forall|k: int| i <= k < n ==> #[trigger] ctx.recipients@[k] == before.recipients@[k],
            actions@ == batch_actions(before, shares@, alloc, i as int),
            ctx.program_id == before.program_id,
            ctx.owner == before.owner,
            ctx.global_state == before.global_state,
            ctx.global_state_key == before.global_state_key,
            ctx.quest == before.quest,
            ctx.quest_key == before.quest_key,
            ctx.escrow_account == before.escrow_account,
        decreases n - i,
    {
        let mut acc = ctx.recipients[i];
        let wallet = shares[i].recipient;
        if acc.receiving_account.is_none() && firsts[i] {
            actions.push(
                TokenAction::CreateReceivingAccount {
                    account: acc.receiving_address,
                    wallet,
                    mint: ctx.quest.token_mint,
                    payer: ctx.owner,
                },
            );
        }
        actions.push(
            TokenAction::Transfer {
                from: ctx.escrow_account.key,
                to: acc.receiving_address,
                authority: ctx.global_state_key,
                amount: amounts[i],
            },
        );
        acc.reward_claimed = Some(
            RewardClaimed {
                quest: ctx.quest_key,
                winner: wallet,
                reward_amount: credited_totals[i],
                claimed: true,
            },
        );
        ctx.recipients.set(i, acc);
        i = i + 1;
        assert(actions@ =~= batch_actions(before, shares@, alloc, i as int));
    }
    ctx.quest.total_reward_distributed = ctx.quest.total_reward_distributed + total;
    ctx.quest.total_winners = (ctx.quest.total_winners as u64 + fresh) as u32;
    Ok(actions)
}

} // verus!
