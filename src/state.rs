use vstd::prelude::*;

use crate::key::Pubkey;

verus! {

/// Largest number of token kinds on the allow-list.
pub const MAX_SUPPORTED_TOKEN_MINTS: usize = 10;

/// Largest length of a quest id, in bytes.
pub const MAX_QUEST_ID_LENGTH: usize = 36;

/// Seconds after a quest's deadline before its remainder can be swept (one week).
pub const WITHDRAWAL_DELAY_SECONDS: i64 = 604800;

/// The registry: administrative owner, pause flag and allow-listed token kinds.
#[derive(Clone, Debug)]
pub struct GlobalState {
    pub owner: Pubkey,
    pub paused: bool,
    pub supported_token_mints: Vec<Pubkey>,
    pub quest_count: u32,
}

impl GlobalState {
    /// At most ten allow-listed token kinds, none listed twice.
    pub open spec fn wf(&self) -> bool {
        &&& self.supported_token_mints@.len() <= MAX_SUPPORTED_TOKEN_MINTS
        &&& self.supported_token_mints@.no_duplicates()
    }
}

/// A funded, time-boxed reward pool.
#[derive(Clone, Debug)]
pub struct Quest {
    pub id: String,
    pub creator: Pubkey,
    pub token_mint: Pubkey,
    pub escrow_account: Pubkey,
    pub amount: u64,
    pub deadline: i64,
    pub is_active: bool,
    pub total_winners: u32,
    pub total_reward_distributed: u64,
    pub max_winners: u32,
}

impl Quest {
    /// A quest never pays out more than it was funded with.
    pub open spec fn wf(&self) -> bool {
        self.total_reward_distributed <= self.amount
    }

    /// Budget not yet paid out.
    pub open spec fn remaining(&self) -> int {
        self.amount - self.total_reward_distributed
    }
}

/// Claim receipt: what one recipient has been paid for one quest.
#[derive(Clone, Copy, Debug)]
pub struct RewardClaimed {
    pub quest: Pubkey,
    pub winner: Pubkey,
    pub reward_amount: u64,
    pub claimed: bool,
}

/// What the program reads of a token account.
#[derive(Clone, Copy, Debug)]
pub struct TokenAccount {
    pub key: Pubkey,
    pub mint: Pubkey,
    pub owner: Pubkey,
    pub amount: u64,
}

/// Closing a record of this program: the account goes away and its storage deposit
/// goes to `destination`.
#[derive(Clone, Copy, Debug)]
pub struct AccountClosure {
    pub account: Pubkey,
    pub destination: Pubkey,
}

/// A request to the token-transfer service, carried out after the instruction's checks.
#[derive(Clone, Copy, Debug)]
pub enum TokenAction {
    /// Move `amount` from `from` to `to`, signed by `authority`.
    Transfer { from: Pubkey, to: Pubkey, authority: Pubkey, amount: u64 },
    /// Close the empty account `account`, its storage deposit going to `destination`.
    CloseAccount { account: Pubkey, destination: Pubkey, authority: Pubkey },
    /// Create `account`, the receiving account of `wallet` for `mint`, paid by `payer`.
    CreateReceivingAccount { account: Pubkey, wallet: Pubkey, mint: Pubkey, payer: Pubkey },
}

} // verus!
