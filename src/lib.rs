//! Escrow and reward distribution for time-boxed, token-funded quests.
//!
//! Each instruction takes the accounts it reads as plain values, checks them, updates
//! the records in place and returns the token movements for the host to carry out.
//! An instruction that fails leaves every record as it was.

pub mod allocation;
pub mod batch;
pub mod derive;
pub mod error;
pub mod key;
pub mod laws;
pub mod quest;
pub mod registry;
pub mod reward;
pub mod settlement;
pub mod state;

pub use allocation::compute_shares;
pub use batch::{send_reward_batch, RecipientAccounts, RecipientShare, SendRewardBatch};
pub use error::CustomError;
pub use key::Pubkey;
pub use quest::{
    cancel_quest, claim_remaining_reward, create_quest, get_all_quests, get_quest_info,
    CancelQuest, ClaimRemainingReward, CreateQuest, GetAllQuests, GetQuestInfo,
};
pub use registry::{
    add_supported_token, initialize, pause, remove_supported_token, set_owner, unpause,
    update_quest_status, Initialize, ModifyToken, PauseContract, SetOwner, UpdateQuestStatus,
};
pub use reward::{
    close_reward_claimed, get_reward_claimed_info, send_reward, AccountData, CloseRewardClaimed,
    GetRewardClaimedInfo, SendReward,
};
pub use settlement::{
    fund_external_settlement, settle_external, FundExternalSettlement, SettleExternal,
    SettlementBatch,
};
pub use state::{AccountClosure, GlobalState, Quest, RewardClaimed, TokenAccount, TokenAction};
