use vstd::prelude::*;

verus! {

/// Every way an instruction can be rejected.
#[derive(Clone, Copy, Debug, PartialEq, Eq, Structural)]
pub enum CustomError {
    ContractPaused,
    UnsupportedTokenMint,
    UnauthorizedCancellation,
    QuestNotActive,
    UnauthorizedStatusUpdate,
    UnauthorizedTokenModification,
    TokenAlreadySupported,
    TokenNotFound,
    UnauthorizedPauseAction,
    AlreadyPaused,
    AlreadyUnpaused,
    UnauthorizedRewardAction,
    InsufficientRewardBalance,
    MaxWinnersReached,
    AlreadyRewarded,
    UnauthorizedWithdrawal,
    NoTokensToWithdraw,
    WithdrawalTooEarly,
    MissingAssociatedTokenAccount,
    RewardNotClaimed,
    UnauthorizedClosure,
    InvalidReferrerData,
    InvalidRewardAmount,
    InvalidReferrerAccounts,
    TooManyTokenMints,
    InvalidAmount,
    InvalidDeadline,
    InvalidQuestId,
    InsufficientBalance,
    InvalidTokenAccount,
    InvalidBasisPointsSum,
    AddressDerivationMismatch,
    SettlementMismatch,
    AlreadySettled,
}

impl CustomError {
    /// Human-readable description of the error.
    pub fn message(&self) -> &'static str {
        match self {
            CustomError::ContractPaused => "Contract is paused",
            CustomError::UnsupportedTokenMint => "Unsupported token mint",
            CustomError::UnauthorizedCancellation => "Unauthorized cancellation",
            CustomError::QuestNotActive => "Quest is not active",
            CustomError::UnauthorizedStatusUpdate => "Unauthorized status update",
            CustomError::UnauthorizedTokenModification => "Unauthorized token modification",
            CustomError::TokenAlreadySupported => "Token already supported",
            CustomError::TokenNotFound => "Token not found",
            CustomError::UnauthorizedPauseAction => "Unauthorized pause action",
            CustomError::AlreadyPaused => "Already paused",
            CustomError::AlreadyUnpaused => "Already unpaused",
            CustomError::UnauthorizedRewardAction => "Unauthorized reward action",
            CustomError::InsufficientRewardBalance => "Insufficient reward balance",
            CustomError::MaxWinnersReached => "Max winners limit reached",
            CustomError::AlreadyRewarded => "Winner has already been rewarded",
            CustomError::UnauthorizedWithdrawal => "Unauthorized withdrawal",
            CustomError::NoTokensToWithdraw => "No tokens to withdraw",
            CustomError::WithdrawalTooEarly => "Must wait 1 week after quest deadline",
            CustomError::MissingAssociatedTokenAccount => "Missing associated token account (ATA) for the provided owner/mint. Please create the ATA before sending rewards.",
            CustomError::RewardNotClaimed => "Reward has not been claimed yet",
            CustomError::UnauthorizedClosure => "Unauthorized to close this reward claimed account",
            CustomError::InvalidReferrerData => "Referrer winners and amounts lists must have the same length",
            CustomError::InvalidRewardAmount => "Invalid reward amount (overflow detected)",
            CustomError::InvalidReferrerAccounts => "Number of referrer accounts does not match number of referrer winners",
            CustomError::TooManyTokenMints => "Too many supported token mints",
            CustomError::InvalidAmount => "Amount must be greater than zero",
            CustomError::InvalidDeadline => "Deadline has passed or is not in the future",
            CustomError::InvalidQuestId => "Quest id is too long",
            CustomError::InsufficientBalance => "Insufficient token balance",
            CustomError::InvalidTokenAccount => "Token account does not match the expected mint or owner",
            CustomError::InvalidBasisPointsSum => "Basis points must sum to 10000",
            CustomError::AddressDerivationMismatch => "Account address does not match its derived address",
            CustomError::SettlementMismatch => "Settlement record does not match the quest or batch",
            CustomError::AlreadySettled => "Settlement batch already settled",
        }
    }
}

} // verus!
