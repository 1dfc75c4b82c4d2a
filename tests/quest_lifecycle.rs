use svm_contracts::{
    add_supported_token, cancel_quest, claim_remaining_reward, create_quest, get_all_quests,
    get_quest_info, initialize, pause, remove_supported_token, set_owner, unpause,
    update_quest_status, CancelQuest, ClaimRemainingReward, CreateQuest, CustomError,
    GetAllQuests, GetQuestInfo, GlobalState, Initialize, ModifyToken, PauseContract, Pubkey,
    Quest, SetOwner, TokenAccount, TokenAction, UpdateQuestStatus,
};

const OWNER: u8 = 1;
const CREATOR: u8 = 2;
const MINT: u8 = 3;
const QUEST: u8 = 4;
const WEEK: i64 = 604800;

fn key(b: u8) -> Pubkey {
    Pubkey::new_from_array([b; 32])
}

fn program_id() -> Pubkey {
    key(200)
}

fn derive(seeds: &[&[u8]]) -> Pubkey {
    let id = anchor_lang::prelude::Pubkey::new_from_array(program_id().to_bytes());
    let (k, _) = anchor_lang::prelude::Pubkey::find_program_address(seeds, &id);
    Pubkey::new_from_array(k.to_bytes())
}

fn registry_key() -> Pubkey {
    derive(&[b"global_state"])
}

fn escrow_key() -> Pubkey {
    derive(&[b"escrow", &key(QUEST).to_bytes()])
}

fn registry(paused: bool) -> GlobalState {
    GlobalState { owner: key(OWNER), paused, supported_token_mints: vec![key(MINT)], quest_count: 0 }
}

fn blank_quest() -> Quest {
    Quest {
        id: String::new(),
        creator: key(0),
        token_mint: key(0),
        escrow_account: key(0),
        amount: 0,
        deadline: 0,
        is_active: false,
        total_winners: 0,
        total_reward_distributed: 0,
        max_winners: 0,
    }
}

fn funded_quest(amount: u64, distributed: u64, deadline: i64, active: bool) -> Quest {
    Quest {
        id: "quest-1".to_string(),
        creator: key(CREATOR),
        token_mint: key(MINT),
        escrow_account: escrow_key(),
        amount,
        deadline,
        is_active: active,
        total_winners: 0,
        total_reward_distributed: distributed,
        max_winners: 3,
    }
}

fn create_ctx(paused: bool, balance: u64) -> CreateQuest {
    CreateQuest {
        program_id: program_id(),
        creator: key(CREATOR),
        global_state: registry(paused),
        token_mint: key(MINT),
        escrow_account: escrow_key(),
        creator_token_account: TokenAccount { key: key(20), mint: key(MINT), owner: key(CREATOR), amount: balance },
        quest: blank_quest(),
        quest_key: key(QUEST),
    }
}

fn claim_ctx(quest: Quest, claimer: u8, escrow_balance: u64) -> ClaimRemainingReward {
    ClaimRemainingReward {
        program_id: program_id(),
        claimer: key(claimer),
        global_state: registry(false),
        global_state_key: registry_key(),
        quest,
        escrow_account: TokenAccount { key: escrow_key(), mint: key(MINT), owner: registry_key(), amount: escrow_balance },
        creator_token_account: TokenAccount { key: key(20), mint: key(MINT), owner: key(CREATOR), amount: 0 },
    }
}

#[test]
fn initialize_sets_registry() {
    let mut ctx = Initialize { owner: key(OWNER), global_state: registry(true) };
    initialize(&mut ctx, vec![key(MINT), key(5)]).unwrap();
    assert!(ctx.global_state.owner == key(OWNER));
    assert!(!ctx.global_state.paused);
    assert_eq!(ctx.global_state.supported_token_mints.len(), 2);
    assert_eq!(ctx.global_state.quest_count, 0);
}

#[test]
fn initialize_rejects_too_many_or_repeated_mints() {
    let mut ctx = Initialize { owner: key(OWNER), global_state: registry(false) };
    let many: Vec<Pubkey> = (0..11u8).map(key).collect();
    assert_eq!(initialize(&mut ctx, many), Err(CustomError::TooManyTokenMints));
    let ten: Vec<Pubkey> = (0..10u8).map(key).collect();
    assert!(initialize(&mut ctx, ten).is_ok());
    assert_eq!(initialize(&mut ctx, vec![key(5), key(5)]), Err(CustomError::TokenAlreadySupported));
}

#[test]
fn token_allow_list_add_and_remove() {
    let mut ctx = ModifyToken { owner: key(OWNER), global_state: registry(false), token_mint: key(7) };
    add_supported_token(&mut ctx).unwrap();
    assert_eq!(ctx.global_state.supported_token_mints.len(), 2);
    assert_eq!(add_supported_token(&mut ctx), Err(CustomError::TokenAlreadySupported));
    remove_supported_token(&mut ctx).unwrap();
    assert_eq!(ctx.global_state.supported_token_mints.len(), 1);
    assert!(ctx.global_state.supported_token_mints[0] == key(MINT));
    assert_eq!(remove_supported_token(&mut ctx), Err(CustomError::TokenNotFound));
}

#[test]
fn token_allow_list_is_bounded_and_guarded() {
    let mut full = registry(false);
    full.supported_token_mints = (10..20u8).map(key).collect();
    let mut ctx = ModifyToken { owner: key(OWNER), global_state: full, token_mint: key(7) };
    assert_eq!(add_supported_token(&mut ctx), Err(CustomError::TooManyTokenMints));
    let mut ctx = ModifyToken { owner: key(9), global_state: registry(false), token_mint: key(7) };
    assert_eq!(add_supported_token(&mut ctx), Err(CustomError::UnauthorizedTokenModification));
    assert_eq!(remove_supported_token(&mut ctx), Err(CustomError::UnauthorizedTokenModification));
}

#[test]
fn pause_and_unpause() {
    let mut ctx = PauseContract { owner: key(OWNER), global_state: registry(false) };
    assert_eq!(unpause(&mut ctx), Err(CustomError::AlreadyUnpaused));
    pause(&mut ctx).unwrap();
    assert!(ctx.global_state.paused);
    assert_eq!(pause(&mut ctx), Err(CustomError::AlreadyPaused));
    unpause(&mut ctx).unwrap();
    assert!(!ctx.global_state.paused);
    let mut other = PauseContract { owner: key(9), global_state: registry(false) };
    assert_eq!(pause(&mut other), Err(CustomError::UnauthorizedPauseAction));
}

#[test]
fn owner_rotation() {
    let mut ctx = SetOwner { current_owner: key(9), global_state: registry(false) };
    assert_eq!(set_owner(&mut ctx, key(9)), Err(CustomError::UnauthorizedRewardAction));
    let mut ctx = SetOwner { current_owner: key(OWNER), global_state: registry(false) };
    set_owner(&mut ctx, key(9)).unwrap();
    assert!(ctx.global_state.owner == key(9));
}

#[test]
fn status_update_needs_owner() {
    let mut ctx = UpdateQuestStatus { owner: key(9), global_state: registry(false), quest: funded_quest(10, 0, 100, true) };
    assert_eq!(update_quest_status(&mut ctx, false), Err(CustomError::UnauthorizedStatusUpdate));
    assert!(ctx.quest.is_active);
    ctx.owner = key(OWNER);
    update_quest_status(&mut ctx, false).unwrap();
    assert!(!ctx.quest.is_active);
}

#[test]
fn create_quest_funds_escrow() {
    let mut ctx = create_ctx(false, 5000);
    let action = create_quest(&mut ctx, "quest-1".to_string(), 1000, 500, 3, 100).unwrap();
    assert!(matches!(action, TokenAction::Transfer { amount: 1000, .. }));
    if let TokenAction::Transfer { from, to, authority, .. } = action {
        assert!(from == key(20) && to == escrow_key() && authority == key(CREATOR));
    }
    assert_eq!(ctx.quest.amount, 1000);
    assert_eq!(ctx.quest.deadline, 500);
    assert!(ctx.quest.is_active);
    assert_eq!(ctx.quest.total_reward_distributed, 0);
    assert_eq!(ctx.quest.total_winners, 0);
    assert_eq!(ctx.quest.max_winners, 3);
    assert_eq!(ctx.quest.id, "quest-1");
    assert_eq!(ctx.global_state.quest_count, 1);
    let info = get_quest_info(&GetQuestInfo { quest: ctx.quest.clone() }).unwrap();
    assert_eq!(info.amount, 1000);
}

#[test]
fn create_quest_rejections() {
    let id = || "quest-1".to_string();
    assert_eq!(create_quest(&mut create_ctx(true, 5000), id(), 1000, 500, 3, 100).unwrap_err(), CustomError::ContractPaused);
    let mut ctx = create_ctx(false, 5000);
    ctx.token_mint = key(8);
    assert_eq!(create_quest(&mut ctx, id(), 1000, 500, 3, 100).unwrap_err(), CustomError::UnsupportedTokenMint);
    assert_eq!(create_quest(&mut create_ctx(false, 5000), id(), 0, 500, 3, 100).unwrap_err(), CustomError::InvalidAmount);
    assert_eq!(create_quest(&mut create_ctx(false, 5000), id(), 1000, 500, 0, 100).unwrap_err(), CustomError::InvalidAmount);
    let long = "x".repeat(37);
    assert_eq!(create_quest(&mut create_ctx(false, 5000), long, 1000, 500, 3, 100).unwrap_err(), CustomError::InvalidQuestId);
    assert!(create_quest(&mut create_ctx(false, 5000), "x".repeat(36), 1000, 500, 3, 100).is_ok());
    assert_eq!(create_quest(&mut create_ctx(false, 5000), id(), 1000, 100, 3, 100).unwrap_err(), CustomError::InvalidDeadline);
    let mut ctx = create_ctx(false, 5000);
    ctx.escrow_account = key(30);
    assert_eq!(create_quest(&mut ctx, id(), 1000, 500, 3, 100).unwrap_err(), CustomError::AddressDerivationMismatch);
    let mut ctx = create_ctx(false, 5000);
    ctx.creator_token_account.owner = key(9);
    assert_eq!(create_quest(&mut ctx, id(), 1000, 500, 3, 100).unwrap_err(), CustomError::InvalidTokenAccount);
    let mut ctx = create_ctx(false, 999);
    assert_eq!(create_quest(&mut ctx, id(), 1000, 500, 3, 100).unwrap_err(), CustomError::InsufficientBalance);
    assert_eq!(ctx.quest.amount, 0);
}

#[test]
fn quest_list_is_empty() {
    assert!(get_all_quests(&GetAllQuests { global_state: registry(false) }).unwrap().is_empty());
}

#[test]
fn cancel_returns_escrow_to_creator() {
    let mut ctx = CancelQuest {
        program_id: program_id(),
        creator: key(CREATOR),
        global_state: registry(false),
        global_state_key: registry_key(),
        quest: funded_quest(1000, 400, 500, true),
        escrow_account: TokenAccount { key: escrow_key(), mint: key(MINT), owner: registry_key(), amount: 600 },
        creator_token_account: TokenAccount { key: key(20), mint: key(MINT), owner: key(CREATOR), amount: 0 },
    };
    let actions = cancel_quest(&mut ctx).unwrap();
    assert_eq!(actions.len(), 2);
    assert!(matches!(actions[0], TokenAction::Transfer { amount: 600, .. }));
    assert!(matches!(actions[1], TokenAction::CloseAccount { .. }));
    assert!(!ctx.quest.is_active);
    assert_eq!(cancel_quest(&mut ctx).unwrap_err(), CustomError::QuestNotActive);
}

#[test]
fn cancel_is_blocked_while_paused() {
    let mut ctx = CancelQuest {
        program_id: program_id(),
        creator: key(CREATOR),
        global_state: registry(true),
        global_state_key: registry_key(),
        quest: funded_quest(1000, 0, 500, true),
        escrow_account: TokenAccount { key: escrow_key(), mint: key(MINT), owner: registry_key(), amount: 1000 },
        creator_token_account: TokenAccount { key: key(20), mint: key(MINT), owner: key(CREATOR), amount: 0 },
    };
    assert_eq!(cancel_quest(&mut ctx).unwrap_err(), CustomError::ContractPaused);
    assert!(ctx.quest.is_active);
    ctx.global_state.paused = false;
    assert_eq!(cancel_quest(&mut ctx).unwrap().len(), 2);
}

#[test]
fn cancel_needs_creator() {
    let mut ctx = CancelQuest {
        program_id: program_id(),
        creator: key(9),
        global_state: registry(false),
        global_state_key: registry_key(),
        quest: funded_quest(1000, 0, 500, true),
        escrow_account: TokenAccount { key: escrow_key(), mint: key(MINT), owner: registry_key(), amount: 1000 },
        creator_token_account: TokenAccount { key: key(20), mint: key(MINT), owner: key(9), amount: 0 },
    };
    assert_eq!(cancel_quest(&mut ctx).unwrap_err(), CustomError::UnauthorizedCancellation);
    assert!(ctx.quest.is_active);
}

#[test]
fn sweep_waits_a_week_after_deadline() {
    let mut early = claim_ctx(funded_quest(1000, 600, 500, false), CREATOR, 400);
    assert_eq!(claim_remaining_reward(&mut early, 500 + WEEK - 1).unwrap_err(), CustomError::WithdrawalTooEarly);
    assert_eq!(early.quest.amount, 1000);
    let mut on_time = claim_ctx(funded_quest(1000, 600, 500, false), CREATOR, 400);
    let actions = claim_remaining_reward(&mut on_time, 500 + WEEK).unwrap();
    assert!(matches!(actions[0], TokenAction::Transfer { amount: 400, .. }));
    assert!(matches!(actions[1], TokenAction::CloseAccount { .. }));
    assert_eq!(on_time.quest.amount, 600);
}

#[test]
fn sweep_happens_once() {
    let mut ctx = claim_ctx(funded_quest(1000, 250, 500, false), OWNER, 750);
    claim_remaining_reward(&mut ctx, 500 + WEEK + 10).unwrap();
    assert_eq!(ctx.quest.amount, ctx.quest.total_reward_distributed);
    assert_eq!(claim_remaining_reward(&mut ctx, 500 + WEEK + 20).unwrap_err(), CustomError::NoTokensToWithdraw);
}

#[test]
fn sweep_rejections() {
    let mut ctx = claim_ctx(funded_quest(1000, 0, 500, false), 9, 1000);
    assert_eq!(claim_remaining_reward(&mut ctx, 500 + WEEK).unwrap_err(), CustomError::UnauthorizedWithdrawal);
    let mut ctx = claim_ctx(funded_quest(1000, 0, 500, true), CREATOR, 1000);
    assert_eq!(claim_remaining_reward(&mut ctx, 500 + WEEK).unwrap_err(), CustomError::QuestNotActive);
    let mut ctx = claim_ctx(funded_quest(1000, 0, i64::MAX - 5, false), CREATOR, 1000);
    assert_eq!(claim_remaining_reward(&mut ctx, i64::MAX).unwrap_err(), CustomError::WithdrawalTooEarly);
    let mut ctx = claim_ctx(funded_quest(1000, 0, 500, false), CREATOR, 999);
    assert_eq!(claim_remaining_reward(&mut ctx, 500 + WEEK).unwrap_err(), CustomError::InsufficientBalance);
    let mut ctx = claim_ctx(funded_quest(1000, 0, 500, false), CREATOR, 1000);
    ctx.global_state.paused = true;
    assert_eq!(claim_remaining_reward(&mut ctx, 500 + WEEK).unwrap_err(), CustomError::ContractPaused);
}

#[test]
fn sweep_leaves_escrow_open_when_more_remains() {
    let mut ctx = claim_ctx(funded_quest(1000, 0, 500, false), CREATOR, 1500);
    let actions = claim_remaining_reward(&mut ctx, 500 + WEEK).unwrap();
    assert_eq!(actions.len(), 1);
}

#[test]
fn error_messages() {
    assert_eq!(CustomError::ContractPaused.message(), "Contract is paused");
    assert_eq!(CustomError::WithdrawalTooEarly.message(), "Must wait 1 week after quest deadline");
}
