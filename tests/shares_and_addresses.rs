use svm_contracts::compute_shares;
use svm_contracts::derive::{
    is_associated_token_address, is_escrow_address, is_global_state_address,
    is_reward_claimed_address,
};
use std::str::FromStr;
use svm_contracts::reward::check_token_account_data;
use svm_contracts::{CustomError, Pubkey};

fn key(b: u8) -> Pubkey {
    Pubkey::new_from_array([b; 32])
}

fn program_id() -> Pubkey {
    key(200)
}

fn derive(seeds: &[&[u8]]) -> Pubkey {
    let id = anchor_lang::prelude::Pubkey::new_from_array(program_id().to_bytes());
    let (k, _) = anchor_lang::prelude::Pubkey::find_program_address(seeds, &id);
    Pubkey::new_from_array(k.to_bytes())
}

#[test]
fn shares_split_by_basis_points() {
    let shares = compute_shares(1000, &vec![5000, 3000, 2000]).unwrap();
    assert_eq!(shares, vec![500, 300, 200]);
}

#[test]
fn last_share_absorbs_rounding() {
    let shares = compute_shares(1001, &vec![3333, 3333, 3334]).unwrap();
    assert_eq!(shares, vec![333, 333, 335]);
    assert_eq!(shares.iter().sum::<u64>(), 1001);
}

#[test]
fn shares_sum_to_total_on_odd_totals() {
    for total in [1u64, 7, 99, 12345, u64::MAX] {
        for bps in [vec![10000u16], vec![1, 9999], vec![2500, 2500, 2500, 2500], vec![7, 13, 9980]] {
            if let Ok(shares) = compute_shares(total, &bps) {
                let sum: u128 = shares.iter().map(|s| *s as u128).sum();
                assert_eq!(sum, total as u128);
            }
        }
    }
}

#[test]
fn single_recipient_takes_all() {
    assert_eq!(compute_shares(u64::MAX, &vec![10000]).unwrap(), vec![u64::MAX]);
}

#[test]
fn basis_points_must_sum_to_whole() {
    assert_eq!(compute_shares(1000, &vec![5000, 4000, 500]), Err(CustomError::InvalidBasisPointsSum));
    assert_eq!(compute_shares(1000, &vec![5000, 5000, 1]), Err(CustomError::InvalidBasisPointsSum));
}

#[test]
fn zero_share_is_rejected() {
    assert_eq!(compute_shares(10, &vec![9999, 1]), Ok(vec![9, 1]));
    assert_eq!(compute_shares(10, &vec![1, 9999]), Err(CustomError::InvalidAmount));
    assert_eq!(compute_shares(1, &vec![5000, 5000]), Err(CustomError::InvalidAmount));
}

#[test]
fn recipient_count_bounds() {
    assert_eq!(compute_shares(1000, &vec![]), Err(CustomError::InvalidBasisPointsSum));
    let mut bps = vec![312u16; 33];
    bps[32] = 10000 - 312 * 32;
    assert_eq!(compute_shares(100_000, &bps), Err(CustomError::InvalidAmount));
    let mut bps = vec![312u16; 32];
    bps[31] = 10000 - 312 * 31;
    let shares = compute_shares(100_000, &bps).unwrap();
    assert_eq!(shares.len(), 32);
    assert_eq!(shares.iter().sum::<u64>(), 100_000);
}

#[test]
fn registry_address_is_derived() {
    let derived = derive(&[b"global_state"]);
    assert!(is_global_state_address(&program_id(), &derived));
    assert!(!is_global_state_address(&program_id(), &program_id()));
    assert!(!is_global_state_address(&program_id(), &key(9)));
}

#[test]
fn escrow_address_is_derived_from_quest() {
    let quest = key(4);
    let derived = derive(&[b"escrow", &quest.to_bytes()]);
    assert!(is_escrow_address(&program_id(), &quest, &derived));
    assert!(!is_escrow_address(&program_id(), &key(5), &derived));
    assert!(!is_escrow_address(&program_id(), &quest, &quest));
}

#[test]
fn receipt_address_is_derived_from_quest_and_winner() {
    let quest = key(4);
    let winner = key(10);
    let derived = derive(&[b"reward_claimed", &quest.to_bytes(), &winner.to_bytes()]);
    assert!(is_reward_claimed_address(&program_id(), &quest, &winner, &derived));
    assert!(!is_reward_claimed_address(&program_id(), &quest, &key(11), &derived));
}

#[test]
fn token_account_data_is_read_by_offset() {
    let mint = key(3);
    let owner = key(10);
    let mut data = Vec::new();
    data.extend_from_slice(&mint.to_bytes());
    data.extend_from_slice(&owner.to_bytes());
    data.extend_from_slice(&[0u8; 8]);
    assert!(check_token_account_data(&data, &mint, &owner));
    assert!(!check_token_account_data(&data, &owner, &mint));
    assert!(!check_token_account_data(&data[..71].to_vec(), &mint, &owner));
}

#[test]
fn keys_compare_by_bytes() {
    assert!(key(1) == key(1));
    assert!(key(1) != key(2));
    let mut b = [1u8; 32];
    b[31] = 2;
    assert!(Pubkey::new_from_array(b) != key(1));
}

#[test]
fn associated_token_address_is_derived_from_wallet_and_mint() {
    let wallet = key(10);
    let mint = key(3);
    let program = anchor_lang::prelude::Pubkey::from_str("ATokenGPvbdGVxr1b2hvZbsiqW5xWH25efTNsLJA8knL").unwrap();
    let (k, _) = anchor_lang::prelude::Pubkey::find_program_address(
        &[&wallet.to_bytes(), anchor_spl::token::ID.as_ref(), &mint.to_bytes()],
        &program,
    );
    let derived = Pubkey::new_from_array(k.to_bytes());
    assert!(is_associated_token_address(&wallet, &mint, &derived));
    assert!(!is_associated_token_address(&mint, &wallet, &derived));
    assert!(!is_associated_token_address(&wallet, &mint, &wallet));
}
