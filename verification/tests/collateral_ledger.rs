use staking_ledgers::emperor_staking::metadata::creators_of;
use staking_ledgers::emperor_staking::stake::{
    handle_stake, handle_unstake, stake_attested, update_accounts, StakeMethod, UnstakeOutcome,
};
use staking_ledgers::emperor_staking::state::{StakedNft, User, Vault, MAX_NFT_PER_USER};
use staking_ledgers::emperor_staking::user::{
    claim_preview, flush_rewards, get_rewards_earned, handle_claim_rewards, handle_create_stake_account,
    pending_rewards,
};
use staking_ledgers::emperor_staking::vault::{
    handle_drain, handle_fund, handle_set_vault_authority, handle_vault_initialization, handle_vault_update,
};
use staking_ledgers::errors::CustomError;
use staking_ledgers::fee::FeeTransfer;
use staking_ledgers::pubkey::Pubkey;

fn key(n: u8) -> Pubkey {
    Pubkey::new_from_array([n; 32])
}

fn mint(n: u32) -> Pubkey {
    let mut bytes = [7u8; 32];
    bytes[0] = (n % 256) as u8;
    bytes[1] = (n / 256) as u8;
    Pubkey::new_from_array(bytes)
}

const AUTHORITY: u8 = 1;
const CREATOR: u8 = 2;
const WALLET: u8 = 3;
const STAKER: u8 = 4;

fn vault_with(interval: u64, amount: u64, stake_fee: u64, unstake_fee: u64) -> Vault {
    handle_vault_initialization(
        key(AUTHORITY),
        String::from("emperors"),
        key(CREATOR),
        interval,
        amount,
        key(WALLET),
        stake_fee,
        unstake_fee,
        254,
    )
}

fn creators() -> Vec<Pubkey> {
    vec![key(9), key(CREATOR)]
}

#[test]
fn initialization_sets_the_configuration_and_zeroes_the_counters() {
    let vault = vault_with(86400, 100, 5, 6);
    assert_eq!(vault.name, "emperors");
    assert_eq!(vault.authority, key(AUTHORITY));
    assert_eq!(vault.creator_address, key(CREATOR));
    assert_eq!(vault.community_wallet, key(WALLET));
    assert_eq!(vault.payout_interval, 86400);
    assert_eq!(vault.payout_amount, 100);
    assert_eq!(vault.stake_fee, 5);
    assert_eq!(vault.unstake_fee, 6);
    assert_eq!(vault.total_amount, 0);
    assert_eq!(vault.total_earned, 0);
    assert_eq!(vault.total_staked, 0);
    assert_eq!(vault.bump, 254);
}

#[test]
fn new_record_is_zeroed_and_owned() {
    let account = handle_create_stake_account(key(STAKER));
    assert_eq!(account.user, key(STAKER));
    assert_eq!(account.mint_staked_count, 0);
    assert_eq!(account.total_reward_rate, 0);
    assert_eq!(account.reward_earned_pending, 0);
    assert_eq!(account.reward_earned_claimed, 0);
    assert_eq!(account.last_update_time, 0);
    assert!(account.staked_items.iter().all(|item| *item == StakedNft::default()));
    assert!(account.is_valid());
    assert_eq!(User::default().user, Pubkey::default());
}

#[test]
fn half_an_interval_earns_half_the_payout() {
    let mut vault = vault_with(86400, 100, 0, 0);
    let mut account = handle_create_stake_account(key(STAKER));
    assert_eq!(stake_attested(&mut vault, &mut account, mint(1), &creators(), 0), Ok(None));
    assert_eq!(get_rewards_earned(43200, account.last_update_time, &account, &vault), Ok(50));
    assert_eq!(pending_rewards(&account, &vault, 43200), Ok(50));
}

#[test]
fn accrual_rounds_toward_zero() {
    let mut vault = vault_with(86400, 100, 0, 0);
    let mut account = handle_create_stake_account(key(STAKER));
    stake_attested(&mut vault, &mut account, mint(1), &creators(), 0).unwrap();
    assert_eq!(get_rewards_earned(863, 0, &account, &vault), Ok(0));
    assert_eq!(get_rewards_earned(864, 0, &account, &vault), Ok(1));
    assert_eq!(get_rewards_earned(86399, 0, &account, &vault), Ok(99));
    assert_eq!(get_rewards_earned(86400, 0, &account, &vault), Ok(100));
}

#[test]
fn accrual_rejects_clock_regression_overflow_and_zero_interval() {
    let vault = vault_with(10, 100, 0, 0);
    let mut account = handle_create_stake_account(key(STAKER));
    account.total_reward_rate = 3;
    assert_eq!(get_rewards_earned(5, 6, &account, &vault), Err(CustomError::ArithmeticFault));
    assert_eq!(get_rewards_earned(u64::MAX, 0, &account, &vault), Err(CustomError::ArithmeticFault));
    let stopped = vault_with(0, 100, 0, 0);
    assert_eq!(get_rewards_earned(6, 5, &account, &stopped), Err(CustomError::ArithmeticFault));
    assert_eq!(get_rewards_earned(25, 5, &account, &vault), Ok(6));
}

#[test]
fn stake_appends_the_item_and_raises_the_counters() {
    let mut vault = vault_with(86400, 100, 0, 0);
    let mut account = handle_create_stake_account(key(STAKER));
    stake_attested(&mut vault, &mut account, mint(1), &creators(), 10).unwrap();
    stake_attested(&mut vault, &mut account, mint(2), &creators(), 20).unwrap();
    assert_eq!(account.mint_staked_count, 2);
    assert_eq!(account.total_reward_rate, 200);
    assert_eq!(vault.total_staked, 2);
    assert_eq!(account.staked_items[0], StakedNft { mint: mint(1), reward_rate: 100, staked_time: 10 });
    assert_eq!(account.staked_items[1], StakedNft { mint: mint(2), reward_rate: 100, staked_time: 20 });
    assert_eq!(account.staked_items[2], StakedNft::default());
    assert_eq!(account.last_update_time, 20);
    assert_eq!(account.reward_earned_pending, 0);
    assert!(account.is_valid());
}

#[test]
fn stake_flushes_the_accrual_before_the_rate_changes() {
    let mut vault = vault_with(100, 10, 0, 0);
    let mut account = handle_create_stake_account(key(STAKER));
    stake_attested(&mut vault, &mut account, mint(1), &creators(), 0).unwrap();
    stake_attested(&mut vault, &mut account, mint(2), &creators(), 1000).unwrap();
    assert_eq!(account.reward_earned_pending, 100);
    assert_eq!(pending_rewards(&account, &vault, 2000), Ok(300));
}

#[test]
fn stake_then_unstake_without_elapsed_time() {
    let mut vault = vault_with(86400, 100, 0, 0);
    let mut account = handle_create_stake_account(key(STAKER));
    stake_attested(&mut vault, &mut account, mint(1), &creators(), 500).unwrap();
    let before = account;
    let staked_before = vault.total_staked;
    stake_attested(&mut vault, &mut account, mint(2), &creators(), 500).unwrap();
    let outcome = handle_unstake(&mut vault, &mut account, key(STAKER), key(STAKER), mint(2), 500).unwrap();
    assert_eq!(outcome, UnstakeOutcome { fee: None, revoke_delegation: true });
    assert_eq!(account.reward_earned_pending, 0);
    assert_eq!(account.mint_staked_count, before.mint_staked_count);
    assert_eq!(account.staked_items[1], StakedNft::default());
    assert_eq!(account, before);
    assert_eq!(vault.total_staked, staked_before);
}

#[test]
fn unstake_moves_the_last_item_into_the_gap() {
    let mut vault = vault_with(86400, 100, 0, 0);
    let mut account = handle_create_stake_account(key(STAKER));
    for n in 1..=3 {
        stake_attested(&mut vault, &mut account, mint(n), &creators(), 7).unwrap();
    }
    handle_unstake(&mut vault, &mut account, key(STAKER), key(STAKER), mint(1), 7).unwrap();
    assert_eq!(account.mint_staked_count, 2);
    assert_eq!(account.staked_items[0].mint, mint(3));
    assert_eq!(account.staked_items[1].mint, mint(2));
    assert_eq!(account.staked_items[2], StakedNft::default());
    assert_eq!(account.total_reward_rate, 200);
    assert_eq!(vault.total_staked, 2);
    assert!(account.is_valid());
    assert!(account.has_consistent_rates());
    handle_unstake(&mut vault, &mut account, key(STAKER), key(STAKER), mint(2), 7).unwrap();
    assert_eq!(account.staked_items[0].mint, mint(3));
    assert_eq!(account.staked_items[1], StakedNft::default());
    assert_eq!(account.find_slot(&mint(3)), 0);
    assert_eq!(account.find_slot(&mint(2)), 1);
}

#[test]
fn stake_fee_is_charged_beside_the_stake_and_changes_no_counter() {
    let mut free_vault = vault_with(86400, 100, 0, 0);
    let mut free_account = handle_create_stake_account(key(STAKER));
    let mut vault = vault_with(86400, 100, 5, 0);
    let mut account = handle_create_stake_account(key(STAKER));
    assert_eq!(stake_attested(&mut free_vault, &mut free_account, mint(1), &creators(), 3), Ok(None));
    assert_eq!(
        stake_attested(&mut vault, &mut account, mint(1), &creators(), 3),
        Ok(Some(FeeTransfer { destination: key(WALLET), amount: 5 }))
    );
    assert_eq!(account, free_account);
    assert_eq!(vault.total_staked, free_vault.total_staked);
    assert_eq!(vault.total_amount, free_vault.total_amount);
    assert_eq!(vault.total_earned, free_vault.total_earned);
}

#[test]
fn unstake_fee_is_charged_when_configured() {
    let mut vault = vault_with(86400, 100, 0, 9);
    let mut account = handle_create_stake_account(key(STAKER));
    stake_attested(&mut vault, &mut account, mint(1), &creators(), 3).unwrap();
    let outcome = handle_unstake(&mut vault, &mut account, key(STAKER), key(STAKER), mint(1), 4).unwrap();
    assert_eq!(outcome.fee, Some(FeeTransfer { destination: key(WALLET), amount: 9 }));
    assert!(outcome.revoke_delegation);
}

#[test]
fn full_record_refuses_another_stake_and_stays_unchanged() {
    let mut vault = vault_with(86400, 100, 0, 0);
    let mut account = handle_create_stake_account(key(STAKER));
    for n in 0..MAX_NFT_PER_USER as u32 {
        assert_eq!(stake_attested(&mut vault, &mut account, mint(n), &creators(), 1), Ok(None));
    }
    assert_eq!(account.mint_staked_count, 150);
    assert!(account.is_valid());
    let account_before = account;
    let vault_before = vault.clone();
    assert_eq!(
        stake_attested(&mut vault, &mut account, mint(1000), &creators(), 2),
        Err(CustomError::MaxStaked)
    );
    assert_eq!(account, account_before);
    assert_eq!(vault, vault_before);
}

#[test]
fn stake_refuses_an_item_of_another_creator() {
    let mut vault = vault_with(86400, 100, 0, 0);
    let mut account = handle_create_stake_account(key(STAKER));
    let others = vec![key(9), key(10)];
    assert_eq!(stake_attested(&mut vault, &mut account, mint(1), &others, 1), Err(CustomError::WrongNFT));
    assert_eq!(stake_attested(&mut vault, &mut account, mint(1), &Vec::new(), 1), Err(CustomError::WrongNFT));
    assert_eq!(account, handle_create_stake_account(key(STAKER)));
    assert_eq!(vault.total_staked, 0);
}

#[test]
fn stake_refuses_an_item_that_is_already_staked() {
    let mut vault = vault_with(86400, 100, 0, 0);
    let mut account = handle_create_stake_account(key(STAKER));
    stake_attested(&mut vault, &mut account, mint(1), &creators(), 1).unwrap();
    let before = account;
    assert_eq!(
        stake_attested(&mut vault, &mut account, mint(1), &creators(), 2),
        Err(CustomError::AlreadyStaked)
    );
    assert_eq!(account, before);
    assert_eq!(vault.total_staked, 1);
}

#[test]
fn stake_refuses_when_a_counter_would_overflow() {
    let mut vault = vault_with(86400, 100, 0, 0);
    vault.total_staked = u32::MAX;
    let mut account = handle_create_stake_account(key(STAKER));
    assert_eq!(
        stake_attested(&mut vault, &mut account, mint(1), &creators(), 1),
        Err(CustomError::ArithmeticFault)
    );
    assert_eq!(account, handle_create_stake_account(key(STAKER)));
    assert_eq!(vault.total_staked, u32::MAX);
    let mut backwards = vault_with(86400, 100, 0, 0);
    let mut late = handle_create_stake_account(key(STAKER));
    stake_attested(&mut backwards, &mut late, mint(1), &creators(), 100).unwrap();
    assert_eq!(
        stake_attested(&mut backwards, &mut late, mint(2), &creators(), 99),
        Err(CustomError::ArithmeticFault)
    );
    assert_eq!(late.mint_staked_count, 1);
}

#[test]
fn unstake_checks_owner_and_signer() {
    let mut vault = vault_with(86400, 100, 0, 0);
    let mut account = handle_create_stake_account(key(STAKER));
    stake_attested(&mut vault, &mut account, mint(1), &creators(), 1).unwrap();
    let before = account;
    assert_eq!(
        handle_unstake(&mut vault, &mut account, key(8), key(8), mint(1), 2),
        Err(CustomError::KeyMismatch)
    );
    assert_eq!(
        handle_unstake(&mut vault, &mut account, key(STAKER), key(8), mint(1), 2),
        Err(CustomError::Unauthorized)
    );
    assert_eq!(
        handle_unstake(&mut vault, &mut account, key(STAKER), key(STAKER), mint(2), 2),
        Err(CustomError::Unauthorized)
    );
    assert_eq!(account, before);
    assert_eq!(vault.total_staked, 1);
}

#[test]
fn authority_unstakes_on_behalf_and_keeps_the_delegation() {
    let mut vault = vault_with(86400, 100, 0, 0);
    let mut account = handle_create_stake_account(key(STAKER));
    stake_attested(&mut vault, &mut account, mint(1), &creators(), 1).unwrap();
    let outcome = handle_unstake(&mut vault, &mut account, key(STAKER), key(AUTHORITY), mint(1), 2).unwrap();
    assert_eq!(outcome, UnstakeOutcome { fee: None, revoke_delegation: false });
    assert_eq!(account.mint_staked_count, 0);
    assert_eq!(vault.total_staked, 0);
}

#[test]
fn unstake_lowers_the_rate_by_the_current_payout_amount() {
    let mut vault = vault_with(86400, 100, 0, 0);
    let mut account = handle_create_stake_account(key(STAKER));
    stake_attested(&mut vault, &mut account, mint(1), &creators(), 1).unwrap();
    stake_attested(&mut vault, &mut account, mint(2), &creators(), 1).unwrap();
    handle_vault_update(&mut vault, key(AUTHORITY), key(CREATOR), 86400, 60, key(WALLET), 0, 0).unwrap();
    assert!(account.has_consistent_rates());
    handle_unstake(&mut vault, &mut account, key(STAKER), key(STAKER), mint(1), 1).unwrap();
    assert_eq!(account.total_reward_rate, 140);
    assert!(!account.has_consistent_rates());
    assert!(account.is_valid());
    handle_vault_update(&mut vault, key(AUTHORITY), key(CREATOR), 86400, 500, key(WALLET), 0, 0).unwrap();
    let before = account;
    assert_eq!(
        handle_unstake(&mut vault, &mut account, key(STAKER), key(STAKER), mint(2), 1),
        Err(CustomError::ArithmeticFault)
    );
    assert_eq!(account, before);
}

#[test]
fn update_accounts_applies_either_method() {
    let mut vault = vault_with(50, 10, 0, 0);
    let mut account = handle_create_stake_account(key(STAKER));
    assert_eq!(update_accounts(StakeMethod::Stake, &mut vault, &mut account, mint(1), 100), Ok(()));
    assert_eq!(account.mint_staked_count, 1);
    assert_eq!(account.total_reward_rate, 10);
    assert_eq!(update_accounts(StakeMethod::Unstake, &mut vault, &mut account, mint(1), 200), Ok(()));
    assert_eq!(account.mint_staked_count, 0);
    assert_eq!(account.total_reward_rate, 0);
    assert_eq!(account.reward_earned_pending, 20);
    assert_eq!(account.last_update_time, 200);
    assert_eq!(vault.total_staked, 0);
}

#[test]
fn flush_twice_at_the_same_time_changes_nothing() {
    let mut vault = vault_with(100, 10, 0, 0);
    let mut account = handle_create_stake_account(key(STAKER));
    stake_attested(&mut vault, &mut account, mint(1), &creators(), 0).unwrap();
    assert_eq!(flush_rewards(&mut account, &vault, 1000), Ok(()));
    assert_eq!(account.reward_earned_pending, 100);
    assert_eq!(account.last_update_time, 1000);
    let once = account;
    assert_eq!(flush_rewards(&mut account, &vault, 1000), Ok(()));
    assert_eq!(account, once);
}

#[test]
fn flush_is_refused_when_the_clock_runs_backwards() {
    let mut vault = vault_with(100, 10, 0, 0);
    let mut account = handle_create_stake_account(key(STAKER));
    stake_attested(&mut vault, &mut account, mint(1), &creators(), 50).unwrap();
    let before = account;
    assert_eq!(flush_rewards(&mut account, &vault, 49), Err(CustomError::ArithmeticFault));
    assert_eq!(account, before);
}

#[test]
fn claim_pays_pending_and_new_rewards_from_the_pool() {
    let mut vault = vault_with(100, 10, 0, 0);
    handle_fund(&mut vault, 1000).unwrap();
    let mut account = handle_create_stake_account(key(STAKER));
    stake_attested(&mut vault, &mut account, mint(1), &creators(), 0).unwrap();
    flush_rewards(&mut account, &vault, 500).unwrap();
    assert_eq!(account.reward_earned_pending, 50);
    assert_eq!(claim_preview(&account, &vault, 1500), Ok(150));
    assert_eq!(handle_claim_rewards(&mut vault, &mut account, 1500), Ok(150));
    assert_eq!(vault.total_amount, 850);
    assert_eq!(account.reward_earned_pending, 0);
    assert_eq!(account.reward_earned_claimed, 150);
    assert_eq!(account.last_update_time, 1500);
    assert_eq!(handle_claim_rewards(&mut vault, &mut account, 1500), Ok(0));
    assert_eq!(vault.total_amount, 850);
}

#[test]
fn claim_never_pays_more_than_the_pool_holds() {
    let mut vault = vault_with(100, 10, 0, 0);
    handle_fund(&mut vault, 99).unwrap();
    let mut account = handle_create_stake_account(key(STAKER));
    stake_attested(&mut vault, &mut account, mint(1), &creators(), 0).unwrap();
    let account_before = account;
    let vault_before = vault.clone();
    assert_eq!(handle_claim_rewards(&mut vault, &mut account, 1000), Err(CustomError::ArithmeticFault));
    assert_eq!(account, account_before);
    assert_eq!(vault, vault_before);
    assert_eq!(handle_claim_rewards(&mut vault, &mut account, 990), Ok(99));
    assert_eq!(vault.total_amount, 0);
}

#[test]
fn vault_update_is_for_the_authority_only() {
    let mut vault = vault_with(86400, 100, 5, 6);
    let before = vault.clone();
    assert_eq!(
        handle_vault_update(&mut vault, key(8), key(20), 1, 2, key(21), 3, 4),
        Err(CustomError::Unauthorized)
    );
    assert_eq!(vault, before);
    assert_eq!(handle_vault_update(&mut vault, key(AUTHORITY), key(20), 1, 2, key(21), 3, 4), Ok(()));
    assert_eq!(vault.creator_address, key(20));
    assert_eq!(vault.payout_interval, 1);
    assert_eq!(vault.payout_amount, 2);
    assert_eq!(vault.community_wallet, key(21));
    assert_eq!(vault.stake_fee, 3);
    assert_eq!(vault.unstake_fee, 4);
    assert_eq!(vault.authority, key(AUTHORITY));
    assert_eq!(vault.name, "emperors");
}

#[test]
fn authority_is_handed_over_by_the_authority_only() {
    let mut vault = vault_with(86400, 100, 0, 0);
    assert_eq!(handle_set_vault_authority(&mut vault, key(8), key(8)), Err(CustomError::Unauthorized));
    assert_eq!(vault.authority, key(AUTHORITY));
    assert_eq!(handle_set_vault_authority(&mut vault, key(AUTHORITY), key(8)), Ok(()));
    assert_eq!(vault.authority, key(8));
    assert_eq!(handle_set_vault_authority(&mut vault, key(AUTHORITY), key(9)), Err(CustomError::Unauthorized));
}

#[test]
fn fund_is_open_and_drain_is_for_the_authority() {
    let mut vault = vault_with(86400, 100, 0, 0);
    assert_eq!(handle_fund(&mut vault, 70), Ok(()));
    assert_eq!(vault.total_amount, 70);
    assert_eq!(handle_fund(&mut vault, u64::MAX), Err(CustomError::ArithmeticFault));
    assert_eq!(vault.total_amount, 70);
    assert_eq!(handle_drain(&mut vault, key(8), 10), Err(CustomError::Unauthorized));
    assert_eq!(handle_drain(&mut vault, key(AUTHORITY), 71), Err(CustomError::ArithmeticFault));
    assert_eq!(vault.total_amount, 70);
    assert_eq!(handle_drain(&mut vault, key(AUTHORITY), 30), Ok(()));
    assert_eq!(vault.total_amount, 40);
}

#[test]
fn validity_check_finds_broken_records() {
    let mut vault = vault_with(86400, 100, 0, 0);
    let mut account = handle_create_stake_account(key(STAKER));
    stake_attested(&mut vault, &mut account, mint(1), &creators(), 1).unwrap();
    stake_attested(&mut vault, &mut account, mint(2), &creators(), 1).unwrap();
    assert!(account.is_valid());
    let mut twice = account;
    twice.staked_items[1].mint = mint(1);
    assert!(!twice.is_valid());
    let mut stray = account;
    stray.staked_items[2].reward_rate = 1;
    assert!(!stray.is_valid());
    let mut over = account;
    over.mint_staked_count = 151;
    assert!(!over.is_valid());
}

fn metadata_record(creators: Option<&[Pubkey]>) -> Vec<u8> {
    let mut data = vec![4u8];
    data.extend_from_slice(&[21u8; 32]);
    data.extend_from_slice(&[22u8; 32]);
    for text in ["Emperor #1", "EMP", "https://example.org/1.json"] {
        data.extend_from_slice(&(text.len() as u32).to_le_bytes());
        data.extend_from_slice(text.as_bytes());
    }
    data.extend_from_slice(&500u16.to_le_bytes());
    match creators {
        None => data.push(0),
        Some(list) => {
            data.push(1);
            data.extend_from_slice(&(list.len() as u32).to_le_bytes());
            for creator in list {
                data.extend_from_slice(&creator.to_bytes());
                data.push(1);
                data.push(50);
            }
        }
    }
    data.extend_from_slice(&[0, 1, 0, 0, 0, 0, 0, 0]);
    data
}

#[test]
fn creators_are_read_from_a_metadata_record() {
    assert_eq!(creators_of(&metadata_record(Some(&[key(9), key(CREATOR)]))), vec![key(9), key(CREATOR)]);
    assert_eq!(creators_of(&metadata_record(Some(&[]))), Vec::new());
    assert_eq!(creators_of(&metadata_record(None)), Vec::new());
}

#[test]
fn unreadable_metadata_attests_nobody() {
    assert_eq!(creators_of(&[]), Vec::new());
    assert_eq!(creators_of(&[4, 1, 2, 3]), Vec::new());
    let mut other_kind = metadata_record(Some(&[key(CREATOR)]));
    other_kind[0] = 1;
    assert_eq!(creators_of(&other_kind), Vec::new());
}

#[test]
fn stake_accepts_an_item_attested_by_the_vault_creator() {
    let mut vault = vault_with(86400, 100, 5, 0);
    let mut account = handle_create_stake_account(key(STAKER));
    let record = metadata_record(Some(&[key(9), key(CREATOR)]));
    assert_eq!(
        handle_stake(&mut vault, &mut account, mint(1), &record, 12),
        Ok(Some(FeeTransfer { destination: key(WALLET), amount: 5 }))
    );
    assert_eq!(account.mint_staked_count, 1);
    assert_eq!(account.staked_items[0], StakedNft { mint: mint(1), reward_rate: 100, staked_time: 12 });
    assert_eq!(vault.total_staked, 1);
}

#[test]
fn stake_refuses_metadata_without_the_vault_creator() {
    let mut vault = vault_with(86400, 100, 0, 0);
    let mut account = handle_create_stake_account(key(STAKER));
    let fresh = account;
    let strangers = metadata_record(Some(&[key(9), key(10)]));
    assert_eq!(handle_stake(&mut vault, &mut account, mint(1), &strangers, 12), Err(CustomError::WrongNFT));
    assert_eq!(
        handle_stake(&mut vault, &mut account, mint(1), &metadata_record(None), 12),
        Err(CustomError::WrongNFT)
    );
    assert_eq!(handle_stake(&mut vault, &mut account, mint(1), &[9, 9, 9], 12), Err(CustomError::WrongNFT));
    assert_eq!(account, fresh);
    assert_eq!(vault.total_staked, 0);
}

#[test]
fn full_record_refuses_a_stake_before_the_metadata_is_read() {
    let mut vault = vault_with(86400, 100, 0, 0);
    let mut account = handle_create_stake_account(key(STAKER));
    let record = metadata_record(Some(&[key(CREATOR)]));
    for n in 0..MAX_NFT_PER_USER as u32 {
        assert_eq!(handle_stake(&mut vault, &mut account, mint(n), &record, 1), Ok(None));
    }
    let before = account;
    assert_eq!(handle_stake(&mut vault, &mut account, mint(1000), &[], 2), Err(CustomError::MaxStaked));
    assert_eq!(handle_stake(&mut vault, &mut account, mint(1000), &record, 2), Err(CustomError::MaxStaked));
    assert_eq!(account, before);
    assert_eq!(vault.total_staked, 150);
}

#[test]
fn aggregate_rate_is_the_sum_of_the_item_rates() {
    let mut vault = vault_with(86400, 100, 0, 0);
    let mut account = handle_create_stake_account(key(STAKER));
    assert!(account.has_consistent_rates());
    for n in 0..5 {
        stake_attested(&mut vault, &mut account, mint(n), &creators(), 10 * n as u64).unwrap();
        assert!(account.has_consistent_rates());
    }
    assert_eq!(account.total_reward_rate, 500);
    handle_fund(&mut vault, 1_000_000).unwrap();
    handle_claim_rewards(&mut vault, &mut account, 50).unwrap();
    assert!(account.has_consistent_rates());
    for n in [3, 0, 4] {
        handle_unstake(&mut vault, &mut account, key(STAKER), key(STAKER), mint(n), 60).unwrap();
        assert!(account.has_consistent_rates());
        assert!(account.is_valid());
    }
    assert_eq!(account.total_reward_rate, 200);
    assert_eq!(account.mint_staked_count, 2);
    assert_eq!(vault.total_staked, 2);
    let mut wrong = account;
    wrong.total_reward_rate = 199;
    assert!(!wrong.has_consistent_rates());
}
