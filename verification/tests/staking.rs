use fungstake::engine::StakingEngine;
use fungstake::error::ErrorCode;
use fungstake::pubkey::Pubkey;
use fungstake::{StakeConfig, StakeInfo, Vault};

fn config(lock_period: u32, lock_extend_time: u32, soft_cap: u64) -> StakeConfig {
    StakeConfig {
        bump: [255],
        version: 1,
        authority: Pubkey { bytes: [1; 32] },
        stake_currency_mint: Pubkey { bytes: [2; 32] },
        lock_period,
        lock_extend_time,
        soft_cap,
    }
}

fn pool(lock_period: u32, lock_extend_time: u32, soft_cap: u64) -> StakingEngine {
    StakingEngine::new(
        config(lock_period, lock_extend_time, soft_cap),
        Pubkey { bytes: [3; 32] },
        254,
    )
}

#[test]
fn stake_zero_rejected_while_open() {
    let mut eng = pool(100, 50, 1000);
    let s = eng.add_staker(0);
    assert_eq!(eng.stake(s, 5, 0), Err(ErrorCode::NoTokens));
    assert_eq!(eng.vault.total_staked, 0);
    assert_eq!(eng.positions[s].stake_amount, 0);
}

#[test]
fn stake_zero_rejected_while_locked() {
    let mut eng = pool(100, 50, 1000);
    let s = eng.add_staker(0);
    assert_eq!(eng.stake(s, 0, 1000), Ok(1000));
    assert_eq!(eng.stake(s, 10, 0), Err(ErrorCode::NoTokens));
}

#[test]
fn stake_zero_rejected_after_end() {
    let mut eng = pool(100, 50, 1000);
    let s = eng.add_staker(0);
    assert_eq!(eng.stake(s, 0, 1000), Ok(1000));
    // Past the deadline even a nonzero stake is rejected, but the zero
    // check comes first.
    assert_eq!(eng.stake(s, 60, 0), Err(ErrorCode::NoTokens));
}

#[test]
fn stake_after_deadline_rejected() {
    let mut eng = pool(100, 50, 1000);
    let s = eng.add_staker(0);
    assert_eq!(eng.stake(s, 0, 1000), Ok(1000));
    assert_eq!(eng.vault.end_time, 50);
    assert_eq!(eng.stake(s, 51, 10), Err(ErrorCode::VaultEnded));
    assert_eq!(eng.vault.total_staked, 1000);
}

#[test]
fn stake_sets_unlock_time_and_snapshot() {
    let mut eng = pool(100, 50, 10_000);
    let s = eng.add_staker(0);
    assert_eq!(eng.stake(s, 7, 42), Ok(42));
    assert_eq!(eng.positions[s].unstaked_at_time, 107);
    assert_eq!(eng.positions[s].stake_amount, 42);
    assert_eq!(eng.positions[s].snapshot_amount, 42);
    assert!(!eng.vault.reach_soft_cap);
    assert_eq!(eng.vault.end_time, 0);
}

#[test]
fn soft_cap_latches_exactly_once() {
    let mut eng = pool(100, 50, 1000);
    let a = eng.add_staker(0);
    let b = eng.add_staker(0);
    assert_eq!(eng.stake(a, 0, 600), Ok(600));
    assert!(!eng.vault.reach_soft_cap);
    assert_eq!(eng.stake(b, 10, 400), Ok(400));
    assert!(eng.vault.reach_soft_cap);
    assert_eq!(eng.vault.end_time, 60);
    // A further stake before the deadline does not move the deadline.
    assert_eq!(eng.stake(a, 20, 100), Ok(100));
    assert!(eng.vault.reach_soft_cap);
    assert_eq!(eng.vault.end_time, 60);
    assert_eq!(eng.vault.total_staked, 1100);
}

#[test]
fn stake_while_locked_freezes_snapshot() {
    let mut eng = pool(100, 50, 1000);
    let s = eng.add_staker(0);
    assert_eq!(eng.stake(s, 0, 1000), Ok(1000));
    assert_eq!(eng.positions[s].snapshot_amount, 1000);
    // The vault is latched; more principal may come in before the
    // deadline, but the reward basis stays frozen.
    assert_eq!(eng.stake(s, 10, 500), Ok(500));
    assert_eq!(eng.positions[s].stake_amount, 1500);
    assert_eq!(eng.positions[s].snapshot_amount, 1000);
    assert_eq!(eng.vault.total_staked, 1500);
}

#[test]
fn scenario_soft_cap_then_locked_withdrawal() {
    // Policy: lock 100, extension 50, soft cap 1000.
    let mut eng = pool(100, 50, 1000);
    let s = eng.add_staker(0);
    // Stake 1000 at t=0 crosses the cap.
    assert_eq!(eng.stake(s, 0, 1000), Ok(1000));
    assert!(eng.vault.reach_soft_cap);
    assert_eq!(eng.vault.end_time, 50);
    // At t=60 the position's own lock (until t=100) still runs.
    assert_eq!(eng.destake(s, 60, 400), Err(ErrorCode::UnbondingTimeNotOverYet));
    // At t=100 a partial withdrawal succeeds, but the pool total and the
    // frozen basis do not move.
    assert_eq!(eng.destake(s, 100, 400), Ok(400));
    assert_eq!(eng.positions[s].stake_amount, 600);
    assert_eq!(eng.positions[s].snapshot_amount, 1000);
    assert_eq!(eng.vault.total_staked, 1000);
}

#[test]
fn scenario_single_staker_claims_whole_pool() {
    let mut eng = pool(10, 50, 1000);
    let s = eng.add_staker(0);
    assert_eq!(eng.stake(s, 0, 1000), Ok(1000));
    assert_eq!(eng.vault.end_time, 50);
    // The reward pool is funded with 500 after the deadline; the claim
    // pays the staker's whole share.
    assert_eq!(eng.claim_reward(s, 51, 500), Ok(500));
    assert!(eng.vault.reach_tge);
    assert_eq!(eng.vault.total_reward, 500);
    assert!(eng.positions[s].has_claimed);
    // A second claim is refused and changes nothing.
    let vault_before = eng.vault;
    assert_eq!(eng.claim_reward(s, 52, 500), Err(ErrorCode::AlreadyClaimed));
    assert_eq!(eng.vault.total_reward, vault_before.total_reward);
    assert_eq!(eng.vault.total_staked, vault_before.total_staked);
    assert!(eng.positions[s].has_claimed);
}

#[test]
fn scenario_two_stakers_split_with_dust() {
    let mut eng = pool(10, 50, 1000);
    let a = eng.add_staker(0);
    let b = eng.add_staker(0);
    assert_eq!(eng.stake(a, 0, 300), Ok(300));
    assert_eq!(eng.stake(b, 0, 700), Ok(700));
    assert_eq!(eng.vault.total_staked, 1000);
    assert_eq!(eng.positions[a].snapshot_amount, 300);
    assert_eq!(eng.positions[b].snapshot_amount, 700);
    // Pool funded with 101: floor(300*101/1000) = 30, floor(700*101/1000) = 70.
    assert_eq!(eng.claim_reward(a, 51, 101), Ok(30));
    // The second claimant reuses the frozen total, whatever balance the
    // caller reads now.
    assert_eq!(eng.claim_reward(b, 52, 71), Ok(70));
    assert_eq!(eng.vault.total_reward, 101);
    // 1 unit of dust stays undistributed in the vault: 30 + 70 == 100.
}

#[test]
fn stake_destake_round_trip_restores_totals() {
    let mut eng = pool(10, 50, 1_000_000);
    let s = eng.add_staker(0);
    assert_eq!(eng.stake(s, 0, 250), Ok(250));
    let total_before = eng.vault.total_staked;
    let stake_before = eng.positions[s].stake_amount;
    assert_eq!(eng.stake(s, 5, 40), Ok(40));
    assert_eq!(eng.destake(s, 15, 40), Ok(40));
    assert_eq!(eng.vault.total_staked, total_before);
    assert_eq!(eng.positions[s].stake_amount, stake_before);
    assert_eq!(eng.positions[s].snapshot_amount, stake_before);
}

#[test]
fn destake_clamps_over_request() {
    let mut eng = pool(10, 50, 1000);
    let s = eng.add_staker(0);
    assert_eq!(eng.stake(s, 0, 9), Ok(9));
    // Requesting more than is staked pays out what is staked, without an
    // error.
    assert_eq!(eng.destake(s, 10, 10), Ok(9));
    assert_eq!(eng.positions[s].stake_amount, 0);
    assert_eq!(eng.vault.total_staked, 0);
    assert_eq!(eng.positions[s].snapshot_amount, 0);
}

#[test]
fn destake_nothing_staked_rejected() {
    let mut eng = pool(10, 50, 1000);
    let s = eng.add_staker(0);
    assert_eq!(eng.destake(s, 100, 5), Err(ErrorCode::NotStaked));
    // A fully withdrawn position is rejected the same way.
    assert_eq!(eng.stake(s, 0, 5), Ok(5));
    assert_eq!(eng.destake(s, 10, 5), Ok(5));
    assert_eq!(eng.destake(s, 11, 5), Err(ErrorCode::NotStaked));
}

#[test]
fn destake_before_unlock_rejected() {
    let mut eng = pool(100, 50, 1000);
    let s = eng.add_staker(0);
    assert_eq!(eng.stake(s, 0, 5), Ok(5));
    assert_eq!(eng.destake(s, 99, 5), Err(ErrorCode::UnbondingTimeNotOverYet));
    assert_eq!(eng.destake(s, 100, 5), Ok(5));
}

#[test]
fn destake_frozen_between_latch_and_deadline() {
    let mut eng = pool(10, 50, 1000);
    let s = eng.add_staker(0);
    assert_eq!(eng.stake(s, 0, 1000), Ok(1000));
    // Unlocked at t=10, but the vault is latched until t=50 inclusive.
    assert_eq!(eng.destake(s, 50, 100), Err(ErrorCode::TgeNotYetReached));
    assert_eq!(eng.destake(s, 51, 100), Ok(100));
    assert_eq!(eng.vault.total_staked, 1000);
}

#[test]
fn claim_before_soft_cap_rejected() {
    let mut eng = pool(10, 50, 1000);
    let s = eng.add_staker(0);
    assert_eq!(eng.stake(s, 0, 10), Ok(10));
    assert_eq!(eng.claim_reward(s, 100, 500), Err(ErrorCode::VaultNotStarted));
}

#[test]
fn claim_before_deadline_rejected() {
    let mut eng = pool(10, 50, 1000);
    let s = eng.add_staker(0);
    assert_eq!(eng.stake(s, 0, 1000), Ok(1000));
    assert_eq!(eng.claim_reward(s, 50, 500), Err(ErrorCode::TgeNotYetReached));
}

#[test]
fn claim_unfunded_pool_rejected() {
    let mut eng = pool(10, 50, 1000);
    let s = eng.add_staker(0);
    assert_eq!(eng.stake(s, 0, 1000), Ok(1000));
    assert_eq!(eng.claim_reward(s, 51, 0), Err(ErrorCode::TgeNotYetReached));
    assert!(!eng.vault.reach_tge);
    assert_eq!(eng.vault.total_reward, 0);
}

#[test]
fn latches_and_frozen_fields_stay_put() {
    let mut eng = pool(10, 50, 1000);
    let a = eng.add_staker(0);
    let b = eng.add_staker(0);
    assert_eq!(eng.stake(a, 0, 1000), Ok(1000));
    let end_time = eng.vault.end_time;
    assert_eq!(eng.stake(b, 1, 600), Ok(600));
    assert_eq!(eng.vault.end_time, end_time);
    assert!(eng.vault.reach_soft_cap);
    assert_eq!(eng.claim_reward(a, 51, 400), Ok(250));
    let total_reward = eng.vault.total_reward;
    assert_eq!(eng.destake(b, 60, 100), Ok(100));
    // The second staker joined only after the latch, so its frozen basis
    // is zero and its claim pays nothing.
    assert_eq!(eng.claim_reward(b, 61, 999), Ok(0));
    assert!(eng.vault.reach_soft_cap);
    assert!(eng.vault.reach_tge);
    assert_eq!(eng.vault.end_time, end_time);
    assert_eq!(eng.vault.total_reward, total_reward);
}

#[test]
fn open_pool_total_is_sum_of_positions() {
    let mut eng = pool(10, 50, 100_000);
    let a = eng.add_staker(0);
    let b = eng.add_staker(0);
    let c = eng.add_staker(0);
    assert_eq!(eng.stake(a, 0, 11), Ok(11));
    assert_eq!(eng.stake(b, 1, 22), Ok(22));
    assert_eq!(eng.stake(c, 2, 33), Ok(33));
    assert_eq!(eng.destake(a, 12, 4), Ok(4));
    let sum: u64 = eng.positions.iter().map(|p| p.stake_amount).sum();
    assert_eq!(eng.vault.total_staked, sum);
    assert_eq!(eng.vault.total_staked, 62);
}

#[test]
fn fresh_vault_is_open_and_empty() {
    let eng = pool(10, 50, 1000);
    assert_eq!(eng.vault.total_staked, 0);
    assert_eq!(eng.vault.end_time, 0);
    assert!(!eng.vault.reach_soft_cap);
    assert!(!eng.vault.reach_tge);
    assert_eq!(eng.vault.total_reward, 0);
    assert_eq!(eng.vault.bump, [254]);
    assert_eq!(eng.vault.reward_currency_mint.bytes, [3; 32]);
    assert!(eng.positions.is_empty());
}

#[test]
fn fresh_position_is_zeroed() {
    let p = StakeInfo::new(9);
    assert_eq!(p.bump, [9]);
    assert_eq!(p.unstaked_at_time, 0);
    assert_eq!(p.stake_amount, 0);
    assert_eq!(p.snapshot_amount, 0);
    assert!(!p.has_claimed);
}

#[test]
fn config_auth_seeds_layout() {
    let cfg = config(100, 50, 1000);
    let seeds = cfg.auth_seeds();
    assert_eq!(seeds.len(), 4);
    assert_eq!(seeds[0], b"staking_config".to_vec());
    assert_eq!(seeds[1], vec![1; 32]);
    assert_eq!(seeds[2], vec![2; 32]);
    assert_eq!(seeds[3], vec![255]);
}

#[test]
fn vault_auth_seeds_layout() {
    let eng = pool(100, 50, 1000);
    let config_address = [7u8; 32];
    let seeds = eng.vault.auth_seeds(&config_address);
    assert_eq!(seeds.len(), 4);
    assert_eq!(seeds[0], b"staking_vault".to_vec());
    assert_eq!(seeds[1], vec![7; 32]);
    assert_eq!(seeds[2], vec![3; 32]);
    assert_eq!(seeds[3], vec![254]);
}
