use fungstake::error::ErrorCode;
use fungstake::instructions::claim_reward::get_earned_amount;
use fungstake::pubkey::Pubkey;
use fungstake::{
    claim_reward, create_vault, destake, initialize, stake, ClaimReward, CreateVault, DeStake,
    Initialize, Stake, StakeConfig, StakeInfo, Vault,
};

fn key(b: u8) -> Pubkey {
    Pubkey { bytes: [b; 32] }
}

fn blank_config() -> StakeConfig {
    StakeConfig {
        bump: [0],
        version: 0,
        authority: key(0),
        stake_currency_mint: key(0),
        lock_period: 0,
        lock_extend_time: 0,
        soft_cap: 0,
    }
}

fn open_vault(total_staked: u64) -> Vault {
    Vault {
        bump: [0],
        version: 0,
        reward_currency_mint: key(9),
        total_staked,
        end_time: 0,
        reach_soft_cap: false,
        total_reward: 0,
        reach_tge: false,
    }
}

fn locked_vault(total_staked: u64, end_time: i64) -> Vault {
    Vault {
        bump: [0],
        version: 0,
        reward_currency_mint: key(9),
        total_staked,
        end_time,
        reach_soft_cap: true,
        total_reward: 0,
        reach_tge: false,
    }
}

fn position(stake_amount: u64, snapshot_amount: u64, unstaked_at_time: i64) -> StakeInfo {
    StakeInfo { bump: [0], unstaked_at_time, stake_amount, snapshot_amount, has_claimed: false }
}

#[test]
fn initialize_captures_policy_verbatim() {
    let mut acc = Initialize {
        signer: key(5),
        stake_config: blank_config(),
        stake_currency_mint: key(6),
    };
    assert_eq!(initialize(&mut acc, 100, 50, 1000, 7), Ok(()));
    assert_eq!(acc.stake_config.bump, [7]);
    assert_eq!(acc.stake_config.version, 1);
    assert_eq!(acc.stake_config.authority.bytes, [5; 32]);
    assert_eq!(acc.stake_config.stake_currency_mint.bytes, [6; 32]);
    assert_eq!(acc.stake_config.lock_period, 100);
    assert_eq!(acc.stake_config.lock_extend_time, 50);
    assert_eq!(acc.stake_config.soft_cap, 1000);
}

#[test]
fn create_vault_initializes_open_and_empty() {
    let mut acc = CreateVault {
        signer: key(5),
        stake_config: blank_config(),
        reward_currency_mint: key(8),
        stake_currency_mint: key(6),
        vault: locked_vault(123, 456),
    };
    assert_eq!(create_vault(&mut acc, 3), Ok(()));
    assert_eq!(acc.vault.bump, [3]);
    assert_eq!(acc.vault.reward_currency_mint.bytes, [8; 32]);
    assert_eq!(acc.vault.total_staked, 0);
    assert_eq!(acc.vault.end_time, 0);
    assert!(!acc.vault.reach_soft_cap);
    assert!(!acc.vault.reach_tge);
    assert_eq!(acc.vault.total_reward, 0);
}

#[test]
fn stake_entry_latches_on_soft_cap() {
    let mut cfg = blank_config();
    cfg.lock_period = 100;
    cfg.lock_extend_time = 50;
    cfg.soft_cap = 1000;
    let mut acc = Stake {
        stake_config: cfg,
        vault: open_vault(900),
        user_stake_info_pda: position(900, 900, 100),
    };
    assert_eq!(stake(&mut acc, 10, 100), Ok(100));
    assert_eq!(acc.vault.total_staked, 1000);
    assert!(acc.vault.reach_soft_cap);
    assert_eq!(acc.vault.end_time, 60);
    assert_eq!(acc.user_stake_info_pda.stake_amount, 1000);
    assert_eq!(acc.user_stake_info_pda.snapshot_amount, 1000);
    assert_eq!(acc.user_stake_info_pda.unstaked_at_time, 110);
}

#[test]
fn destake_entry_open_shrinks_total_and_snapshot() {
    let mut acc = DeStake {
        stake_config: blank_config(),
        vault: open_vault(100),
        staker_info: position(60, 60, 5),
    };
    assert_eq!(destake(&mut acc, 5, 25), Ok(25));
    assert_eq!(acc.staker_info.stake_amount, 35);
    assert_eq!(acc.staker_info.snapshot_amount, 35);
    assert_eq!(acc.vault.total_staked, 75);
}

#[test]
fn claim_entry_pays_frozen_share() {
    let mut acc = ClaimReward {
        stake_config: blank_config(),
        vault: locked_vault(1000, 50),
        user_stake_info_pda: position(1000, 1000, 10),
    };
    assert_eq!(claim_reward(&mut acc, 51, 500), Ok(500));
    assert!(acc.vault.reach_tge);
    assert_eq!(acc.vault.total_reward, 500);
    assert!(acc.user_stake_info_pda.has_claimed);
}

#[test]
fn claim_with_zero_total_rejected_as_arithmetic_error() {
    // A latched vault with nothing staked is outside any reachable pool,
    // but the claim still refuses the division rather than performing it.
    let mut acc = ClaimReward {
        stake_config: blank_config(),
        vault: locked_vault(0, 50),
        user_stake_info_pda: position(0, 0, 10),
    };
    assert_eq!(claim_reward(&mut acc, 51, 500), Err(ErrorCode::DivideByZero));
    assert!(!acc.vault.reach_tge);
    assert_eq!(acc.vault.total_reward, 0);
}

#[test]
fn claim_with_basis_beyond_total_rejected_as_overflow() {
    let mut acc = ClaimReward {
        stake_config: blank_config(),
        vault: locked_vault(1, 50),
        user_stake_info_pda: position(0, u64::MAX, 10),
    };
    assert_eq!(claim_reward(&mut acc, 51, 2), Err(ErrorCode::OverflowError));
    assert!(!acc.user_stake_info_pda.has_claimed);
}

#[test]
fn earned_amount_exact_values() {
    assert_eq!(get_earned_amount(300, 1000, 101), Ok(30));
    assert_eq!(get_earned_amount(700, 1000, 101), Ok(70));
    assert_eq!(get_earned_amount(1000, 1000, 500), Ok(500));
    assert_eq!(get_earned_amount(0, 1000, 500), Ok(0));
    // The double-width intermediate keeps the full product.
    assert_eq!(get_earned_amount(u64::MAX, u64::MAX, u64::MAX), Ok(u64::MAX));
}

#[test]
fn earned_amount_zero_total_rejected() {
    assert_eq!(get_earned_amount(5, 0, 7), Err(ErrorCode::DivideByZero));
}

#[test]
fn earned_amount_too_large_rejected() {
    assert_eq!(get_earned_amount(u64::MAX, 1, 2), Err(ErrorCode::OverflowError));
}
