//! A pooled-token staking vault.
//!
//! Participants deposit an asset into a vault, earn a pro-rata share of a
//! later-funded reward pool once the pool crosses a configured soft cap,
//! and withdraw their principal after a time lock.  This crate holds the
//! bookkeeping state machine: soft-cap detection and lock-extension
//! latching, time-locked withdrawal, and overflow-safe pro-rata reward
//! computation with a one-time reward snapshot.  The hosting substrate
//! (account storage, token transfers, clock reads, address derivation) is
//! outside the library: callers read the clock and custodial balances,
//! hand them in as plain values, and perform the one transfer each
//! operation requests.

use vstd::prelude::*;

pub mod constant;
pub mod engine;
pub mod error;
pub mod instructions;
pub mod pubkey;
pub mod state;

pub use instructions::claim_reward::ClaimReward;
pub use instructions::create_vault::CreateVault;
pub use instructions::destake::DeStake;
pub use instructions::initialize::Initialize;
pub use instructions::stake::Stake;
pub use state::stake_config::StakeConfig;
pub use state::stake_info::StakeInfo;
pub use state::vault::Vault;

verus! {

/// One-time policy capture: see [`Initialize::process`].
pub fn initialize(
    accounts: &mut Initialize,
    lock_period: u32,
    lock_extend_time: u32,
    soft_cap: u64,
    bump: u8,
) -> (r: Result<(), error::ErrorCode>)
    ensures
        r is Ok,
        *final(accounts) == (Initialize {
            signer: old(accounts).signer,
            stake_config: StakeConfig {
                bump: [bump],
                version: 1,
                authority: old(accounts).signer,
                stake_currency_mint: old(accounts).stake_currency_mint,
                lock_period,
                lock_extend_time,
                soft_cap,
            },
            stake_currency_mint: old(accounts).stake_currency_mint,
        }),
{
    accounts.process(lock_period, lock_extend_time, soft_cap, bump)
}

/// Deposit into the vault: see [`Stake::process`].
pub fn stake(accounts: &mut Stake, now: i64, amount: u64) -> (r: Result<u64, error::ErrorCode>)
    requires
        old(accounts).vault.wf(),
        0 < now as int + old(accounts).stake_config.lock_extend_time as int,
        0 <= now,
        now as int + old(accounts).stake_config.lock_period as int <= i64::MAX as int,
        now as int + old(accounts).stake_config.lock_extend_time as int <= i64::MAX as int,
        old(accounts).user_stake_info_pda.stake_amount as int + amount as int <= u64::MAX as int,
        old(accounts).vault.total_staked as int + amount as int <= u64::MAX as int,
    ensures
        match r {
            Ok(transfer) => {
                &&& instructions::stake::stake_error(*old(accounts), now, amount) is None
                &&& transfer == amount
                &&& *final(accounts) == instructions::stake::stake_step(*old(accounts), now, amount)
            },
            Err(e) => {
                &&& instructions::stake::stake_error(*old(accounts), now, amount) == Some(e)
                &&& *final(accounts) == *old(accounts)
            },
        },
        final(accounts).vault.wf(),
{
    accounts.process(now, amount)
}

/// Withdraw from the vault: see [`DeStake::process`].
pub fn destake(accounts: &mut DeStake, now: i64, amount: u64) -> (r: Result<
    u64,
    error::ErrorCode,
>)
    requires
        old(accounts).vault.wf(),
        old(accounts).vault.is_open() ==> old(accounts).staker_info.stake_amount <= old(
            accounts,
        ).vault.total_staked,
    ensures
        match r {
            Ok(transfer) => {
                &&& instructions::destake::destake_error(*old(accounts), now) is None
                &&& transfer == instructions::destake::destake_amount(*old(accounts), amount)
                &&& *final(accounts) == instructions::destake::destake_step(*old(accounts), amount)
            },
            Err(e) => {
                &&& instructions::destake::destake_error(*old(accounts), now) == Some(e)
                &&& *final(accounts) == *old(accounts)
            },
        },
        final(accounts).vault.wf(),
{
    accounts.process(now, amount)
}

/// Create a pool's vault: see [`CreateVault::process`].
pub fn create_vault(accounts: &mut CreateVault, vault_bump: u8) -> (r: Result<
    (),
    error::ErrorCode,
>)
    ensures
        r is Ok,
        final(accounts).vault == (Vault {
            bump: [vault_bump],
            version: old(accounts).vault.version,
            reward_currency_mint: old(accounts).reward_currency_mint,
            total_staked: 0,
            end_time: 0,
            reach_soft_cap: false,
            total_reward: 0,
            reach_tge: false,
        }),
        final(accounts).signer == old(accounts).signer,
        final(accounts).stake_config == old(accounts).stake_config,
        final(accounts).reward_currency_mint == old(accounts).reward_currency_mint,
        final(accounts).stake_currency_mint == old(accounts).stake_currency_mint,
{
    accounts.process(vault_bump)
}

/// Claim a position's reward: see [`ClaimReward::process`].
pub fn claim_reward(accounts: &mut ClaimReward, now: i64, reward_balance: u64) -> (r: Result<
    u64,
    error::ErrorCode,
>)
    requires
        old(accounts).vault.wf(),
    ensures
        match r {
            Ok(transfer) => {
                &&& instructions::claim_reward::claim_error(*old(accounts), now, reward_balance)
                    is None
                &&& transfer == instructions::claim_reward::claim_earned(
                    *old(accounts),
                    reward_balance,
                )
                &&& *final(accounts) == instructions::claim_reward::claim_step(
                    *old(accounts),
                    reward_balance,
                )
            },
            Err(e) => {
                &&& instructions::claim_reward::claim_error(*old(accounts), now, reward_balance)
                    == Some(e)
                &&& *final(accounts) == *old(accounts)
            },
        },
        final(accounts).vault.wf(),
{
    accounts.process(now, reward_balance)
}

} // verus!
