use vstd::prelude::*;

use crate::error::ErrorCode;
use crate::state::stake_config::StakeConfig;
use crate::state::stake_info::{position_monotone, StakeInfo};
use crate::state::vault::{vault_monotone, Vault};

verus! {

/// The state a deposit operates on: the pool's policy, the pool itself
/// and the depositing staker's position.  The substrate loads the three
/// records, the deposit mutates them, and the substrate commits them
/// together with the requested transfer or not at all.
#[derive(Clone, Copy, Debug)]
pub struct Stake {
    pub stake_config: StakeConfig,
    pub vault: Vault,
    pub user_stake_info_pda: StakeInfo,
}

/// Why a deposit is rejected, or `None` when it goes through: a zero
/// amount never stakes, and nothing stakes once the lock-extension
/// deadline has passed.
pub open spec fn stake_error(s: Stake, now: i64, amount: u64) -> Option<ErrorCode> {
    if amount == 0 {
        Some(ErrorCode::NoTokens)
    } else if s.vault.end_time > 0 && now > s.vault.end_time {
        Some(ErrorCode::VaultEnded)
    } else {
        None
    }
}

/// The state after an accepted deposit of `amount` at time `now`:
/// the unlock clock restarts, the principal and the pool total grow by
/// `amount`, the reward-share basis follows the principal only while the
/// vault is open, and the deposit that first lifts the total to the soft
/// cap latches the vault shut until `now + lock_extend_time`.
pub open spec fn stake_step(s: Stake, now: i64, amount: u64) -> Stake
    recommends
        0 <= now,
        now as int + s.stake_config.lock_period as int <= i64::MAX as int,
        now as int + s.stake_config.lock_extend_time as int <= i64::MAX as int,
        s.user_stake_info_pda.stake_amount as int + amount as int <= u64::MAX as int,
        s.vault.total_staked as int + amount as int <= u64::MAX as int,
{
    let new_stake = (s.user_stake_info_pda.stake_amount + amount) as u64;
    let position = StakeInfo {
        bump: s.user_stake_info_pda.bump,
        unstaked_at_time: (now as int + s.stake_config.lock_period as int) as i64,
        stake_amount: new_stake,
        snapshot_amount: if s.vault.is_open() {
            new_stake
        } else {
            s.user_stake_info_pda.snapshot_amount
        },
        has_claimed: s.user_stake_info_pda.has_claimed,
    };
    let new_total = (s.vault.total_staked + amount) as u64;
    let crosses = !s.vault.reach_soft_cap && new_total >= s.stake_config.soft_cap;
    let vault = Vault {
        bump: s.vault.bump,
        version: s.vault.version,
        reward_currency_mint: s.vault.reward_currency_mint,
        total_staked: new_total,
        end_time: if crosses {
            (now as int + s.stake_config.lock_extend_time as int) as i64
        } else {
            s.vault.end_time
        },
        reach_soft_cap: s.vault.reach_soft_cap || crosses,
        total_reward: s.vault.total_reward,
        reach_tge: s.vault.reach_tge,
    };
    Stake { stake_config: s.stake_config, vault, user_stake_info_pda: position }
}

impl Stake {
    /// Deposit `amount` at time `now`.  On success the returned amount is
    /// what the substrate must transfer from the staker's account into
    /// the vault's custodial account; on a rejection nothing changes.
    pub fn process(&mut self, now: i64, amount: u64) -> (r: Result<u64, ErrorCode>)
        requires
            old(self).vault.wf(),
            // A deadline the latch sets must be a positive time, or it
            // could not be told apart from the open state's zero.
            0 < now as int + old(self).stake_config.lock_extend_time as int,
            0 <= now,
            now as int + old(self).stake_config.lock_period as int <= i64::MAX as int,
            now as int + old(self).stake_config.lock_extend_time as int <= i64::MAX as int,
            old(self).user_stake_info_pda.stake_amount as int + amount as int <= u64::MAX as int,
            old(self).vault.total_staked as int + amount as int <= u64::MAX as int,
        ensures
            match r {
                Ok(transfer) => {
                    &&& stake_error(*old(self), now, amount) is None
                    &&& transfer == amount
                    &&& *final(self) == stake_step(*old(self), now, amount)
                },
                Err(e) => {
                    &&& stake_error(*old(self), now, amount) == Some(e)
                    &&& *final(self) == *old(self)
                },
            },
            final(self).vault.wf(),
            vault_monotone(old(self).vault, final(self).vault),
            position_monotone(old(self).user_stake_info_pda, final(self).user_stake_info_pda),
    {
        if amount == 0 {
            return Err(ErrorCode::NoTokens);
        }

        if self.vault.end_time > 0 && now > self.vault.end_time {
            return Err(ErrorCode::VaultEnded);
        }

        let was_open = self.vault.end_time == 0;

        self.user_stake_info_pda.unstaked_at_time = now + self.stake_config.lock_period as i64;
        self.user_stake_info_pda.stake_amount = self.user_stake_info_pda.stake_amount + amount;
        if was_open {
            self.user_stake_info_pda.snapshot_amount = self.user_stake_info_pda.stake_amount;
        }

        self.vault.total_staked = self.vault.total_staked + amount;
        // The soft-cap latch fires at most once, in the same indivisible
        // step as the total it watches.
        if !self.vault.reach_soft_cap && self.vault.total_staked >= self.stake_config.soft_cap {
            self.vault.end_time = now + self.stake_config.lock_extend_time as i64;
            self.vault.reach_soft_cap = true;
        }

        Ok(amount)
    }
}

} // verus!
