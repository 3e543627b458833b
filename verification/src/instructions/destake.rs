use vstd::prelude::*;

use crate::error::ErrorCode;
use crate::instructions::stake::{stake_error, stake_step, Stake};
use crate::state::stake_config::StakeConfig;
use crate::state::stake_info::{position_monotone, StakeInfo};
use crate::state::vault::{vault_monotone, Vault};

verus! {

/// The state a withdrawal operates on: the pool's policy, the pool itself
/// and the withdrawing staker's position.
#[derive(Clone, Copy, Debug)]
pub struct DeStake {
    pub stake_config: StakeConfig,
    pub vault: Vault,
    pub staker_info: StakeInfo,
}

/// Why a withdrawal is rejected, or `None` when it goes through: nothing
/// to withdraw, the staker's own unlock time still running, or the vault
/// latched shut and its lock-extension deadline not yet passed.
pub open spec fn destake_error(s: DeStake, now: i64) -> Option<ErrorCode> {
    if s.staker_info.stake_amount == 0 {
        Some(ErrorCode::NotStaked)
    } else if now < s.staker_info.unstaked_at_time {
        Some(ErrorCode::UnbondingTimeNotOverYet)
    } else if s.vault.end_time > 0 && now <= s.vault.end_time {
        Some(ErrorCode::TgeNotYetReached)
    } else {
        None
    }
}

/// How much an accepted withdrawal of `amount` actually pays out:
/// over-requesting clamps to the staked principal and is never an error.
pub open spec fn destake_amount(s: DeStake, amount: u64) -> u64 {
    if amount < s.staker_info.stake_amount {
        amount
    } else {
        s.staker_info.stake_amount
    }
}

/// The state after an accepted withdrawal of `amount`: the principal
/// shrinks by the clamped payout.  While the vault is open the pool total
/// shrinks with it and the reward-share basis follows; once the soft cap
/// has latched, both stay exactly as they were — the basis is frozen and
/// only the principal moves.
pub open spec fn destake_step(s: DeStake, amount: u64) -> DeStake
    recommends
        s.vault.is_open() ==> s.staker_info.stake_amount <= s.vault.total_staked,
{
    let unstake = destake_amount(s, amount);
    let new_stake = (s.staker_info.stake_amount - unstake) as u64;
    let position = StakeInfo {
        bump: s.staker_info.bump,
        unstaked_at_time: s.staker_info.unstaked_at_time,
        stake_amount: new_stake,
        snapshot_amount: if s.vault.is_open() {
            new_stake
        } else {
            s.staker_info.snapshot_amount
        },
        has_claimed: s.staker_info.has_claimed,
    };
    let vault = Vault {
        bump: s.vault.bump,
        version: s.vault.version,
        reward_currency_mint: s.vault.reward_currency_mint,
        total_staked: if s.vault.is_open() {
            (s.vault.total_staked - unstake) as u64
        } else {
            s.vault.total_staked
        },
        end_time: s.vault.end_time,
        reach_soft_cap: s.vault.reach_soft_cap,
        total_reward: s.vault.total_reward,
        reach_tge: s.vault.reach_tge,
    };
    DeStake { stake_config: s.stake_config, vault, staker_info: position }
}

impl DeStake {
    /// Withdraw up to `amount` at time `now`.  On success the returned
    /// amount is what the substrate must transfer from the vault's
    /// custodial account back to the staker, authorized by the vault's
    /// own derived signing capability; on a rejection nothing changes.
    ///
    /// A withdrawal while the vault is open requires that this position's
    /// principal is no more than the pool total, which holds in every
    /// pool whose total is the sum of its positions.
    pub fn process(&mut self, now: i64, amount: u64) -> (r: Result<u64, ErrorCode>)
        requires
            old(self).vault.wf(),
            old(self).vault.is_open() ==> old(self).staker_info.stake_amount
                <= old(self).vault.total_staked,
        ensures
            match r {
                Ok(transfer) => {
                    &&& destake_error(*old(self), now) is None
                    &&& transfer == destake_amount(*old(self), amount)
                    &&& *final(self) == destake_step(*old(self), amount)
                },
                Err(e) => {
                    &&& destake_error(*old(self), now) == Some(e)
                    &&& *final(self) == *old(self)
                },
            },
            final(self).vault.wf(),
            vault_monotone(old(self).vault, final(self).vault),
            position_monotone(old(self).staker_info, final(self).staker_info),
    {
        if self.staker_info.stake_amount == 0 {
            return Err(ErrorCode::NotStaked);
        }

        if now < self.staker_info.unstaked_at_time {
            return Err(ErrorCode::UnbondingTimeNotOverYet);
        }

        // Once the soft cap has latched, every withdrawal waits for the
        // lock-extension deadline, protecting the frozen reward basis.
        if self.vault.end_time > 0 && now <= self.vault.end_time {
            return Err(ErrorCode::TgeNotYetReached);
        }

        let unstake_amount = if amount < self.staker_info.stake_amount {
            amount
        } else {
            self.staker_info.stake_amount
        };

        self.staker_info.stake_amount = self.staker_info.stake_amount - unstake_amount;
        if self.vault.end_time == 0 {
            self.vault.total_staked = self.vault.total_staked - unstake_amount;
            self.staker_info.snapshot_amount = self.staker_info.stake_amount;
        }

        Ok(unstake_amount)
    }
}

/// While the vault is open, a deposit followed by a withdrawal of the
/// same amount is a round trip: both are accepted, and the pool total and
/// the position's principal come back exactly to their pre-deposit
/// values.  The deposit must not cross the soft cap — a crossing latches
/// the vault and freezes withdrawals — and the withdrawal must come once
/// the deposit's unlock time has passed.
pub proof fn lemma_stake_destake_round_trip(
    c: StakeConfig,
    v: Vault,
    p: StakeInfo,
    now_stake: i64,
    now_destake: i64,
    amount: u64,
)
    requires
        v.wf(),
        v.is_open(),
        0 < amount,
        p.stake_amount as int + amount as int <= u64::MAX as int,
        v.total_staked as int + amount as int <= u64::MAX as int,
        0 <= now_stake,
        now_stake as int + c.lock_period as int <= i64::MAX as int,
        (v.total_staked as int + amount as int) < c.soft_cap as int,
        now_stake as int + c.lock_period as int <= now_destake as int,
    ensures
        ({
            let staked = stake_step(
                Stake { stake_config: c, vault: v, user_stake_info_pda: p },
                now_stake,
                amount,
            );
            let undone = destake_step(
                DeStake { stake_config: c, vault: staked.vault, staker_info: staked.user_stake_info_pda },
                amount,
            );
            &&& stake_error(
                Stake { stake_config: c, vault: v, user_stake_info_pda: p },
                now_stake,
                amount,
            ) is None
            &&& destake_error(
                DeStake { stake_config: c, vault: staked.vault, staker_info: staked.user_stake_info_pda },
                now_destake,
            ) is None
            &&& undone.vault.total_staked == v.total_staked
            &&& undone.staker_info.stake_amount == p.stake_amount
        }),
{
}

} // verus!
