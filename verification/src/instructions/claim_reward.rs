use vstd::prelude::*;

use crate::error::ErrorCode;
use crate::state::stake_config::StakeConfig;
use crate::state::stake_info::{position_monotone, StakeInfo};
use crate::state::vault::{vault_monotone, Vault};

verus! {

/// The state a reward claim operates on: the pool's policy, the pool
/// itself and the claiming staker's position.
#[derive(Clone, Copy, Debug)]
pub struct ClaimReward {
    pub stake_config: StakeConfig,
    pub vault: Vault,
    pub user_stake_info_pda: StakeInfo,
}

/// The reward pool a claim divides: the total frozen by the first claim,
/// or, for that first claim itself, the custodial balance it reads.
pub open spec fn claim_pool(s: ClaimReward, reward_balance: u64) -> u64 {
    if s.vault.reach_tge {
        s.vault.total_reward
    } else {
        reward_balance
    }
}

/// What an accepted claim pays out: the floor of the staker's frozen
/// share of the reward pool.  Whatever the quotient leaves behind stays
/// in the vault as undistributed dust.
pub open spec fn claim_earned(s: ClaimReward, reward_balance: u64) -> int {
    s.user_stake_info_pda.snapshot_amount as int * claim_pool(s, reward_balance) as int
        / s.vault.total_staked as int
}

/// Why a claim is rejected, or `None` when it goes through, in the order
/// the checks are made: the position has already claimed; the soft cap
/// was never crossed; the lock-extension deadline has not passed; the
/// reward pool is still unfunded; the pool total is zero, which no
/// reachable vault exhibits and which is refused rather than divided by;
/// or the payout would not fit its type, which no position whose basis is
/// within the pool total can produce.
pub open spec fn claim_error(s: ClaimReward, now: i64, reward_balance: u64) -> Option<
    ErrorCode,
> {
    if s.user_stake_info_pda.has_claimed {
        Some(ErrorCode::AlreadyClaimed)
    } else if s.vault.end_time == 0 {
        Some(ErrorCode::VaultNotStarted)
    } else if now <= s.vault.end_time {
        Some(ErrorCode::TgeNotYetReached)
    } else if !s.vault.reach_tge && reward_balance == 0 {
        Some(ErrorCode::TgeNotYetReached)
    } else if s.vault.total_staked == 0 {
        Some(ErrorCode::DivideByZero)
    } else if claim_earned(s, reward_balance) > u64::MAX as int {
        Some(ErrorCode::OverflowError)
    } else {
        None
    }
}

/// The state after an accepted claim: the first claim freezes the reward
/// pool and latches the distribution mark; every claim sets the
/// position's claimed mark before its payout is transferred, so a retried
/// claim can never pay twice.
pub open spec fn claim_step(s: ClaimReward, reward_balance: u64) -> ClaimReward {
    let vault = Vault {
        bump: s.vault.bump,
        version: s.vault.version,
        reward_currency_mint: s.vault.reward_currency_mint,
        total_staked: s.vault.total_staked,
        end_time: s.vault.end_time,
        reach_soft_cap: s.vault.reach_soft_cap,
        total_reward: claim_pool(s, reward_balance),
        reach_tge: true,
    };
    let position = StakeInfo {
        bump: s.user_stake_info_pda.bump,
        unstaked_at_time: s.user_stake_info_pda.unstaked_at_time,
        stake_amount: s.user_stake_info_pda.stake_amount,
        snapshot_amount: s.user_stake_info_pda.snapshot_amount,
        has_claimed: true,
    };
    ClaimReward { stake_config: s.stake_config, vault, user_stake_info_pda: position }
}

/// The floor of `staked_amount`'s share when `total_reward` is split
/// pro rata over `total_staked_amount`, computed in double-width
/// arithmetic so the product cannot wrap.  A zero total is refused rather
/// than divided by, and a quotient beyond the result type is refused
/// rather than truncated.
pub fn get_earned_amount(staked_amount: u64, total_staked_amount: u64, total_reward: u64) -> (r:
    Result<u64, ErrorCode>)
    ensures
        total_staked_amount == 0 ==> r == Err::<u64, ErrorCode>(ErrorCode::DivideByZero),
        total_staked_amount > 0 ==> {
            let earned = staked_amount as int * total_reward as int / total_staked_amount as int;
            if earned > u64::MAX as int {
                r == Err::<u64, ErrorCode>(ErrorCode::OverflowError)
            } else {
                r == Ok::<u64, ErrorCode>(earned as u64)
            }
        },
{
    if total_staked_amount == 0 {
        return Err(ErrorCode::DivideByZero);
    }

    proof {
        assert((staked_amount as int) * (total_reward as int) <= (u64::MAX as int) * (u64::MAX
            as int)) by (nonlinear_arith)
            requires
                staked_amount as int <= u64::MAX as int,
                total_reward as int <= u64::MAX as int,
        ;
    }
    let product = (staked_amount as u128) * (total_reward as u128);
    let quotient = product / (total_staked_amount as u128);

    if quotient > u64::MAX as u128 {
        Err(ErrorCode::OverflowError)
    } else {
        Ok(quotient as u64)
    }
}

/// A position whose reward basis is within the pool total can never earn
/// more than the whole reward pool, so its payout always fits the
/// transfer amount's type.
pub proof fn lemma_earned_at_most_reward(staked: u64, total: u64, reward: u64)
    requires
        0 < total,
        staked <= total,
    ensures
        staked as int * reward as int / total as int <= reward as int,
{
    assert(staked as int * reward as int / total as int <= reward as int) by (nonlinear_arith)
        requires
            0 < total as int,
            staked as int <= total as int,
            0 <= reward as int,
    ;
}

impl ClaimReward {
    /// Claim this position's reward at time `now`, where `reward_balance`
    /// is the current balance of the vault's reward custodial account as
    /// the caller just read it.  On success the returned amount is what
    /// the substrate must transfer from that account to the staker,
    /// authorized by the vault's own derived signing capability; on a
    /// rejection nothing changes.
    pub fn process(&mut self, now: i64, reward_balance: u64) -> (r: Result<u64, ErrorCode>)
        requires
            old(self).vault.wf(),
        ensures
            match r {
                Ok(transfer) => {
                    &&& claim_error(*old(self), now, reward_balance) is None
                    &&& transfer == claim_earned(*old(self), reward_balance)
                    &&& *final(self) == claim_step(*old(self), reward_balance)
                },
                Err(e) => {
                    &&& claim_error(*old(self), now, reward_balance) == Some(e)
                    &&& *final(self) == *old(self)
                },
            },
            final(self).vault.wf(),
            vault_monotone(old(self).vault, final(self).vault),
            position_monotone(old(self).user_stake_info_pda, final(self).user_stake_info_pda),
            // A position that has already claimed is refused outright,
            // with no state change and no transfer.
            old(self).user_stake_info_pda.has_claimed ==> r == Err::<u64, ErrorCode>(
                ErrorCode::AlreadyClaimed,
            ) && *final(self) == *old(self),
    {
        if self.user_stake_info_pda.has_claimed {
            return Err(ErrorCode::AlreadyClaimed);
        }

        if self.vault.end_time == 0 {
            return Err(ErrorCode::VaultNotStarted);
        }

        if now <= self.vault.end_time {
            return Err(ErrorCode::TgeNotYetReached);
        }

        // The first claimant freezes the reward pool at the balance the
        // funding process has deposited; an unfunded pool cannot start
        // distribution.
        if !self.vault.reach_tge && reward_balance == 0 {
            return Err(ErrorCode::TgeNotYetReached);
        }
        let pool = if self.vault.reach_tge {
            self.vault.total_reward
        } else {
            reward_balance
        };

        let earned_amount = match get_earned_amount(
            self.user_stake_info_pda.snapshot_amount,
            self.vault.total_staked,
            pool,
        ) {
            Ok(earned) => earned,
            Err(e) => {
                return Err(e);
            },
        };

        self.vault.reach_tge = true;
        self.vault.total_reward = pool;
        // The claimed mark is set before the transfer is issued, so a
        // retried claim cannot pay twice.
        self.user_stake_info_pda.has_claimed = true;

        Ok(earned_amount)
    }
}

} // verus!
