use vstd::prelude::*;

use crate::error::ErrorCode;
use crate::instructions::claim_reward::{
    claim_earned, claim_error, claim_pool, claim_step, lemma_earned_at_most_reward, ClaimReward,
};
use crate::instructions::destake::{destake_amount, destake_error, destake_step, DeStake};
use crate::instructions::stake::{stake_error, stake_step, Stake};
use crate::pubkey::Pubkey;
use crate::state::stake_config::StakeConfig;
use crate::state::stake_info::{position_monotone, StakeInfo};
use crate::state::vault::{vault_monotone, Vault};

verus! {

/// The principal held by a sequence of positions, summed.
pub open spec fn sum_stakes(s: Seq<StakeInfo>) -> int
    decreases s.len(),
{
    if s.len() == 0 {
        0
    } else {
        sum_stakes(s.drop_last()) + s.last().stake_amount
    }
}

pub proof fn lemma_sum_stakes_nonneg(s: Seq<StakeInfo>)
    ensures
        0 <= sum_stakes(s),
    decreases s.len(),
{
    if s.len() > 0 {
        lemma_sum_stakes_nonneg(s.drop_last());
    }
}

pub proof fn lemma_sum_stakes_push(s: Seq<StakeInfo>, v: StakeInfo)
    ensures
        sum_stakes(s.push(v)) == sum_stakes(s) + v.stake_amount,
{
    assert(s.push(v).drop_last() =~= s);
}

pub proof fn lemma_sum_stakes_update(s: Seq<StakeInfo>, i: int, v: StakeInfo)
    requires
        0 <= i < s.len(),
    ensures
        sum_stakes(s.update(i, v)) == sum_stakes(s) - s[i].stake_amount + v.stake_amount,
    decreases s.len(),
{
    if i == s.len() - 1 {
        assert(s.update(i, v).drop_last() =~= s.drop_last());
    } else {
        assert(s.update(i, v).drop_last() =~= s.drop_last().update(i, v));
        lemma_sum_stakes_update(s.drop_last(), i, v);
    }
}

/// No single position holds more principal than all of them together.
pub proof fn lemma_stake_le_sum(s: Seq<StakeInfo>, i: int)
    requires
        0 <= i < s.len(),
    ensures
        s[i].stake_amount <= sum_stakes(s),
    decreases s.len(),
{
    if i == s.len() - 1 {
        lemma_sum_stakes_nonneg(s.drop_last());
    } else {
        lemma_stake_le_sum(s.drop_last(), i);
    }
}

/// The reward basis held by a sequence of positions, summed.
pub open spec fn sum_snapshots(s: Seq<StakeInfo>) -> int
    decreases s.len(),
{
    if s.len() == 0 {
        0
    } else {
        sum_snapshots(s.drop_last()) + s.last().snapshot_amount
    }
}

pub proof fn lemma_sum_snapshots_push(s: Seq<StakeInfo>, v: StakeInfo)
    ensures
        sum_snapshots(s.push(v)) == sum_snapshots(s) + v.snapshot_amount,
{
    assert(s.push(v).drop_last() =~= s);
}

pub proof fn lemma_sum_snapshots_update(s: Seq<StakeInfo>, i: int, v: StakeInfo)
    requires
        0 <= i < s.len(),
    ensures
        sum_snapshots(s.update(i, v)) == sum_snapshots(s) - s[i].snapshot_amount
            + v.snapshot_amount,
    decreases s.len(),
{
    if i == s.len() - 1 {
        assert(s.update(i, v).drop_last() =~= s.drop_last());
    } else {
        assert(s.update(i, v).drop_last() =~= s.drop_last().update(i, v));
        lemma_sum_snapshots_update(s.drop_last(), i, v);
    }
}

/// While every basis moves in lockstep with its principal, their sums
/// agree too.
pub proof fn lemma_lockstep_sums_agree(s: Seq<StakeInfo>)
    requires
        forall|i: int|
            0 <= i < s.len() ==> (#[trigger] s[i]).snapshot_amount == s[i].stake_amount,
    ensures
        sum_snapshots(s) == sum_stakes(s),
    decreases s.len(),
{
    if s.len() > 0 {
        lemma_lockstep_sums_agree(s.drop_last());
    }
}

/// Dividing two quantities separately never pays more than dividing their
/// sum: the dust each floor leaves behind only grows.
pub proof fn lemma_div_superadditive(a: int, b: int, t: int)
    requires
        0 < t,
        0 <= a,
        0 <= b,
    ensures
        a / t + b / t <= (a + b) / t,
{
    assert(a / t + b / t <= (a + b) / t) by (nonlinear_arith)
        requires
            0 < t,
            0 <= a,
            0 <= b,
    ;
}

pub proof fn lemma_snapshots_nonneg(s: Seq<StakeInfo>)
    ensures
        0 <= sum_snapshots(s),
    decreases s.len(),
{
    if s.len() > 0 {
        lemma_snapshots_nonneg(s.drop_last());
    }
}

/// What distributing `reward` over a frozen total of `total` pays each
/// position of `s`, summed.
pub open spec fn sum_payouts(s: Seq<StakeInfo>, total: u64, reward: u64) -> int
    decreases s.len(),
{
    if s.len() == 0 {
        0
    } else {
        sum_payouts(s.drop_last(), total, reward) + s.last().snapshot_amount as int * reward as int
            / total as int
    }
}

pub proof fn lemma_sum_payouts_le_ratio(s: Seq<StakeInfo>, total: u64, reward: u64)
    requires
        0 < total,
    ensures
        sum_payouts(s, total, reward) <= sum_snapshots(s) * reward as int / total as int,
    decreases s.len(),
{
    if s.len() == 0 {
    } else {
        let d = s.drop_last();
        lemma_sum_payouts_le_ratio(d, total, reward);
        assert(0 <= sum_snapshots(d)) by {
            lemma_snapshots_nonneg(d);
        }
        assert(0 <= sum_snapshots(d) * reward as int) by (nonlinear_arith)
            requires
                0 <= sum_snapshots(d),
                0 <= reward as int,
        ;
        lemma_div_superadditive(
            sum_snapshots(d) * reward as int,
            s.last().snapshot_amount as int * reward as int,
            total as int,
        );
        assert(sum_snapshots(d) * reward as int + s.last().snapshot_amount as int * reward as int
            == sum_snapshots(s) * reward as int) by (nonlinear_arith)
            requires
                sum_snapshots(s) == sum_snapshots(d) + s.last().snapshot_amount as int,
        ;
    }
}

/// A latched pool never over-distributes: when the bases of all its
/// positions sum to no more than the frozen total staked, paying every
/// position its pro-rata share hands out at most the reward pool itself —
/// whatever the floors leave behind stays in the vault as dust.
pub proof fn lemma_distribution_within_pool(s: Seq<StakeInfo>, total: u64, reward: u64)
    requires
        0 < total,
        sum_snapshots(s) <= total,
    ensures
        sum_payouts(s, total, reward) <= reward,
{
    lemma_sum_payouts_le_ratio(s, total, reward);
    lemma_snapshots_nonneg(s);
    assert(sum_snapshots(s) * reward as int / total as int <= reward as int) by (nonlinear_arith)
        requires
            0 < total as int,
            0 <= sum_snapshots(s) <= total as int,
            0 <= reward as int,
    ;
}

/// One staking pool held whole: the policy, the vault aggregate and every
/// position the pool has ever created.  Positions are an arena — created
/// on a staker's first appearance, mutated in place, never removed — so a
/// position's index stands for the address the substrate derives from the
/// (vault, staker) pair.
pub struct StakingEngine {
    pub config: StakeConfig,
    pub vault: Vault,
    pub positions: Vec<StakeInfo>,
}

impl StakingEngine {
    /// What every operation preserves.
    ///
    /// While the vault is open, its total is exactly the sum of the
    /// principal over all positions, and every reward basis moves in
    /// lockstep with its principal.  At all times no principal and no
    /// basis exceeds the vault total; a vault that has latched shut holds
    /// a positive total — which is why a claim can never divide by zero
    /// and never overflows its payout — and all its frozen bases together
    /// stay within that total, so distribution can never pay out more
    /// than the reward pool.
    pub open spec fn inv(self) -> bool {
        &&& self.vault.wf()
        &&& self.vault.is_open() ==> sum_stakes(self.positions@) == self.vault.total_staked as int
        &&& self.vault.is_open() ==> forall|i: int|
            0 <= i < self.positions@.len() ==> (#[trigger] self.positions@[i]).snapshot_amount
                == self.positions@[i].stake_amount
        &&& forall|i: int|
            0 <= i < self.positions@.len() ==> (#[trigger] self.positions@[i]).stake_amount
                <= self.vault.total_staked
        &&& forall|i: int|
            0 <= i < self.positions@.len() ==> (#[trigger] self.positions@[i]).snapshot_amount
                <= self.vault.total_staked
        &&& !self.vault.is_open() ==> sum_snapshots(self.positions@)
            <= self.vault.total_staked as int
        &&& !self.vault.is_open() ==> self.vault.total_staked > 0
    }

    /// In any latched pool the invariant bounds the bases by the frozen
    /// total, so paying every position its share of `reward` — what each
    /// claim computes — distributes at most `reward` itself.
    pub proof fn lemma_payouts_bounded(self, reward: u64)
        requires
            self.inv(),
            !self.vault.is_open(),
        ensures
            sum_payouts(self.positions@, self.vault.total_staked, reward) <= reward,
    {
        lemma_distribution_within_pool(self.positions@, self.vault.total_staked, reward);
    }

    /// A fresh pool: an open, empty vault under the given policy, with no
    /// positions yet.
    pub fn new(config: StakeConfig, reward_currency_mint: Pubkey, vault_bump: u8) -> (r:
        StakingEngine)
        ensures
            r.inv(),
            r.config == config,
            r.vault == (Vault {
                bump: [vault_bump],
                version: 0,
                reward_currency_mint,
                total_staked: 0,
                end_time: 0,
                reach_soft_cap: false,
                total_reward: 0,
                reach_tge: false,
            }),
            r.positions@.len() == 0,
    {
        StakingEngine {
            config,
            vault: Vault {
                bump: [vault_bump],
                version: 0,
                reward_currency_mint,
                total_staked: 0,
                end_time: 0,
                reach_soft_cap: false,
                total_reward: 0,
                reach_tge: false,
            },
            positions: Vec::new(),
        }
    }

    /// Allocate the position for a staker's first deposit and hand back
    /// its index — the engine's stand-in for the substrate deriving and
    /// allocating the staker's record.
    pub fn add_staker(&mut self, bump: u8) -> (idx: usize)
        requires
            old(self).inv(),
            old(self).positions@.len() < usize::MAX as int,
        ensures
            final(self).inv(),
            idx == old(self).positions@.len(),
            final(self).positions@ == old(self).positions@.push(
                StakeInfo {
                    bump: [bump],
                    unstaked_at_time: 0,
                    stake_amount: 0,
                    snapshot_amount: 0,
                    has_claimed: false,
                },
            ),
            final(self).vault == old(self).vault,
            final(self).config == old(self).config,
    {
        let idx = self.positions.len();
        self.positions.push(StakeInfo::new(bump));
        proof {
            let fresh = StakeInfo {
                bump: [bump],
                unstaked_at_time: 0,
                stake_amount: 0,
                snapshot_amount: 0,
                has_claimed: false,
            };
            lemma_sum_stakes_push(old(self).positions@, fresh);
            lemma_sum_snapshots_push(old(self).positions@, fresh);
        }
        idx
    }

    /// Deposit `amount` for the staker at `staker`: [`Stake::process`]
    /// applied to this pool, preserving the pool invariant.  On success
    /// the caller owes the returned transfer into the vault's custodial
    /// account.
    pub fn stake(&mut self, staker: usize, now: i64, amount: u64) -> (r: Result<u64, ErrorCode>)
        requires
            old(self).inv(),
            staker < old(self).positions@.len(),
            0 < now as int + old(self).config.lock_extend_time as int,
            0 <= now,
            now as int + old(self).config.lock_period as int <= i64::MAX as int,
            now as int + old(self).config.lock_extend_time as int <= i64::MAX as int,
            old(self).vault.total_staked as int + amount as int <= u64::MAX as int,
        ensures
            final(self).inv(),
            final(self).config == old(self).config,
            ({
                let pre = Stake {
                    stake_config: old(self).config,
                    vault: old(self).vault,
                    user_stake_info_pda: old(self).positions@[staker as int],
                };
                match r {
                    Ok(transfer) => {
                        &&& stake_error(pre, now, amount) is None
                        &&& transfer == amount
                        &&& final(self).vault == stake_step(pre, now, amount).vault
                        &&& final(self).positions@ == old(self).positions@.update(
                            staker as int,
                            stake_step(pre, now, amount).user_stake_info_pda,
                        )
                    },
                    Err(e) => {
                        &&& stake_error(pre, now, amount) == Some(e)
                        &&& final(self).vault == old(self).vault
                        &&& final(self).positions@ == old(self).positions@
                    },
                }
            }),
            vault_monotone(old(self).vault, final(self).vault),
            position_monotone(
                old(self).positions@[staker as int],
                final(self).positions@[staker as int],
            ),
    {
        let ghost pre_positions = self.positions@;
        let i = staker;
        let mut acc = Stake {
            stake_config: self.config,
            vault: self.vault,
            user_stake_info_pda: self.positions[i],
        };
        let r = acc.process(now, amount);
        self.vault = acc.vault;
        self.positions[i] = acc.user_stake_info_pda;

        proof {
            let gi = i as int;
            if r is Err {
                assert(self.positions@ =~= pre_positions);
            } else {
                lemma_sum_stakes_update(pre_positions, gi, acc.user_stake_info_pda);
                lemma_sum_snapshots_update(pre_positions, gi, acc.user_stake_info_pda);
                assert forall|j: int| 0 <= j < self.positions@.len() implies (
                #[trigger] self.positions@[j]).stake_amount <= self.vault.total_staked by {
                    if self.vault.is_open() {
                        lemma_stake_le_sum(self.positions@, j);
                    }
                }
                assert forall|j: int| 0 <= j < self.positions@.len() implies (
                #[trigger] self.positions@[j]).snapshot_amount <= self.vault.total_staked by {
                    if self.vault.is_open() {
                        lemma_stake_le_sum(self.positions@, j);
                    }
                }
                if old(self).vault.is_open() && !self.vault.is_open() {
                    // The latching deposit leaves every basis in lockstep
                    // with its principal, so the bases sum to the total
                    // the vault freezes.
                    lemma_lockstep_sums_agree(self.positions@);
                }
            }
        }
        r
    }

    /// Withdraw up to `amount` for the staker at `staker`:
    /// [`DeStake::process`] applied to this pool, preserving the pool
    /// invariant.  On success the caller owes the returned transfer out
    /// of the vault's custodial account, signed with the vault's own
    /// derived capability.
    pub fn destake(&mut self, staker: usize, now: i64, amount: u64) -> (r: Result<u64, ErrorCode>)
        requires
            old(self).inv(),
            staker < old(self).positions@.len(),
        ensures
            final(self).inv(),
            final(self).config == old(self).config,
            ({
                let pre = DeStake {
                    stake_config: old(self).config,
                    vault: old(self).vault,
                    staker_info: old(self).positions@[staker as int],
                };
                match r {
                    Ok(transfer) => {
                        &&& destake_error(pre, now) is None
                        &&& transfer == destake_amount(pre, amount)
                        &&& final(self).vault == destake_step(pre, amount).vault
                        &&& final(self).positions@ == old(self).positions@.update(
                            staker as int,
                            destake_step(pre, amount).staker_info,
                        )
                    },
                    Err(e) => {
                        &&& destake_error(pre, now) == Some(e)
                        &&& final(self).vault == old(self).vault
                        &&& final(self).positions@ == old(self).positions@
                    },
                }
            }),
            vault_monotone(old(self).vault, final(self).vault),
            position_monotone(
                old(self).positions@[staker as int],
                final(self).positions@[staker as int],
            ),
    {
        let ghost pre_positions = self.positions@;
        let i = staker;
        proof {
            if old(self).vault.is_open() {
                lemma_stake_le_sum(pre_positions, i as int);
            }
        }
        let mut acc = DeStake {
            stake_config: self.config,
            vault: self.vault,
            staker_info: self.positions[i],
        };
        let r = acc.process(now, amount);
        self.vault = acc.vault;
        self.positions[i] = acc.staker_info;

        proof {
            let gi = i as int;
            if r is Err {
                assert(self.positions@ =~= pre_positions);
            } else {
                lemma_sum_stakes_update(pre_positions, gi, acc.staker_info);
                lemma_sum_snapshots_update(pre_positions, gi, acc.staker_info);
                assert forall|j: int| 0 <= j < self.positions@.len() implies (
                #[trigger] self.positions@[j]).stake_amount <= self.vault.total_staked by {
                    if self.vault.is_open() {
                        lemma_stake_le_sum(self.positions@, j);
                    }
                }
                assert forall|j: int| 0 <= j < self.positions@.len() implies (
                #[trigger] self.positions@[j]).snapshot_amount <= self.vault.total_staked by {
                    if self.vault.is_open() {
                        lemma_stake_le_sum(self.positions@, j);
                    }
                }
            }
        }
        r
    }

    /// Claim the reward of the staker at `staker`, with `reward_balance`
    /// the caller's fresh reading of the vault's reward custodial
    /// account: [`ClaimReward::process`] applied to this pool.  In a pool
    /// that satisfies the invariant the arithmetic rejections are
    /// unreachable — the payout divides a positive total and never
    /// exceeds the reward pool.
    pub fn claim_reward(&mut self, staker: usize, now: i64, reward_balance: u64) -> (r: Result<
        u64,
        ErrorCode,
    >)
        requires
            old(self).inv(),
            staker < old(self).positions@.len(),
        ensures
            final(self).inv(),
            final(self).config == old(self).config,
            ({
                let pre = ClaimReward {
                    stake_config: old(self).config,
                    vault: old(self).vault,
                    user_stake_info_pda: old(self).positions@[staker as int],
                };
                match r {
                    Ok(transfer) => {
                        &&& claim_error(pre, now, reward_balance) is None
                        &&& transfer == claim_earned(pre, reward_balance)
                        &&& transfer <= claim_pool(pre, reward_balance)
                        &&& final(self).vault == claim_step(pre, reward_balance).vault
                        &&& final(self).positions@ == old(self).positions@.update(
                            staker as int,
                            claim_step(pre, reward_balance).user_stake_info_pda,
                        )
                    },
                    Err(e) => {
                        &&& claim_error(pre, now, reward_balance) == Some(e)
                        &&& final(self).vault == old(self).vault
                        &&& final(self).positions@ == old(self).positions@
                    },
                }
            }),
            r != Err::<u64, ErrorCode>(ErrorCode::DivideByZero),
            r != Err::<u64, ErrorCode>(ErrorCode::OverflowError),
            vault_monotone(old(self).vault, final(self).vault),
            position_monotone(
                old(self).positions@[staker as int],
                final(self).positions@[staker as int],
            ),
    {
        let ghost pre_positions = self.positions@;
        let i = staker;
        let mut acc = ClaimReward {
            stake_config: self.config,
            vault: self.vault,
            user_stake_info_pda: self.positions[i],
        };
        proof {
            if !acc.vault.is_open() {
                let pool = claim_pool(acc, reward_balance);
                lemma_earned_at_most_reward(
                    acc.user_stake_info_pda.snapshot_amount,
                    acc.vault.total_staked,
                    pool,
                );
            }
        }
        let r = acc.process(now, reward_balance);
        self.vault = acc.vault;
        self.positions[i] = acc.user_stake_info_pda;

        proof {
            let gi = i as int;
            if r is Err {
                assert(self.positions@ =~= pre_positions);
            } else {
                lemma_sum_stakes_update(pre_positions, gi, acc.user_stake_info_pda);
                lemma_sum_snapshots_update(pre_positions, gi, acc.user_stake_info_pda);
            }
        }
        r
    }
}

} // verus!
