use vstd::prelude::*;

use crate::constant::VAULT_SEED;
use crate::pubkey::Pubkey;

verus! {

/// Per-pool aggregate.  A vault starts open (`end_time == 0`); the stake
/// that crosses the soft cap latches it shut and fixes `end_time`; the
/// first successful claim after `end_time` freezes `total_reward`.
#[derive(Clone, Copy, Debug)]
pub struct Vault {
    /// Bump seed used to generate the program address / authority.
    pub bump: [u8; 1],
    pub version: u8,
    /// Asset identifier of the token paid out as reward.
    pub reward_currency_mint: Pubkey,
    /// Sum of all non-withdrawn stake while the vault is open; frozen
    /// against withdrawals (but not against further stakes) once the soft
    /// cap is crossed.
    pub total_staked: u64,
    /// 0 while the soft cap has not been reached and staking is open;
    /// afterwards the absolute lock-extension deadline.
    pub end_time: i64,
    /// Set by the stake that crosses the soft cap; never cleared.
    pub reach_soft_cap: bool,
    /// Size of the reward pool, frozen by the first successful claim;
    /// 0 until then.
    pub total_reward: u64,
    /// Set by the first successful claim; never cleared.
    pub reach_tge: bool,
}

impl Vault {
    /// Staking is open and withdrawals move freely.
    pub open spec fn is_open(self) -> bool {
        self.end_time == 0
    }

    /// Structural invariant of a vault, established at creation and
    /// preserved by every operation:
    /// the soft-cap latch and the lock-extension deadline are set
    /// together, the deadline never lies in the negative past, and the
    /// reward total is zero until the first claim freezes it.
    pub open spec fn wf(self) -> bool {
        &&& self.is_open() <==> !self.reach_soft_cap
        &&& 0 <= self.end_time
        &&& !self.reach_tge ==> self.total_reward == 0
    }

    /// Seeds from which the substrate derives the vault's own signing
    /// capability, presented for vault-originated transfers.
    /// `vault_config` is the address of the owning configuration.
    pub fn auth_seeds(&self, vault_config: &[u8]) -> (r: Vec<Vec<u8>>)
        ensures
            r@.len() == 4,
            r@[0]@ == VAULT_SEED@,
            r@[1]@ == vault_config@,
            r@[2]@ == self.reward_currency_mint@,
            r@[3]@ == self.bump@,
    {
        let mut r: Vec<Vec<u8>> = Vec::new();
        r.push(vstd::slice::slice_to_vec(VAULT_SEED.as_slice()));
        r.push(vstd::slice::slice_to_vec(vault_config));
        r.push(self.reward_currency_mint.to_bytes());
        r.push(vstd::slice::slice_to_vec(self.bump.as_slice()));
        r
    }
}

/// The vault's one-shot latches only ever move forward: `reach_soft_cap`
/// and `reach_tge` are never cleared, and `end_time` and `total_reward`,
/// once set, never change again.
pub open spec fn vault_monotone(pre: Vault, post: Vault) -> bool {
    &&& pre.reach_soft_cap ==> post.reach_soft_cap
    &&& pre.reach_tge ==> post.reach_tge
    &&& pre.end_time != 0 ==> post.end_time == pre.end_time
    &&& pre.reach_tge ==> post.total_reward == pre.total_reward
}

} // verus!
