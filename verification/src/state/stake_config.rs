use vstd::prelude::*;

use crate::constant::STAKE_CONFIG_SEED;
use crate::pubkey::Pubkey;

verus! {

/// Immutable staking policy: who owns it, which asset is staked, how long
/// deposits stay locked, how long the vault stays locked after the soft
/// cap is crossed, and the soft cap itself.  Written once and never
/// changed afterwards.
#[derive(Clone, Copy, Debug)]
pub struct StakeConfig {
    /// Bump seed used to generate the program address / authority.
    pub bump: [u8; 1],
    pub version: u8,
    /// Owner of the configuration.
    pub authority: Pubkey,
    /// Asset identifier of the token being staked.
    pub stake_currency_mint: Pubkey,
    /// Seconds a fresh deposit stays locked before it may be withdrawn.
    pub lock_period: u32,
    /// Seconds the vault stays locked once the soft cap is crossed.
    pub lock_extend_time: u32,
    /// Total stake at which the vault latches shut.
    pub soft_cap: u64,
}

impl StakeConfig {
    /// Seeds from which the substrate derives the configuration's signing
    /// capability.  Unique per (authority, staked asset) pair.
    pub fn auth_seeds(&self) -> (r: Vec<Vec<u8>>)
        ensures
            r@.len() == 4,
            r@[0]@ == STAKE_CONFIG_SEED@,
            r@[1]@ == self.authority@,
            r@[2]@ == self.stake_currency_mint@,
            r@[3]@ == self.bump@,
    {
        let mut r: Vec<Vec<u8>> = Vec::new();
        r.push(vstd::slice::slice_to_vec(STAKE_CONFIG_SEED.as_slice()));
        r.push(self.authority.to_bytes());
        r.push(self.stake_currency_mint.to_bytes());
        r.push(vstd::slice::slice_to_vec(self.bump.as_slice()));
        r
    }
}

} // verus!
