use vstd::prelude::*;

use crate::error::ErrorCode;
use crate::pubkey::Pubkey;
use crate::state::stake_config::StakeConfig;
use crate::state::vault::Vault;

verus! {

/// The state vault creation operates on.  The substrate allocates the
/// vault record at the address derived from the (configuration, reward
/// asset) pair and refuses a duplicate allocation, so a second creation
/// for the same pair never reaches this operation.
#[derive(Clone, Copy, Debug)]
pub struct CreateVault {
    pub signer: Pubkey,
    pub stake_config: StakeConfig,
    pub reward_currency_mint: Pubkey,
    pub stake_currency_mint: Pubkey,
    pub vault: Vault,
}

impl CreateVault {
    /// Initialize the freshly allocated vault: open, empty, with every
    /// latch cleared and no reward frozen.
    pub fn process(&mut self, vault_bump: u8) -> (r: Result<(), ErrorCode>)
        ensures
            r is Ok,
            final(self).vault == (Vault {
                bump: [vault_bump],
                version: old(self).vault.version,
                reward_currency_mint: old(self).reward_currency_mint,
                total_staked: 0,
                end_time: 0,
                reach_soft_cap: false,
                total_reward: 0,
                reach_tge: false,
            }),
            final(self).vault.wf(),
            final(self).vault.is_open(),
            final(self).signer == old(self).signer,
            final(self).stake_config == old(self).stake_config,
            final(self).reward_currency_mint == old(self).reward_currency_mint,
            final(self).stake_currency_mint == old(self).stake_currency_mint,
    {
        self.vault.bump = [vault_bump];
        self.vault.reward_currency_mint = self.reward_currency_mint;
        self.vault.total_staked = 0;
        self.vault.end_time = 0;
        self.vault.reach_tge = false;
        self.vault.reach_soft_cap = false;
        self.vault.total_reward = 0;

        Ok(())
    }
}

} // verus!
