use vstd::prelude::*;

use crate::error::ErrorCode;
use crate::pubkey::Pubkey;
use crate::state::stake_config::StakeConfig;

verus! {

/// The state configuration initialization operates on.  The substrate
/// allocates the configuration record at the address derived from the
/// staked asset and refuses a duplicate allocation, so re-initialization
/// never reaches this operation.
#[derive(Clone, Copy, Debug)]
pub struct Initialize {
    pub signer: Pubkey,
    pub stake_config: StakeConfig,
    pub stake_currency_mint: Pubkey,
}

impl Initialize {
    /// Capture the policy verbatim into the freshly allocated
    /// configuration, owned by the signer, at version 1.
    pub fn process(
        &mut self,
        lock_period: u32,
        lock_extend_time: u32,
        soft_cap: u64,
        bump: u8,
    ) -> (r: Result<(), ErrorCode>)
        ensures
            r is Ok,
            final(self).stake_config == (StakeConfig {
                bump: [bump],
                version: 1,
                authority: old(self).signer,
                stake_currency_mint: old(self).stake_currency_mint,
                lock_period,
                lock_extend_time,
                soft_cap,
            }),
            final(self).signer == old(self).signer,
            final(self).stake_currency_mint == old(self).stake_currency_mint,
    {
        self.stake_config.authority = self.signer;
        self.stake_config.stake_currency_mint = self.stake_currency_mint;
        self.stake_config.bump = [bump];
        self.stake_config.lock_period = lock_period;
        self.stake_config.version = 1;
        self.stake_config.soft_cap = soft_cap;
        self.stake_config.lock_extend_time = lock_extend_time;

        Ok(())
    }
}

} // verus!
