use vstd::prelude::*;

verus! {

/// One staker's position in one vault: created on the first stake,
/// mutated by later stakes, destakes and claims, never deleted.  A fully
/// withdrawn position persists as a zero-stake historical record.
#[derive(Clone, Copy, Debug)]
pub struct StakeInfo {
    /// Bump seed used to generate the program address / authority.
    pub bump: [u8; 1],
    /// Absolute time from which the principal may be withdrawn.
    pub unstaked_at_time: i64,
    /// Principal currently locked in the vault.
    pub stake_amount: u64,
    /// Reward-share basis: mirrors `stake_amount` while the vault is
    /// open, then stays frozen at its value from the moment the soft cap
    /// was crossed.
    pub snapshot_amount: u64,
    /// Set by the one successful claim; never cleared.
    pub has_claimed: bool,
}

impl StakeInfo {
    /// A freshly allocated position, before its first stake.
    pub fn new(bump: u8) -> (r: StakeInfo)
        ensures
            r == (StakeInfo {
                bump: [bump],
                unstaked_at_time: 0,
                stake_amount: 0,
                snapshot_amount: 0,
                has_claimed: false,
            }),
    {
        StakeInfo { bump: [bump], unstaked_at_time: 0, stake_amount: 0, snapshot_amount: 0, has_claimed: false }
    }
}

/// A position latch can only be set: once a staker has claimed, no
/// operation ever clears the mark again.
pub open spec fn position_monotone(pre: StakeInfo, post: StakeInfo) -> bool {
    pre.has_claimed ==> post.has_claimed
}

} // verus!
