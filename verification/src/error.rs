use vstd::prelude::*;

verus! {

/// Why a staking operation was rejected.
///
/// Every rejected operation leaves the vault and the staker position
/// exactly as they were: an error is a pure refusal, never a partial
/// mutation.  A few codes belong to checks the hosting substrate makes
/// before an operation is entered, and are declared here so the whole
/// taxonomy lives in one place.
#[derive(Clone, Copy, Debug, PartialEq, Eq, Structural)]
pub enum ErrorCode {
    /// Tokens are already staked.
    IsStaked,
    /// Tokens not staked.
    NotStaked,
    /// No tokens to stake.
    NoTokens,
    /// The staking window has closed: the soft cap was crossed and the
    /// lock-extension deadline has passed.
    VaultEnded,
    /// Rewards cannot be claimed before the soft cap has been crossed.
    VaultNotStarted,
    /// The staker's own unlock time has not passed yet.
    UnbondingTimeNotOverYet,
    /// The lock-extension deadline has not passed yet, or the reward pool
    /// has not been funded yet.
    TgeNotYetReached,
    /// A reward computation would not fit the result type.
    OverflowError,
    /// The reward computation would divide by a zero total stake.
    DivideByZero,
    /// The caller does not own the configuration it tries to act on;
    /// raised by the substrate's account validation.
    IncorrectAuthority,
    /// Tokens have already been claimed.
    AlreadyClaimed,
}

} // verus!
