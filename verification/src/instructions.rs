pub mod claim_reward;
pub mod create_vault;
pub mod destake;
pub mod initialize;
pub mod stake;

pub use claim_reward::ClaimReward;
pub use create_vault::CreateVault;
pub use destake::DeStake;
pub use initialize::Initialize;
pub use stake::Stake;
