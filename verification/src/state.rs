pub mod stake_config;
pub mod stake_info;
pub mod vault;

pub use stake_config::StakeConfig;
pub use stake_info::StakeInfo;
pub use vault::Vault;
