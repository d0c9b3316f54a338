//! The stake ledger: locked amounts, lock durations, and the voting weight
//! derived from both.

pub mod config;
pub mod error;
pub mod history;
pub mod instructions;
pub mod ledger;
pub mod stake_account;

pub use config::{initialize_config, StakingConfig, TierThresholds};
pub use error::StakingError;
pub use instructions::{stake, unstake};
pub use ledger::StakeLedger;
pub use stake_account::{StakeAccount, StakeTier};
