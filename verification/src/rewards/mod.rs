//! The reward pool: value accumulated for all stakers, claimed by each in
//! proportion to voting weight, at a cost that does not depend on how many
//! stakers there are.

pub mod claim;
pub mod error;
pub mod history;
pub mod reward_pool;

pub use claim::claim_rewards;
pub use error::RewardError;
pub use reward_pool::{initialize_pool, RewardPool};
