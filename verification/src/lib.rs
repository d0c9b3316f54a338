//! Settlement core of a compute marketplace: stake accounting, reward
//! distribution, the job lifecycle and the fee splitter.

pub mod identity;
pub mod jobs;
pub mod math;
pub mod nodes;
pub mod rewards;
pub mod splitter;
pub mod staking;
