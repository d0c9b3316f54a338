//! The node registry: the workers of the marketplace, their liveness, their
//! stake and their reputation.

pub mod error;
pub mod instructions;
pub mod node_account;

pub use error::NodeRegistryError;
pub use instructions::{
    add_earnings,
    deregister_node,
    heartbeat,
    increment_jobs_completed,
    register_node,
    stake_for_node,
    update_node_status,
};
pub use node_account::{NodeAccount, NodeAccountView, NodeStatus};
