//! Failures of the node registry.

use vstd::prelude::*;

verus! {

/// Why a registry operation was rejected. A rejected operation changes
/// nothing.
#[derive(Clone, Copy, Debug, PartialEq, Eq, Hash, Structural)]
pub enum NodeRegistryError {
    /// The node identifier has more than 64 characters.
    NodeIdTooLong,
    /// The hash of the hardware description has more than 64 characters.
    InvalidGpuSpecsHash,
    /// The location has more than 64 characters.
    LocationTooLong,
    /// The node is not online.
    NodeNotOnline,
    /// The node is registered already.
    NodeAlreadyRegistered,
    /// The amount to stake is zero.
    InsufficientStake,
    /// The caller does not own the node.
    UnauthorizedNotOwner,
    /// The node is suspended.
    NodeSuspended,
    /// Less than 30 seconds have passed since the last heartbeat.
    HeartbeatTooFrequent,
}

} // verus!
