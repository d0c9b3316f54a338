//! The operations of the node registry.

use crate::identity::Pubkey;
use crate::nodes::error::NodeRegistryError;
use crate::nodes::node_account::{
    reputation_for,
    saturating_sum,
    NodeAccount,
    NodeAccountView,
    NodeStatus,
    NEUTRAL_REPUTATION,
};
use vstd::prelude::*;
use vstd::string::StrSliceExecFns;

verus! {

/// Longest node identifier, hardware hash and location, in characters.
pub const MAX_NODE_TEXT_LEN: usize = 64;

/// Shortest time between two heartbeats of a node, in seconds.
pub const MIN_HEARTBEAT_INTERVAL: i64 = 30;

/// Why `register_node` rejects a request, if it does, in the order of the
/// checks.
pub open spec fn register_rejection(
    node_id: Seq<char>,
    gpu_specs_hash: Seq<char>,
    location: Seq<char>,
) -> Option<NodeRegistryError> {
    if node_id.len() > MAX_NODE_TEXT_LEN {
        Some(NodeRegistryError::NodeIdTooLong)
    } else if gpu_specs_hash.len() > MAX_NODE_TEXT_LEN {
        Some(NodeRegistryError::InvalidGpuSpecsHash)
    } else if location.len() > MAX_NODE_TEXT_LEN {
        Some(NodeRegistryError::LocationTooLong)
    } else {
        None
    }
}

/// Why `heartbeat` rejects a request, if it does, in the order of the
/// checks.
pub open spec fn heartbeat_rejection(node: NodeAccountView, caller: Pubkey, now: i64) -> Option<
    NodeRegistryError,
> {
    if node.owner != caller {
        Some(NodeRegistryError::UnauthorizedNotOwner)
    } else if now - node.last_heartbeat < MIN_HEARTBEAT_INTERVAL {
        Some(NodeRegistryError::HeartbeatTooFrequent)
    } else {
        None
    }
}

/// Why `stake_for_node` rejects a request, if it does, in the order of the
/// checks.
pub open spec fn node_stake_rejection(node: NodeAccountView, caller: Pubkey, amount: u64) -> Option<
    NodeRegistryError,
> {
    if node.owner != caller {
        Some(NodeRegistryError::UnauthorizedNotOwner)
    } else if amount == 0 {
        Some(NodeRegistryError::InsufficientStake)
    } else {
        None
    }
}

/// Registers a node for `owner` at time `now`.
///
/// The new node is online, has no stake, no job and no earnings, and the
/// neutral reputation. Fails with the first of `register_rejection` that
/// applies: an identifier, a hardware hash or a location of more than 64
/// characters.
pub fn register_node(
    owner: Pubkey,
    node_id: String,
    gpu_specs_hash: String,
    location: String,
    now: i64,
    bump: u8,
) -> (result: Result<NodeAccount, NodeRegistryError>)
    ensures
        match result {
            Ok(node) => {
                &&& register_rejection(node_id@, gpu_specs_hash@, location@) is None
                &&& node@ == (NodeAccountView {
                    owner,
                    node_id: node_id@,
                    gpu_specs_hash: gpu_specs_hash@,
                    location: location@,
                    registered_at: now,
                    last_heartbeat: now,
                    status: NodeStatus::Online,
                    stake_amount: 0,
                    reputation_score: NEUTRAL_REPUTATION,
                    jobs_completed: 0,
                    jobs_failed: 0,
                    total_earned: 0,
                    bump,
                })
            },
            Err(e) => register_rejection(node_id@, gpu_specs_hash@, location@) == Some(e),
        },
{
    if node_id.as_str().unicode_len() > MAX_NODE_TEXT_LEN {
        return Err(NodeRegistryError::NodeIdTooLong);
    }
    if gpu_specs_hash.as_str().unicode_len() > MAX_NODE_TEXT_LEN {
        return Err(NodeRegistryError::InvalidGpuSpecsHash);
    }
    if location.as_str().unicode_len() > MAX_NODE_TEXT_LEN {
        return Err(NodeRegistryError::LocationTooLong);
    }
    Ok(
        NodeAccount {
            owner,
            node_id,
            gpu_specs_hash,
            location,
            registered_at: now,
            last_heartbeat: now,
            status: NodeStatus::Online,
            stake_amount: 0,
            reputation_score: NEUTRAL_REPUTATION,
            jobs_completed: 0,
            jobs_failed: 0,
            total_earned: 0,
            bump,
        },
    )
}

/// Sets the status of a node on behalf of its owner and stamps the time.
///
/// Fails with `UnauthorizedNotOwner`, changing nothing, exactly when
/// `caller` does not own the node.
pub fn update_node_status(
    node: &mut NodeAccount,
    caller: Pubkey,
    status: NodeStatus,
    now: i64,
) -> (result: Result<(), NodeRegistryError>)
    ensures
        match result {
            Ok(()) => {
                &&& old(node).owner == caller
                &&& final(node)@ == (NodeAccountView { status, last_heartbeat: now, ..old(node)@ })
            },
            Err(e) => {
                &&& e == NodeRegistryError::UnauthorizedNotOwner
                &&& old(node).owner != caller
                &&& final(node)@ == old(node)@
            },
        },
{
    if node.owner != caller {
        return Err(NodeRegistryError::UnauthorizedNotOwner);
    }
    node.status = status;
    node.last_heartbeat = now;
    Ok(())
}

/// Adds `amount` to the stake of a node on behalf of its owner and brings
/// the reputation up to date. The stake stops at the largest 64-bit value.
///
/// Fails, changing nothing, with `UnauthorizedNotOwner` when `caller` does
/// not own the node and with `InsufficientStake` when `amount` is zero.
pub fn stake_for_node(node: &mut NodeAccount, caller: Pubkey, amount: u64) -> (result: Result<
    (),
    NodeRegistryError,
>)
    ensures
        match result {
            Ok(()) => {
                &&& node_stake_rejection(old(node)@, caller, amount) is None
                &&& final(node)@ == (NodeAccountView {
                    stake_amount: saturating_sum(old(node).stake_amount, amount),
                    reputation_score: reputation_for(
                        old(node).jobs_completed,
                        old(node).jobs_failed,
                        saturating_sum(old(node).stake_amount, amount),
                    ) as u16,
                    ..old(node)@
                })
            },
            Err(e) => {
                &&& node_stake_rejection(old(node)@, caller, amount) == Some(e)
                &&& final(node)@ == old(node)@
            },
        },
{
    if node.owner != caller {
        return Err(NodeRegistryError::UnauthorizedNotOwner);
    }
    if amount == 0 {
        return Err(NodeRegistryError::InsufficientStake);
    }
    node.stake_amount = node.stake_amount.saturating_add(amount);
    node.update_reputation();
    Ok(())
}

/// Records a sign of life of a node at time `now` on behalf of its owner. A
/// node that was offline comes online; an online or a suspended node keeps
/// its status.
///
/// Fails, changing nothing, with `UnauthorizedNotOwner` when `caller` does
/// not own the node and with `HeartbeatTooFrequent` when less than 30
/// seconds have passed since the last heartbeat.
pub fn heartbeat(node: &mut NodeAccount, caller: Pubkey, now: i64) -> (result: Result<
    (),
    NodeRegistryError,
>)
    ensures
        match result {
            Ok(()) => {
                &&& heartbeat_rejection(old(node)@, caller, now) is None
                &&& final(node)@ == (NodeAccountView {
                    last_heartbeat: now,
                    status: if old(node).status == NodeStatus::Offline {
                        NodeStatus::Online
                    } else {
                        old(node).status
                    },
                    ..old(node)@
                })
            },
            Err(e) => {
                &&& heartbeat_rejection(old(node)@, caller, now) == Some(e)
                &&& final(node)@ == old(node)@
            },
        },
{
    if node.owner != caller {
        return Err(NodeRegistryError::UnauthorizedNotOwner);
    }
    let time_since_last: i128 = (now as i128) - (node.last_heartbeat as i128);
    if time_since_last < MIN_HEARTBEAT_INTERVAL as i128 {
        return Err(NodeRegistryError::HeartbeatTooFrequent);
    }
    node.last_heartbeat = now;
    if matches!(node.status, NodeStatus::Offline) {
        node.status = NodeStatus::Online;
    }
    Ok(())
}

/// Decides whether `caller` may remove the node from the registry: only its
/// owner may.
pub fn deregister_node(node: &NodeAccount, caller: Pubkey) -> (result: Result<
    (),
    NodeRegistryError,
>)
    ensures
        match result {
            Ok(()) => node.owner == caller,
            Err(e) => e == NodeRegistryError::UnauthorizedNotOwner && node.owner != caller,
        },
{
    if node.owner != caller {
        return Err(NodeRegistryError::UnauthorizedNotOwner);
    }
    Ok(())
}

/// Counts one more completed job for the node and brings its reputation up
/// to date.
pub fn increment_jobs_completed(node: &mut NodeAccount)
    ensures
        final(node)@ == (NodeAccountView {
            jobs_completed: saturating_sum(old(node).jobs_completed, 1),
            reputation_score: reputation_for(
                saturating_sum(old(node).jobs_completed, 1),
                old(node).jobs_failed,
                old(node).stake_amount,
            ) as u16,
            ..old(node)@
        }),
{
    node.increment_completed_jobs();
}

/// Adds `amount` to what the node has earned, stopping at the largest 64-bit
/// value.
pub fn add_earnings(node: &mut NodeAccount, amount: u64)
    ensures
        final(node)@ == (NodeAccountView {
            total_earned: saturating_sum(old(node).total_earned, amount),
            ..old(node)@
        }),
{
    node.add_earnings(amount);
}

} // verus!
