//! The node's own tasks: what they are called and how they are counted.
use vstd::prelude::*;

verus! {

/// What a task runs under: its name, and the group that it is counted in if it is in one.
#[derive(Clone, Copy, Debug, PartialEq, Eq)]
pub struct Task {
    pub name: &'static str,
    pub group: Option<&'static str>,
}

/// The name of the task that sends telemetry.
pub const TELEMETRY_TASK: &'static str = "telemetry";

/// The name of the task that runs the off-chain workers.
pub const OFFCHAIN_WORKERS_TASK: &'static str = "offchain-workers-runner";

/// The group of the task that runs the off-chain workers.
pub const OFFCHAIN_WORKERS_GROUP: &'static str = "offchain-work";

/// The name of the task that logs the network's events.
pub const PEER_EVENTS_TASK: &'static str = "peer-ip-logger";

/// The name of the task that logs the discovered peers.
pub const PEER_DISCOVERY_TASK: &'static str = "peer-discovery-logger";

} // verus!
