//! Bringing up a HydraDX parachain node: what is built, in which order and with which settings,
//! what ends the start early, and what the peer log records.
//!
//! The blockchain framework does the work; this crate decides. `platform` names the framework's
//! values, which are only passed on. `partial` and `node` hold the two sequences of calls as
//! stages: a stage says what the next call is made with, and takes what the call gave.
pub mod config;
pub mod consensus;
pub mod error;
pub mod executor;
pub mod factory;
pub mod identity;
pub mod network;
pub mod node;
pub mod partial;
pub mod peer_log;
pub mod peer_table;
pub mod platform;
pub mod pools;
pub mod relay;
pub mod tasks;
pub mod text;

pub use config::chain_spec;
pub use factory::ServiceFactory;
pub use identity::{extended_network_identity, network_identity, node_identity_json};
pub use partial::new_partial;
