//! Importing and authoring blocks with Aura.
use std::sync::Arc;

use vstd::prelude::*;

use crate::config::Configuration;
use crate::platform::Platform;

verus! {

/// How long a proposer may take for a block, in milliseconds.
pub const AUTHORING_DURATION_MILLIS: u64 = 500;

/// How long a slot of the parachain lasts, in seconds.
pub const SLOT_DURATION_SECS: u64 = 6;

/// What the import queue is made with, beside the block import, the telemetry session and the
/// task manager.
pub struct ImportQueueRequest<P: Platform> {
    pub client: Arc<P::Client>,
    /// Whether a block is verified against the system time.
    pub system_timestamp: bool,
    /// Whether the node cannot go on without the queue's tasks.
    pub essential_tasks: bool,
    pub prometheus_registry: Option<Arc<P::Registry>>,
}

/// Prepares the import queue of the parachain runtime, which verifies blocks against the system
/// time; making the queue never fails.
pub fn build_import_queue<P: Platform>(
    client: Arc<P::Client>,
    config: &Configuration<P>,
) -> (request: ImportQueueRequest<P>)
    ensures
        request == (ImportQueueRequest::<P> {
            client,
            system_timestamp: true,
            essential_tasks: true,
            prometheus_registry: config.prometheus_registry,
        }),
{
    ImportQueueRequest {
        client,
        system_timestamp: true,
        essential_tasks: true,
        prometheus_registry: config.shared_registry(),
    }
}

/// What authors blocks with Aura: a proposer over the client and the transaction pool, and a
/// collator that announces its blocks through the sync service.
pub struct ConsensusRequest<P: Platform> {
    pub para_client: Arc<P::Client>,
    pub block_import: P::BlockImport,
    pub prometheus_registry: Option<Arc<P::Registry>>,
    pub telemetry: Option<P::Telemetry>,
    pub relay_client: Arc<P::RelayChainInterface>,
    pub transaction_pool: Arc<P::TransactionPool>,
    pub keystore: Arc<P::Keystore>,
    pub para_id: u32,
    pub collator_key: P::CollatorPair,
    pub overseer_handle: P::OverseerHandle,
    pub sync_service: Arc<P::SyncService>,
    /// Whether proposals record the proofs of what they read.
    pub record_proofs: bool,
    /// Whether the collator adds inherents of its own to a block.
    pub own_inherents: bool,
    pub authoring_duration_millis: u64,
    pub slot_duration_secs: u64,
}

/// Prepares block authoring: a very limited time for each proposal, within a slot of the chain;
/// proposals record proofs, and no inherents are added.
pub fn start_consensus<P: Platform>(
    client: Arc<P::Client>,
    block_import: P::BlockImport,
    prometheus_registry: Option<Arc<P::Registry>>,
    telemetry: Option<P::Telemetry>,
    relay_chain_interface: Arc<P::RelayChainInterface>,
    transaction_pool: Arc<P::TransactionPool>,
    keystore: Arc<P::Keystore>,
    para_id: u32,
    collator_key: P::CollatorPair,
    overseer_handle: P::OverseerHandle,
    sync_service: Arc<P::SyncService>,
) -> (request: ConsensusRequest<P>)
    ensures
        request == (ConsensusRequest::<P> {
            para_client: client,
            block_import,
            prometheus_registry,
            telemetry,
            relay_client: relay_chain_interface,
            transaction_pool,
            keystore,
            para_id,
            collator_key,
            overseer_handle,
            sync_service,
            record_proofs: true,
            own_inherents: false,
            authoring_duration_millis: AUTHORING_DURATION_MILLIS,
            slot_duration_secs: SLOT_DURATION_SECS,
        }),
{
    ConsensusRequest {
        para_client: client,
        block_import,
        prometheus_registry,
        telemetry,
        relay_client: relay_chain_interface,
        transaction_pool,
        keystore,
        para_id,
        collator_key,
        overseer_handle,
        sync_service,
        record_proofs: true,
        own_inherents: false,
        authoring_duration_millis: AUTHORING_DURATION_MILLIS,
        slot_duration_secs: SLOT_DURATION_SECS,
    }
}

} // verus!
