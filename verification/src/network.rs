//! Joining the peer-to-peer network.
use std::sync::Arc;

use vstd::prelude::*;

use crate::config::Configuration;
use crate::error::NodeError;
use crate::platform::Platform;

verus! {

/// Whether the consensus of the chain keeps a single party from posing as many collators.
#[derive(Clone, Copy, Debug, PartialEq, Eq, Structural)]
pub enum CollatorSybilResistance {
    Resistant,
    Unresistant,
}

/// What the parachain's network is built from.
pub struct BuildNetworkParams<P: Platform> {
    pub client: Arc<P::Client>,
    pub transaction_pool: Arc<P::TransactionPool>,
    pub para_id: u32,
    pub relay_chain_interface: Arc<P::RelayChainInterface>,
    pub import_queue: P::ImportQueue,
    pub sybil_resistance_level: CollatorSybilResistance,
}

/// What the service layer is asked to build a network with.
pub struct NetworkRequest<P: Platform> {
    pub client: Arc<P::Client>,
    pub transaction_pool: Arc<P::TransactionPool>,
    pub import_queue: P::ImportQueue,
    pub on_demand: bool,
    pub block_announce_validator: bool,
    pub warp_sync: bool,
    pub enable_metrics: bool,
    pub sybil_resistance_level: CollatorSybilResistance,
}

/// The request for a network: metrics are on where there is a registry to report them to; on-demand
/// requests, a validator of block announcements and warp sync are left out.
pub open spec fn network_request<P: Platform>(
    parachain_config: Configuration<P>,
    params: BuildNetworkParams<P>,
) -> NetworkRequest<P> {
    NetworkRequest {
        client: params.client,
        transaction_pool: params.transaction_pool,
        import_queue: params.import_queue,
        on_demand: false,
        block_announce_validator: false,
        warp_sync: false,
        enable_metrics: parachain_config.prometheus_registry is Some,
        sybil_resistance_level: params.sybil_resistance_level,
    }
}

/// Prepares the network of the parachain node.
pub fn build_network<P: Platform>(
    parachain_config: &Configuration<P>,
    params: BuildNetworkParams<P>,
) -> (request: NetworkRequest<P>)
    ensures
        request == network_request(*parachain_config, params),
        request.client == params.client,
        request.transaction_pool == params.transaction_pool,
        request.import_queue == params.import_queue,
        !request.on_demand,
        !request.block_announce_validator,
        !request.warp_sync,
        request.enable_metrics <==> parachain_config.prometheus_registry is Some,
        request.sybil_resistance_level == params.sybil_resistance_level,
{
    NetworkRequest {
        client: params.client,
        transaction_pool: params.transaction_pool,
        import_queue: params.import_queue,
        on_demand: false,
        block_announce_validator: false,
        warp_sync: false,
        enable_metrics: parachain_config.prometheus_registry.is_some(),
        sybil_resistance_level: params.sybil_resistance_level,
    }
}

/// A network as the service layer builds it.
pub struct BuiltNetwork<P: Platform> {
    pub network: Arc<P::Network>,
    pub network_starter: P::NetworkStarter,
    pub spawn_tasks_handle: P::SpawnTasksHandle,
    pub spawn_tasks_result: P::SpawnTasksResult,
    pub data_sync_service: Arc<P::SyncService>,
}

/// The parts of a built network. The starter is there twice, shared.
pub type NetworkParts<P> = (
    Arc<<P as Platform>::NetworkStarter>,
    <P as Platform>::SpawnTasksHandle,
    Arc<<P as Platform>::Network>,
    <P as Platform>::SpawnTasksResult,
    Arc<<P as Platform>::NetworkStarter>,
    Arc<<P as Platform>::SyncService>,
);

/// Takes a network apart once the service layer built it, or could not.
pub fn network_parts<P: Platform>(outcome: Result<BuiltNetwork<P>, P::ServiceError>) -> (parts:
    Result<NetworkParts<P>, NodeError<P>>)
    ensures
        parts == match outcome {
            Ok(built) => Ok::<NetworkParts<P>, NodeError<P>>(
                (
                    Arc::new(built.network_starter),
                    built.spawn_tasks_handle,
                    built.network,
                    built.spawn_tasks_result,
                    Arc::new(built.network_starter),
                    built.data_sync_service,
                ),
            ),
            Err(error) => Err(NodeError::Service(error)),
        },
{
    match outcome {
        Ok(built) => {
            let network_starter = Arc::new(built.network_starter);
            Ok(
                (
                    network_starter.clone(),
                    built.spawn_tasks_handle,
                    built.network,
                    built.spawn_tasks_result,
                    network_starter,
                    built.data_sync_service,
                ),
            )
        },
        Err(error) => Err(NodeError::Service(error)),
    }
}

/// A network is asked for over the given client, pool and queue and at the given level of
/// resistance. Metrics are on exactly where there is a registry; everything optional is off.
pub proof fn law_network_is_asked_for_as_given<P: Platform>(
    parachain_config: Configuration<P>,
    params: BuildNetworkParams<P>,
)
    ensures
        ({
            let request = network_request(parachain_config, params);
            &&& request.client == params.client
            &&& request.transaction_pool == params.transaction_pool
            &&& request.import_queue == params.import_queue
            &&& !request.on_demand
            &&& !request.block_announce_validator
            &&& !request.warp_sync
            &&& request.enable_metrics <==> parachain_config.prometheus_registry is Some
            &&& request.sybil_resistance_level == params.sybil_resistance_level
        }),
{
}

} // verus!
