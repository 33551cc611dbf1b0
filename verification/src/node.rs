//! Bringing up a full node.
//!
//! As with the partial components, each stage is the state between two calls into the framework.
//! A method that moves to the next stage also returns the work to be done there: the values that
//! the next calls consume.
use std::collections::BTreeMap;
use std::sync::Arc;

use vstd::prelude::*;

use crate::config::{CollatorOptions, Configuration, EthereumConfig, Role};
use crate::consensus::{start_consensus, ConsensusRequest};
use crate::error::NodeError;
use crate::network::{
    build_network, network_parts, BuildNetworkParams, BuiltNetwork, CollatorSybilResistance,
    NetworkRequest,
};
use crate::partial::{PartialComponents, PartialOutcomes};
use crate::peer_log::{PEER_EVENT_STREAM, PEER_LOG_FILE};
use crate::platform::Platform;
use crate::pools::{PoolContents, SharedPools};
use crate::relay::{build_relay_chain_interface, CollatorKeySearch, FullNodeRequest};
use crate::tasks::{
    Task, OFFCHAIN_WORKERS_GROUP, OFFCHAIN_WORKERS_TASK, PEER_DISCOVERY_TASK, PEER_EVENTS_TASK,
};

verus! {

/// How long a slot of the relay chain lasts, in seconds.
pub const RELAY_CHAIN_SLOT_DURATION_SECS: u64 = 6;

/// The configuration of the parachain node is to be prepared for a parachain.
pub struct PrepareStage<P: Platform> {
    pub polkadot_config: Configuration<P>,
    pub ethereum_config: EthereumConfig,
    pub collator_options: CollatorOptions<P>,
    pub para_id: u32,
}

/// The partial components are to be built for the prepared configuration.
pub struct ComponentsStage<P: Platform> {
    pub parachain_config: Configuration<P>,
    pub polkadot_config: Configuration<P>,
    pub ethereum_config: EthereumConfig,
    pub collator_options: CollatorOptions<P>,
    pub para_id: u32,
}

/// The components that the node runs on.
pub struct NodeComponents<P: Platform> {
    pub client: Arc<P::Client>,
    pub backend: Arc<P::Backend>,
    pub keystore_container: P::KeystoreContainer,
    pub task_manager: P::TaskManager,
    pub transaction_pool: Arc<P::TransactionPool>,
    pub block_import: P::BlockImport,
    pub telemetry: Option<P::Telemetry>,
    pub frontier_backend: Arc<P::FrontierBackend>,
}

/// The connection to the relay chain is to be made.
pub struct RelayStage<P: Platform> {
    pub parachain_config: Configuration<P>,
    pub ethereum_config: EthereumConfig,
    pub para_id: u32,
    pub components: NodeComponents<P>,
    pub import_queue: P::ImportQueue,
    pub filter_pool: BTreeMap<P::FilterKey, P::FilterPoolItem>,
    pub fee_history_cache: BTreeMap<u64, P::FeeHistoryCacheItem>,
}

/// How the connection to the relay chain is made.
pub struct RelayWork<P: Platform> {
    pub collator_keystore: P::CollatorKeystore,
    pub search: CollatorKeySearch<P>,
}

/// The connection to the relay chain.
pub struct RelayChain<P: Platform> {
    pub interface: Arc<P::RelayChainInterface>,
    pub collator_key: Option<P::CollatorPair>,
}

/// The network is to be built.
pub struct NetworkStage<P: Platform> {
    pub parachain_config: Configuration<P>,
    pub ethereum_config: EthereumConfig,
    pub para_id: u32,
    pub components: NodeComponents<P>,
    pub relay_chain: RelayChain<P>,
    pub validator: bool,
    pub filter_pool: BTreeMap<P::FilterKey, P::FilterPoolItem>,
    pub fee_history_cache: BTreeMap<u64, P::FeeHistoryCacheItem>,
}

/// The off-chain workers to run.
pub struct OffchainWorkersRequest<P: Platform> {
    pub task: Task,
    pub client: Arc<P::Client>,
    pub keystore: Option<Arc<P::Keystore>>,
    /// Whose off-chain storage the workers use.
    pub backend: Arc<P::Backend>,
    pub transaction_pool: Option<Arc<P::TransactionPool>>,
    pub network: Arc<P::Network>,
    pub is_validator: bool,
    pub enable_http_requests: bool,
    /// Whether the runtime's calls get extensions beyond the framework's.
    pub custom_extensions: bool,
}

/// What lets the network start, held back until the start ends.
pub struct HeldStarter<P: Platform> {
    starter: Arc<P::NetworkStarter>,
}

impl<P: Platform> HeldStarter<P> {
    /// What is held back.
    pub closed spec fn starter(&self) -> Arc<P::NetworkStarter> {
        self.starter
    }
}

/// What the node goes on with once it has a network.
pub struct NetworkHandles<P: Platform> {
    pub network: Arc<P::Network>,
    pub sync_service: Arc<P::SyncService>,
    pub network_starter: HeldStarter<P>,
    pub import_queue_service: P::ImportQueueService,
    pub keystore: Arc<P::Keystore>,
}

/// The off-chain workers to run, if any, and the pools to share.
pub struct SharingWork<P: Platform> {
    pub offchain_workers: Option<OffchainWorkersRequest<P>>,
    pub contents: PoolContents<P>,
    /// The client whose storage the overrides read.
    pub overrides_client: Arc<P::Client>,
}

/// The off-chain workers are to be spawned, and the pools are to be put behind their locks.
pub struct SharingStage<P: Platform> {
    pub parachain_config: Configuration<P>,
    pub ethereum_config: EthereumConfig,
    pub para_id: u32,
    pub components: NodeComponents<P>,
    pub relay_chain: RelayChain<P>,
    pub validator: bool,
    pub handles: NetworkHandles<P>,
    pub system_rpc_tx: P::SpawnTasksHandle,
    pub tx_handler_controller: P::SpawnTasksResult,
}

/// The cache of Ethereum block data is to be made.
pub struct CacheStage<P: Platform> {
    pub parachain_config: Configuration<P>,
    pub ethereum_config: EthereumConfig,
    pub para_id: u32,
    pub components: NodeComponents<P>,
    pub relay_chain: RelayChain<P>,
    pub validator: bool,
    pub handles: NetworkHandles<P>,
    pub system_rpc_tx: P::SpawnTasksHandle,
    pub tx_handler_controller: P::SpawnTasksResult,
    pub shared: SharedPools<P>,
}

/// What the cache of Ethereum block data is made with.
pub struct BlockDataCacheRequest<P: Platform> {
    pub overrides: Arc<P::StorageOverrides>,
    pub eth_log_block_cache: usize,
    pub eth_statuses_cache: usize,
    pub prometheus_registry: Option<Arc<P::Registry>>,
}

/// What the RPC is built with on each connection.
pub struct RpcDeps<P: Platform> {
    pub client: Arc<P::Client>,
    pub pool: Arc<P::TransactionPool>,
    pub backend: Arc<P::Backend>,
    pub network: Arc<P::Network>,
    pub sync: Arc<P::SyncService>,
    pub frontier_backend: Arc<P::FrontierBackend>,
    pub block_data_cache: Arc<P::BlockDataCache>,
    pub shared: SharedPools<P>,
    /// Whether transactions are converted for the runtime here.
    pub transaction_converter: bool,
    pub is_authority: bool,
    pub enable_dev_signer: bool,
    pub max_past_logs: u32,
    pub fee_history_cache_limit: u64,
    pub execute_gas_limit_multiplier: u64,
}

/// What the tasks of the service layer are spawned with.
pub struct TasksWork<P: Platform> {
    pub rpc: RpcDeps<P>,
    pub client: Arc<P::Client>,
    pub transaction_pool: Arc<P::TransactionPool>,
    pub config: Configuration<P>,
    pub keystore: Arc<P::Keystore>,
    pub backend: Arc<P::Backend>,
    pub network: Arc<P::Network>,
    pub sync_service: Arc<P::SyncService>,
    pub system_rpc_tx: P::SpawnTasksHandle,
    pub tx_handler_controller: P::SpawnTasksResult,
}

/// The tasks of the service layer are to be spawned.
pub struct TasksStage<P: Platform> {
    pub prometheus_registry: Option<Arc<P::Registry>>,
    pub fee_history_limit: u64,
    pub para_id: u32,
    pub components: NodeComponents<P>,
    pub relay_chain: RelayChain<P>,
    pub validator: bool,
    pub handles: NetworkHandles<P>,
    pub shared: SharedPools<P>,
}

/// The tasks that keep the Ethereum view of the chain up to date.
pub struct FrontierTasksRequest<P: Platform> {
    pub client: Arc<P::Client>,
    pub backend: Arc<P::Backend>,
    pub frontier_backend: Arc<P::FrontierBackend>,
    pub shared: SharedPools<P>,
    pub fee_history_limit: u64,
    pub sync_service: Arc<P::SyncService>,
}

/// The peer log to open, and the two tasks that write to it.
pub struct PeerLogRequest<P: Platform> {
    pub file: &'static str,
    /// Whether the file is made where there is none.
    pub create: bool,
    /// Whether lines go behind what the file already holds.
    pub append: bool,
    /// The name of the stream that the network's events come on.
    pub event_stream: &'static str,
    pub events_task: Task,
    pub discovery_task: Task,
    pub network: Arc<P::Network>,
}

/// The node's own tasks.
pub struct OwnTasks<P: Platform> {
    pub frontier: FrontierTasksRequest<P>,
    pub peer_log: PeerLogRequest<P>,
}

/// The tasks for the Ethereum view and the peer log are to be spawned, and the overseer of the
/// relay chain node is to be found.
pub struct OverseerStage<P: Platform> {
    pub prometheus_registry: Option<Arc<P::Registry>>,
    pub para_id: u32,
    pub components: NodeComponents<P>,
    pub relay_chain: RelayChain<P>,
    pub validator: bool,
    pub handles: NetworkHandles<P>,
}

/// How hard the node tries to recover block data that is missing.
#[derive(Clone, Copy, Debug, PartialEq, Eq, Structural)]
pub enum DARecoveryProfile {
    Collator,
    FullNode,
}

/// The tasks that follow the relay chain. They recover data through the overseer and announce
/// blocks through the sync service.
pub struct RelayTasksRequest<P: Platform> {
    pub client: Arc<P::Client>,
    pub para_id: u32,
    pub relay_chain_interface: Arc<P::RelayChainInterface>,
    pub da_recovery_profile: DARecoveryProfile,
    pub import_queue: P::ImportQueueService,
    pub relay_chain_slot_duration_secs: u64,
    pub sync_service: Arc<P::SyncService>,
}

/// The tasks that follow the relay chain are to be started.
pub struct RelayTasksStage<P: Platform> {
    pub prometheus_registry: Option<Arc<P::Registry>>,
    pub para_id: u32,
    pub components: NodeComponents<P>,
    pub relay_chain: RelayChain<P>,
    pub validator: bool,
    pub overseer_handle: P::OverseerHandle,
    pub keystore: Arc<P::Keystore>,
    pub sync_service: Arc<P::SyncService>,
    pub network_starter: HeldStarter<P>,
}

/// Block authoring is to be started.
pub struct ConsensusStage<P: Platform> {
    pub client: Arc<P::Client>,
    pub task_manager: P::TaskManager,
    pub network_starter: HeldStarter<P>,
}

/// The network is to be let go.
pub struct FinalStage<P: Platform> {
    client: Arc<P::Client>,
    task_manager: P::TaskManager,
    network_starter: HeldStarter<P>,
}

impl<P: Platform> FinalStage<P> {
    /// The node's client.
    pub closed spec fn client(&self) -> Arc<P::Client> {
        self.client
    }

    /// The manager of the node's tasks.
    pub closed spec fn task_manager(&self) -> P::TaskManager {
        self.task_manager
    }

    /// What lets the network start.
    pub closed spec fn network_starter(&self) -> HeldStarter<P> {
        self.network_starter
    }
}

/// What follows the relay chain tasks.
pub enum RelayTasksNext<P: Platform> {
    /// The node authors blocks.
    Consensus(ConsensusRequest<P>, ConsensusStage<P>),
    /// It does not.
    Final(FinalStage<P>),
}

/// Starts a node with the given parachain configuration and relay chain configuration. The first
/// of the two results is to be prepared.
pub fn start_node_impl<P: Platform>(
    parachain_config: Configuration<P>,
    polkadot_config: Configuration<P>,
    ethereum_config: EthereumConfig,
    collator_options: CollatorOptions<P>,
    para_id: u32,
) -> (start: (Configuration<P>, PrepareStage<P>))
    ensures
        start.0 == parachain_config,
        start.1 == (PrepareStage {
            polkadot_config,
            ethereum_config,
            collator_options,
            para_id,
        }),
{
    (parachain_config, PrepareStage { polkadot_config, ethereum_config, collator_options, para_id })
}

impl<P: Platform> PrepareStage<P> {
    /// The configuration was prepared.
    pub fn prepared(self, parachain_config: Configuration<P>) -> (next: ComponentsStage<P>)
        ensures
            next == (ComponentsStage {
                parachain_config,
                polkadot_config: self.polkadot_config,
                ethereum_config: self.ethereum_config,
                collator_options: self.collator_options,
                para_id: self.para_id,
            }),
    {
        ComponentsStage {
            parachain_config,
            polkadot_config: self.polkadot_config,
            ethereum_config: self.ethereum_config,
            collator_options: self.collator_options,
            para_id: self.para_id,
        }
    }
}

/// The components that the node runs on, out of the partial ones.
pub open spec fn node_components<P: Platform>(components: PartialComponents<P>) -> NodeComponents<
    P,
> {
    NodeComponents {
        client: components.client,
        backend: components.backend,
        keystore_container: components.keystore_container,
        task_manager: components.task_manager,
        transaction_pool: components.transaction_pool,
        block_import: components.other.block_import,
        telemetry: components.other.telemetry,
        frontier_backend: components.other.frontier_backend,
    }
}

impl<P: Platform> ComponentsStage<P> {
    /// The partial components were built, or could not be. The relay chain node shares the
    /// telemetry worker of this node and seals no block by itself.
    pub fn components_built(
        self,
        outcome: Result<PartialComponents<P>, NodeError<P>>,
    ) -> (next: Result<(RelayStage<P>, RelayWork<P>), NodeError<P>>)
        ensures
            match outcome {
                Ok(components) => next matches Ok((stage, work)) && {
                    &&& stage == (RelayStage {
                        parachain_config: self.parachain_config,
                        ethereum_config: self.ethereum_config,
                        para_id: self.para_id,
                        components: node_components(components),
                        import_queue: components.import_queue,
                        filter_pool: components.other.filter_pool,
                        fee_history_cache: components.other.fee_history_cache,
                    })
                    &&& work.collator_keystore == self.collator_options.keystore
                    &&& work.search.request == crate::relay::full_node_request(
                        self.polkadot_config,
                        components.other.telemetry_worker_handle,
                        self.collator_options,
                        None,
                    )
                },
                Err(error) => next == Err::<(RelayStage<P>, RelayWork<P>), NodeError<P>>(error),
            },
            match (outcome, next) {
                (Ok(partial), Ok((stage, work))) => {
                    &&& stage.components.client == partial.client
                    &&& stage.components.backend == partial.backend
                    &&& stage.components.keystore_container == partial.keystore_container
                    &&& stage.components.task_manager == partial.task_manager
                    &&& stage.components.transaction_pool == partial.transaction_pool
                    &&& stage.components.block_import == partial.other.block_import
                    &&& stage.components.telemetry == partial.other.telemetry
                    &&& stage.components.frontier_backend == partial.other.frontier_backend
                    &&& work.search.request.telemetry_worker_handle
                        == partial.other.telemetry_worker_handle
                    &&& work.search.request.relay_chain_rpc_url
                        == self.collator_options.relay_chain_rpc_url
                    &&& work.search.request.instant_seal is None
                },
                _ => true,
            },
    {
        let components = match outcome {
            Ok(components) => components,
            Err(error) => {
                return Err(error);
            },
        };
        let stage = RelayStage {
            parachain_config: self.parachain_config,
            ethereum_config: self.ethereum_config,
            para_id: self.para_id,
            components: NodeComponents {
                client: components.client,
                backend: components.backend,
                keystore_container: components.keystore_container,
                task_manager: components.task_manager,
                transaction_pool: components.transaction_pool,
                block_import: components.other.block_import,
                telemetry: components.other.telemetry,
                frontier_backend: components.other.frontier_backend,
            },
            import_queue: components.import_queue,
            filter_pool: components.other.filter_pool,
            fee_history_cache: components.other.fee_history_cache,
        };
        let (collator_keystore, search) = build_relay_chain_interface(
            self.polkadot_config,
            components.other.telemetry_worker_handle,
            self.collator_options,
            None,
        );
        Ok((stage, RelayWork { collator_keystore, search }))
    }
}

/// The request for the network of a node; Aura resists Sybil attacks.
pub open spec fn node_network_request<P: Platform>(
    stage: RelayStage<P>,
    relay_chain: RelayChain<P>,
) -> NetworkRequest<P> {
    crate::network::network_request(
        stage.parachain_config,
        BuildNetworkParams {
            client: stage.components.client,
            transaction_pool: stage.components.transaction_pool,
            para_id: stage.para_id,
            relay_chain_interface: relay_chain.interface,
            import_queue: stage.import_queue,
            sybil_resistance_level: CollatorSybilResistance::Resistant,
        },
    )
}

impl<P: Platform> RelayStage<P> {
    /// The connection to the relay chain was made, or could not be.
    pub fn relay_chain_ready(
        self,
        outcome: Result<RelayChain<P>, P::ApplicationError>,
    ) -> (next: Result<(NetworkStage<P>, NetworkRequest<P>), NodeError<P>>)
        ensures
            next == match outcome {
                Ok(relay_chain) => Ok::<(NetworkStage<P>, NetworkRequest<P>), NodeError<P>>(
                    (
                        (NetworkStage {
                            parachain_config: self.parachain_config,
                            ethereum_config: self.ethereum_config,
                            para_id: self.para_id,
                            components: self.components,
                            relay_chain,
                            validator: self.parachain_config.role == Role::Authority,
                            filter_pool: self.filter_pool,
                            fee_history_cache: self.fee_history_cache,
                        }),
                        node_network_request(self, relay_chain),
                    ),
                ),
                Err(error) => Err(NodeError::Application(error)),
            },
            next matches Ok((_, request)) ==> {
                &&& request.client == self.components.client
                &&& request.transaction_pool == self.components.transaction_pool
                &&& request.import_queue == self.import_queue
                &&& !request.on_demand && !request.block_announce_validator && !request.warp_sync
                &&& request.enable_metrics <==> self.parachain_config.prometheus_registry is Some
                &&& request.sybil_resistance_level == CollatorSybilResistance::Resistant
            },
    {
        let relay_chain = match outcome {
            Ok(relay_chain) => relay_chain,
            Err(error) => {
                return Err(NodeError::Application(error));
            },
        };
        let validator = self.parachain_config.role.is_authority();
        let request = build_network(
            &self.parachain_config,
            BuildNetworkParams {
                client: self.components.client.clone(),
                transaction_pool: self.components.transaction_pool.clone(),
                para_id: self.para_id,
                relay_chain_interface: relay_chain.interface.clone(),
                import_queue: self.import_queue,
                sybil_resistance_level: CollatorSybilResistance::Resistant,
            },
        );
        let stage = NetworkStage {
            parachain_config: self.parachain_config,
            ethereum_config: self.ethereum_config,
            para_id: self.para_id,
            components: self.components,
            relay_chain,
            validator,
            filter_pool: self.filter_pool,
            fee_history_cache: self.fee_history_cache,
        };
        Ok((stage, request))
    }
}

/// The off-chain workers of a node: they run where they are enabled. They get the keystore and the
/// transaction pool, make no HTTP requests, and have no extensions of their own.
pub open spec fn offchain_workers_request<P: Platform>(
    config: Configuration<P>,
    components: NodeComponents<P>,
    keystore: Arc<P::Keystore>,
    network: Arc<P::Network>,
) -> Option<OffchainWorkersRequest<P>> {
    if config.offchain_worker.enabled {
        Some(
            OffchainWorkersRequest {
                task: Task { name: OFFCHAIN_WORKERS_TASK, group: Some(OFFCHAIN_WORKERS_GROUP) },
                client: components.client,
                keystore: Some(keystore),
                backend: components.backend,
                transaction_pool: Some(components.transaction_pool),
                network,
                is_validator: config.role == Role::Authority,
                enable_http_requests: false,
                custom_extensions: false,
            },
        )
    } else {
        None
    }
}

impl<P: Platform> NetworkStage<P> {
    /// The network was built, or could not be; the handle to the import queue was taken before.
    /// The pools begin as the partial components have them, and nobody subscribed yet.
    pub fn network_built(
        self,
        import_queue_service: P::ImportQueueService,
        keystore: Arc<P::Keystore>,
        outcome: Result<BuiltNetwork<P>, P::ServiceError>,
    ) -> (next: Result<(SharingStage<P>, SharingWork<P>), NodeError<P>>)
        ensures
            match outcome {
                Ok(built) => next matches Ok((stage, work)) && {
                    &&& stage.handles.network_starter.starter() == Arc::new(built.network_starter)
                    &&& stage == (SharingStage {
                        parachain_config: self.parachain_config,
                        ethereum_config: self.ethereum_config,
                        para_id: self.para_id,
                        components: self.components,
                        relay_chain: self.relay_chain,
                        validator: self.validator,
                        handles: NetworkHandles {
                            network: built.network,
                            sync_service: built.data_sync_service,
                            network_starter: stage.handles.network_starter,
                            import_queue_service,
                            keystore,
                        },
                        system_rpc_tx: built.spawn_tasks_handle,
                        tx_handler_controller: built.spawn_tasks_result,
                    })
                    &&& work.offchain_workers == offchain_workers_request(
                        self.parachain_config,
                        self.components,
                        keystore,
                        built.network,
                    )
                    &&& work.contents.notification_sinks@ == Seq::<P::NotificationSink>::empty()
                    &&& work.contents.filter_pool == self.filter_pool
                    &&& work.contents.fee_history_cache == self.fee_history_cache
                    &&& work.overrides_client == self.components.client
                },
                Err(error) => next == Err::<(SharingStage<P>, SharingWork<P>), NodeError<P>>(
                    NodeError::Service(error),
                ),
            },
            match (outcome, next) {
                (Ok(built), Ok((_, work))) => {
                    &&& work.offchain_workers is Some <==> self.parachain_config.offchain_worker.enabled
                    &&& work.offchain_workers matches Some(workers) ==> {
                        &&& !workers.enable_http_requests
                        &&& !workers.custom_extensions
                        &&& workers.keystore == Some(keystore)
                        &&& workers.transaction_pool == Some(self.components.transaction_pool)
                        &&& workers.client == self.components.client
                        &&& workers.backend == self.components.backend
                        &&& workers.network == built.network
                        &&& workers.is_validator == (self.parachain_config.role == Role::Authority)
                    }
                },
                _ => true,
            },
    {
        let (_, system_rpc_tx, network, tx_handler_controller, network_starter, sync_service) =
            match network_parts(outcome) {
            Ok(parts) => parts,
            Err(error) => {
                return Err(error);
            },
        };
        let offchain_workers = if self.parachain_config.offchain_worker.enabled {
            Some(
                OffchainWorkersRequest {
                    task: Task { name: OFFCHAIN_WORKERS_TASK, group: Some(OFFCHAIN_WORKERS_GROUP) },
                    client: self.components.client.clone(),
                    keystore: Some(keystore.clone()),
                    backend: self.components.backend.clone(),
                    transaction_pool: Some(self.components.transaction_pool.clone()),
                    network: network.clone(),
                    is_validator: self.parachain_config.role.is_authority(),
                    enable_http_requests: false,
                    custom_extensions: false,
                },
            )
        } else {
            None
        };
        let work = SharingWork {
            offchain_workers,
            contents: PoolContents {
                notification_sinks: Vec::new(),
                filter_pool: self.filter_pool,
                fee_history_cache: self.fee_history_cache,
            },
            overrides_client: self.components.client.clone(),
        };
        let stage = SharingStage {
            parachain_config: self.parachain_config,
            ethereum_config: self.ethereum_config,
            para_id: self.para_id,
            components: self.components,
            relay_chain: self.relay_chain,
            validator: self.validator,
            handles: NetworkHandles {
                network,
                sync_service,
                network_starter: HeldStarter { starter: network_starter },
                import_queue_service,
                keystore,
            },
            system_rpc_tx,
            tx_handler_controller,
        };
        Ok((stage, work))
    }
}

impl<P: Platform> SharingStage<P> {
    /// The off-chain workers run where they are to, and the pools are behind their locks.
    pub fn pools_shared(self, shared: SharedPools<P>) -> (next: (
        CacheStage<P>,
        BlockDataCacheRequest<P>,
    ))
        ensures
            next.0 == (CacheStage {
                parachain_config: self.parachain_config,
                ethereum_config: self.ethereum_config,
                para_id: self.para_id,
                components: self.components,
                relay_chain: self.relay_chain,
                validator: self.validator,
                handles: self.handles,
                system_rpc_tx: self.system_rpc_tx,
                tx_handler_controller: self.tx_handler_controller,
                shared,
            }),
            next.1 == (BlockDataCacheRequest::<P> {
                overrides: shared.overrides,
                eth_log_block_cache: self.ethereum_config.eth_log_block_cache,
                eth_statuses_cache: self.ethereum_config.eth_statuses_cache,
                prometheus_registry: self.parachain_config.prometheus_registry,
            }),
    {
        let request = BlockDataCacheRequest {
            overrides: shared.overrides.clone(),
            eth_log_block_cache: self.ethereum_config.eth_log_block_cache,
            eth_statuses_cache: self.ethereum_config.eth_statuses_cache,
            prometheus_registry: self.parachain_config.shared_registry(),
        };
        let stage = CacheStage {
            parachain_config: self.parachain_config,
            ethereum_config: self.ethereum_config,
            para_id: self.para_id,
            components: self.components,
            relay_chain: self.relay_chain,
            validator: self.validator,
            handles: self.handles,
            system_rpc_tx: self.system_rpc_tx,
            tx_handler_controller: self.tx_handler_controller,
            shared,
        };
        (stage, request)
    }
}

/// What the RPC of a node is built with.
pub open spec fn rpc_deps<P: Platform>(
    config: Configuration<P>,
    ethereum_config: EthereumConfig,
    components: NodeComponents<P>,
    network: Arc<P::Network>,
    sync: Arc<P::SyncService>,
    block_data_cache: Arc<P::BlockDataCache>,
    shared: SharedPools<P>,
) -> RpcDeps<P> {
    RpcDeps {
        client: components.client,
        pool: components.transaction_pool,
        backend: components.backend,
        network,
        sync,
        frontier_backend: components.frontier_backend,
        block_data_cache,
        shared,
        transaction_converter: true,
        is_authority: config.role == Role::Authority,
        enable_dev_signer: ethereum_config.enable_dev_signer,
        max_past_logs: ethereum_config.max_past_logs,
        fee_history_cache_limit: ethereum_config.fee_history_limit,
        execute_gas_limit_multiplier: ethereum_config.execute_gas_limit_multiplier,
    }
}

impl<P: Platform> CacheStage<P> {
    /// The cache of Ethereum block data was made.
    pub fn cache_made(self, block_data_cache: Arc<P::BlockDataCache>) -> (next: (
        TasksStage<P>,
        TasksWork<P>,
    ))
        ensures
            next.0 == (TasksStage {
                prometheus_registry: self.parachain_config.prometheus_registry,
                fee_history_limit: self.ethereum_config.fee_history_limit,
                para_id: self.para_id,
                components: self.components,
                relay_chain: self.relay_chain,
                validator: self.validator,
                handles: self.handles,
                shared: self.shared,
            }),
            next.1 == (TasksWork {
                rpc: rpc_deps(
                    self.parachain_config,
                    self.ethereum_config,
                    self.components,
                    self.handles.network,
                    self.handles.sync_service,
                    block_data_cache,
                    self.shared,
                ),
                client: self.components.client,
                transaction_pool: self.components.transaction_pool,
                config: self.parachain_config,
                keystore: self.handles.keystore,
                backend: self.components.backend,
                network: self.handles.network,
                sync_service: self.handles.sync_service,
                system_rpc_tx: self.system_rpc_tx,
                tx_handler_controller: self.tx_handler_controller,
            }),
            next.1.rpc.client == self.components.client,
            next.1.rpc.pool == self.components.transaction_pool,
            next.1.rpc.backend == self.components.backend,
            next.1.rpc.network == self.handles.network,
            next.1.rpc.sync == self.handles.sync_service,
            next.1.rpc.frontier_backend == self.components.frontier_backend,
            next.1.rpc.block_data_cache == block_data_cache,
            next.1.rpc.shared == self.shared,
            next.1.rpc.transaction_converter,
            next.1.rpc.is_authority == (self.parachain_config.role == Role::Authority),
            next.1.rpc.enable_dev_signer == self.ethereum_config.enable_dev_signer,
            next.1.rpc.max_past_logs == self.ethereum_config.max_past_logs,
            next.1.rpc.fee_history_cache_limit == self.ethereum_config.fee_history_limit,
            next.1.rpc.execute_gas_limit_multiplier
                == self.ethereum_config.execute_gas_limit_multiplier,
    {
        let config = self.parachain_config;
        let ethereum_config = self.ethereum_config;
        let prometheus_registry = config.shared_registry();
        let rpc = RpcDeps {
            client: self.components.client.clone(),
            pool: self.components.transaction_pool.clone(),
            backend: self.components.backend.clone(),
            network: self.handles.network.clone(),
            sync: self.handles.sync_service.clone(),
            frontier_backend: self.components.frontier_backend.clone(),
            block_data_cache,
            shared: self.shared.share(),
            transaction_converter: true,
            is_authority: config.role.is_authority(),
            enable_dev_signer: ethereum_config.enable_dev_signer,
            max_past_logs: ethereum_config.max_past_logs,
            fee_history_cache_limit: ethereum_config.fee_history_limit,
            execute_gas_limit_multiplier: ethereum_config.execute_gas_limit_multiplier,
        };
        let work = TasksWork {
            rpc,
            client: self.components.client.clone(),
            transaction_pool: self.components.transaction_pool.clone(),
            config,
            keystore: self.handles.keystore.clone(),
            backend: self.components.backend.clone(),
            network: self.handles.network.clone(),
            sync_service: self.handles.sync_service.clone(),
            system_rpc_tx: self.system_rpc_tx,
            tx_handler_controller: self.tx_handler_controller,
        };
        let stage = TasksStage {
            prometheus_registry,
            fee_history_limit: ethereum_config.fee_history_limit,
            para_id: self.para_id,
            components: self.components,
            relay_chain: self.relay_chain,
            validator: self.validator,
            handles: self.handles,
            shared: self.shared,
        };
        (stage, work)
    }
}

/// The peer log of a node: a file that lines are appended to, one task for the network's events
/// and one for the discovered peers, in no group.
pub open spec fn peer_log_request<P: Platform>(network: Arc<P::Network>) -> PeerLogRequest<P> {
    PeerLogRequest {
        file: PEER_LOG_FILE,
        create: true,
        append: true,
        event_stream: PEER_EVENT_STREAM,
        events_task: Task { name: PEER_EVENTS_TASK, group: None },
        discovery_task: Task { name: PEER_DISCOVERY_TASK, group: None },
        network,
    }
}

impl<P: Platform> TasksStage<P> {
    /// The tasks of the service layer were spawned, or could not be.
    pub fn tasks_spawned(self, outcome: Result<(), P::ServiceError>) -> (next: Result<
        (OverseerStage<P>, OwnTasks<P>),
        NodeError<P>,
    >)
        ensures
            match outcome {
                Ok(_) => next matches Ok((stage, work)) && {
                    &&& stage == (OverseerStage {
                        prometheus_registry: self.prometheus_registry,
                        para_id: self.para_id,
                        components: self.components,
                        relay_chain: self.relay_chain,
                        validator: self.validator,
                        handles: self.handles,
                    })
                    &&& work.frontier == (FrontierTasksRequest::<P> {
                        client: self.components.client,
                        backend: self.components.backend,
                        frontier_backend: self.components.frontier_backend,
                        shared: self.shared,
                        fee_history_limit: self.fee_history_limit,
                        sync_service: self.handles.sync_service,
                    })
                    &&& work.peer_log == peer_log_request::<P>(self.handles.network)
                    &&& work.peer_log.file@ == "peer_info.log"@
                    &&& work.peer_log.create && work.peer_log.append
                    &&& work.peer_log.event_stream@ == "peer-logging"@
                    &&& work.peer_log.events_task.name@ == "peer-ip-logger"@
                    &&& work.peer_log.events_task.group is None
                    &&& work.peer_log.discovery_task.name@ == "peer-discovery-logger"@
                    &&& work.peer_log.discovery_task.group is None
                    &&& work.peer_log.network == self.handles.network
                },
                Err(error) => next == Err::<(OverseerStage<P>, OwnTasks<P>), NodeError<P>>(
                    NodeError::Service(error),
                ),
            },
    {
        if let Err(error) = outcome {
            return Err(NodeError::Service(error));
        }
        let frontier = FrontierTasksRequest {
            client: self.components.client.clone(),
            backend: self.components.backend.clone(),
            frontier_backend: self.components.frontier_backend.clone(),
            shared: self.shared,
            fee_history_limit: self.fee_history_limit,
            sync_service: self.handles.sync_service.clone(),
        };
        let peer_log = PeerLogRequest {
            file: PEER_LOG_FILE,
            create: true,
            append: true,
            event_stream: PEER_EVENT_STREAM,
            events_task: Task { name: PEER_EVENTS_TASK, group: None },
            discovery_task: Task { name: PEER_DISCOVERY_TASK, group: None },
            network: self.handles.network.clone(),
        };
        let stage = OverseerStage {
            prometheus_registry: self.prometheus_registry,
            para_id: self.para_id,
            components: self.components,
            relay_chain: self.relay_chain,
            validator: self.validator,
            handles: self.handles,
        };
        Ok((stage, OwnTasks { frontier, peer_log }))
    }
}

/// A node that authors blocks recovers missing data as a collator does.
pub open spec fn da_recovery_profile(validator: bool) -> DARecoveryProfile {
    if validator {
        DARecoveryProfile::Collator
    } else {
        DARecoveryProfile::FullNode
    }
}

impl<P: Platform> OverseerStage<P> {
    /// The overseer was found, or could not be.
    pub fn overseer_found(
        self,
        outcome: Result<P::OverseerHandle, P::ApplicationError>,
    ) -> (next: Result<(RelayTasksStage<P>, RelayTasksRequest<P>), NodeError<P>>)
        ensures
            next == match outcome {
                Ok(overseer_handle) => Ok::<
                    (RelayTasksStage<P>, RelayTasksRequest<P>),
                    NodeError<P>,
                >(
                    (
                        (RelayTasksStage {
                            prometheus_registry: self.prometheus_registry,
                            para_id: self.para_id,
                            components: self.components,
                            relay_chain: self.relay_chain,
                            validator: self.validator,
                            overseer_handle,
                            keystore: self.handles.keystore,
                            sync_service: self.handles.sync_service,
                            network_starter: self.handles.network_starter,
                        }),
                        (RelayTasksRequest {
                            client: self.components.client,
                            para_id: self.para_id,
                            relay_chain_interface: self.relay_chain.interface,
                            da_recovery_profile: da_recovery_profile(self.validator),
                            import_queue: self.handles.import_queue_service,
                            relay_chain_slot_duration_secs: RELAY_CHAIN_SLOT_DURATION_SECS,
                            sync_service: self.handles.sync_service,
                        }),
                    ),
                ),
                Err(error) => Err(NodeError::Application(error)),
            },
            next matches Ok((_, request)) ==> {
                &&& self.validator ==> request.da_recovery_profile == DARecoveryProfile::Collator
                &&& !self.validator ==> request.da_recovery_profile == DARecoveryProfile::FullNode
                &&& request.relay_chain_slot_duration_secs == 6
            },
    {
        let overseer_handle = match outcome {
            Ok(overseer_handle) => overseer_handle,
            Err(error) => {
                return Err(NodeError::Application(error));
            },
        };
        let request = RelayTasksRequest {
            client: self.components.client.clone(),
            para_id: self.para_id,
            relay_chain_interface: self.relay_chain.interface.clone(),
            da_recovery_profile: if self.validator {
                DARecoveryProfile::Collator
            } else {
                DARecoveryProfile::FullNode
            },
            import_queue: self.handles.import_queue_service,
            relay_chain_slot_duration_secs: RELAY_CHAIN_SLOT_DURATION_SECS,
            sync_service: self.handles.sync_service.clone(),
        };
        let stage = RelayTasksStage {
            prometheus_registry: self.prometheus_registry,
            para_id: self.para_id,
            components: self.components,
            relay_chain: self.relay_chain,
            validator: self.validator,
            overseer_handle,
            keystore: self.handles.keystore,
            sync_service: self.handles.sync_service,
            network_starter: self.handles.network_starter,
        };
        Ok((stage, request))
    }
}

impl<P: Platform> RelayTasksStage<P> {
    /// The tasks that follow the relay chain were started, or could not be. A node that authors
    /// blocks has a collator key: the command line does not allow it to have none.
    pub fn relay_tasks_started(self, outcome: Result<(), P::ServiceError>) -> (next: Result<
        RelayTasksNext<P>,
        NodeError<P>,
    >)
        requires
            outcome is Ok && self.validator ==> self.relay_chain.collator_key is Some,
        ensures
            match outcome {
                Ok(_) if self.validator => next matches Ok(
                    RelayTasksNext::Consensus(request, stage),
                ) && {
                    &&& request == (ConsensusRequest::<P> {
                        para_client: self.components.client,
                        block_import: self.components.block_import,
                        prometheus_registry: self.prometheus_registry,
                        telemetry: self.components.telemetry,
                        relay_client: self.relay_chain.interface,
                        transaction_pool: self.components.transaction_pool,
                        keystore: self.keystore,
                        para_id: self.para_id,
                        collator_key: self.relay_chain.collator_key->0,
                        overseer_handle: self.overseer_handle,
                        sync_service: self.sync_service,
                        record_proofs: true,
                        own_inherents: false,
                        authoring_duration_millis: crate::consensus::AUTHORING_DURATION_MILLIS,
                        slot_duration_secs: crate::consensus::SLOT_DURATION_SECS,
                    })
                    &&& stage == (ConsensusStage {
                        client: self.components.client,
                        task_manager: self.components.task_manager,
                        network_starter: self.network_starter,
                    })
                },
                Ok(_) => next matches Ok(RelayTasksNext::Final(stage)) && {
                    &&& stage.client() == self.components.client
                    &&& stage.task_manager() == self.components.task_manager
                    &&& stage.network_starter() == self.network_starter
                },
                Err(error) => next == Err::<RelayTasksNext<P>, NodeError<P>>(
                    NodeError::Service(error),
                ),
            },
    {
        if let Err(error) = outcome {
            return Err(NodeError::Service(error));
        }
        if self.validator {
            let request = start_consensus(
                self.components.client.clone(),
                self.components.block_import,
                self.prometheus_registry,
                self.components.telemetry,
                self.relay_chain.interface,
                self.components.transaction_pool,
                self.keystore,
                self.para_id,
                self.relay_chain.collator_key.expect(
                    "Command line arguments do not allow this. qed",
                ),
                self.overseer_handle,
                self.sync_service,
            );
            let stage = ConsensusStage {
                client: self.components.client,
                task_manager: self.components.task_manager,
                network_starter: self.network_starter,
            };
            Ok(RelayTasksNext::Consensus(request, stage))
        } else {
            Ok(
                RelayTasksNext::Final(
                    FinalStage {
                        client: self.components.client,
                        task_manager: self.components.task_manager,
                        network_starter: self.network_starter,
                    },
                ),
            )
        }
    }
}

impl<P: Platform> ConsensusStage<P> {
    /// Block authoring was started, or could not be.
    pub fn consensus_started(self, outcome: Result<(), P::ServiceError>) -> (next: Result<
        FinalStage<P>,
        NodeError<P>,
    >)
        ensures
            match outcome {
                Ok(_) => next matches Ok(stage) && {
                    &&& stage.client() == self.client
                    &&& stage.task_manager() == self.task_manager
                    &&& stage.network_starter() == self.network_starter
                },
                Err(error) => next == Err::<FinalStage<P>, NodeError<P>>(NodeError::Service(error)),
            },
    {
        match outcome {
            Ok(_) => Ok(
                FinalStage {
                    client: self.client,
                    task_manager: self.task_manager,
                    network_starter: self.network_starter,
                },
            ),
            Err(error) => Err(NodeError::Service(error)),
        }
    }
}

impl<P: Platform> FinalStage<P> {
    /// Ends the start: the network is to be let go, and the node is its tasks and its client. No
    /// other step gives out what lets the network start.
    pub fn finish(self) -> (node: (Arc<P::NetworkStarter>, (P::TaskManager, Arc<P::Client>)))
        ensures
            node.0 == self.network_starter().starter(),
            node.1.0 == self.task_manager(),
            node.1.1 == self.client(),
    {
        (self.network_starter.starter, (self.task_manager, self.client))
    }
}

/// What each call of one start gave.
pub struct NodeOutcomes<P: Platform> {
    pub parachain_config: Configuration<P>,
    pub components: Result<PartialComponents<P>, NodeError<P>>,
    pub found_key: Option<P::CollatorPair>,
    pub relay_chain: Result<RelayChain<P>, P::ApplicationError>,
    pub import_queue_service: P::ImportQueueService,
    pub keystore: Arc<P::Keystore>,
    pub network: Result<BuiltNetwork<P>, P::ServiceError>,
    pub shared: SharedPools<P>,
    pub block_data_cache: Arc<P::BlockDataCache>,
    pub tasks: Result<(), P::ServiceError>,
    pub overseer_handle: Result<P::OverseerHandle, P::ApplicationError>,
    pub relay_tasks: Result<(), P::ServiceError>,
    pub consensus: Result<(), P::ServiceError>,
}

/// The error that ends a start, if one does: that of the first call that failed. Block authoring
/// counts only where the node authors blocks.
pub open spec fn node_error<P: Platform>(outcomes: NodeOutcomes<P>) -> Option<NodeError<P>> {
    if outcomes.components is Err {
        Some(outcomes.components->Err_0)
    } else if outcomes.relay_chain is Err {
        Some(NodeError::Application(outcomes.relay_chain->Err_0))
    } else if outcomes.network is Err {
        Some(NodeError::Service(outcomes.network->Err_0))
    } else if outcomes.tasks is Err {
        Some(NodeError::Service(outcomes.tasks->Err_0))
    } else if outcomes.overseer_handle is Err {
        Some(NodeError::Application(outcomes.overseer_handle->Err_0))
    } else if outcomes.relay_tasks is Err {
        Some(NodeError::Service(outcomes.relay_tasks->Err_0))
    } else if outcomes.parachain_config.role == Role::Authority && outcomes.consensus is Err {
        Some(NodeError::Service(outcomes.consensus->Err_0))
    } else {
        None
    }
}

/// One start that met no failure: what the calls were made with, and the node.
pub struct NodeRun<P: Platform> {
    pub prepared_from: Configuration<P>,
    pub searched_keystore: P::CollatorKeystore,
    pub full_node: FullNodeRequest<P>,
    pub network: NetworkRequest<P>,
    pub sharing: SharingWork<P>,
    pub block_data_cache: BlockDataCacheRequest<P>,
    pub tasks: TasksWork<P>,
    pub frontier_tasks: FrontierTasksRequest<P>,
    pub peer_log: PeerLogRequest<P>,
    pub relay_tasks: RelayTasksRequest<P>,
    /// What block authoring was started with, where it was.
    pub consensus: Option<ConsensusRequest<P>>,
    pub network_starter: Arc<P::NetworkStarter>,
    pub node: (P::TaskManager, Arc<P::Client>),
}

/// The start that its arguments and the outcomes of the calls lead to when none fails.
pub open spec fn node_run_of<P: Platform>(
    parachain_config: Configuration<P>,
    polkadot_config: Configuration<P>,
    ethereum_config: EthereumConfig,
    collator_options: CollatorOptions<P>,
    para_id: u32,
    outcomes: NodeOutcomes<P>,
    run: NodeRun<P>,
) -> bool {
    let config = outcomes.parachain_config;
    let authority = config.role == Role::Authority;
    let partial = outcomes.components->Ok_0;
    let components = node_components(partial);
    let relay_chain = outcomes.relay_chain->Ok_0;
    let built = outcomes.network->Ok_0;
    &&& run.prepared_from == parachain_config
    &&& run.searched_keystore == collator_options.keystore
    &&& run.full_node == crate::relay::full_node_request(
        polkadot_config,
        partial.other.telemetry_worker_handle,
        collator_options,
        None,
    )
    &&& run.network == crate::network::network_request(
        config,
        BuildNetworkParams {
            client: components.client,
            transaction_pool: components.transaction_pool,
            para_id,
            relay_chain_interface: relay_chain.interface,
            import_queue: partial.import_queue,
            sybil_resistance_level: CollatorSybilResistance::Resistant,
        },
    )
    &&& run.sharing.offchain_workers == offchain_workers_request(
        config,
        components,
        outcomes.keystore,
        built.network,
    )
    &&& run.sharing.contents.notification_sinks@ == Seq::<P::NotificationSink>::empty()
    &&& run.sharing.contents.filter_pool == partial.other.filter_pool
    &&& run.sharing.contents.fee_history_cache == partial.other.fee_history_cache
    &&& run.sharing.overrides_client == components.client
    &&& run.block_data_cache == (BlockDataCacheRequest::<P> {
        overrides: outcomes.shared.overrides,
        eth_log_block_cache: ethereum_config.eth_log_block_cache,
        eth_statuses_cache: ethereum_config.eth_statuses_cache,
        prometheus_registry: config.prometheus_registry,
    })
    &&& run.tasks == (TasksWork {
        rpc: rpc_deps(
            config,
            ethereum_config,
            components,
            built.network,
            built.data_sync_service,
            outcomes.block_data_cache,
            outcomes.shared,
        ),
        client: components.client,
        transaction_pool: components.transaction_pool,
        config,
        keystore: outcomes.keystore,
        backend: components.backend,
        network: built.network,
        sync_service: built.data_sync_service,
        system_rpc_tx: built.spawn_tasks_handle,
        tx_handler_controller: built.spawn_tasks_result,
    })
    &&& run.frontier_tasks == (FrontierTasksRequest::<P> {
        client: components.client,
        backend: components.backend,
        frontier_backend: components.frontier_backend,
        shared: outcomes.shared,
        fee_history_limit: ethereum_config.fee_history_limit,
        sync_service: built.data_sync_service,
    })
    &&& run.peer_log == peer_log_request::<P>(built.network)
    &&& run.relay_tasks == (RelayTasksRequest::<P> {
        client: components.client,
        para_id,
        relay_chain_interface: relay_chain.interface,
        da_recovery_profile: da_recovery_profile(authority),
        import_queue: outcomes.import_queue_service,
        relay_chain_slot_duration_secs: RELAY_CHAIN_SLOT_DURATION_SECS,
        sync_service: built.data_sync_service,
    })
    &&& run.consensus == if authority {
        Some(
            ConsensusRequest::<P> {
                para_client: components.client,
                block_import: components.block_import,
                prometheus_registry: config.prometheus_registry,
                telemetry: components.telemetry,
                relay_client: relay_chain.interface,
                transaction_pool: components.transaction_pool,
                keystore: outcomes.keystore,
                para_id,
                collator_key: relay_chain.collator_key->0,
                overseer_handle: outcomes.overseer_handle->Ok_0,
                sync_service: built.data_sync_service,
                record_proofs: true,
                own_inherents: false,
                authoring_duration_millis: crate::consensus::AUTHORING_DURATION_MILLIS,
                slot_duration_secs: crate::consensus::SLOT_DURATION_SECS,
            },
        )
    } else {
        None
    }
    &&& run.network_starter == Arc::new(built.network_starter)
    &&& run.node == (components.task_manager, components.client)
}

/// A call that a start makes, or a set of tasks that it spawns.
#[derive(Clone, Copy, Debug, PartialEq, Eq, Structural)]
pub enum NodeCall {
    PrepareConfig,
    BuildComponents,
    LookUpCollatorKey,
    StartRelayNode,
    BuildNetwork,
    RunOffchainWorkers,
    SharePools,
    MakeBlockDataCache,
    SpawnTasks,
    SpawnFrontierTasks,
    SpawnPeerEventLog,
    SpawnPeerDiscoveryLog,
    FindOverseer,
    StartRelayTasks,
    StartConsensus,
    StartNetwork,
}

/// Where a start breaks off without an error: the keystore holds no collator key, or everything up
/// to block authoring went well and an authority has no key to author with.
pub open spec fn breaks_off<P: Platform>(outcomes: NodeOutcomes<P>) -> bool {
    ||| outcomes.components is Ok && outcomes.found_key is None
    ||| {
        &&& outcomes.components is Ok
        &&& outcomes.relay_chain is Ok
        &&& outcomes.network is Ok
        &&& outcomes.tasks is Ok
        &&& outcomes.overseer_handle is Ok
        &&& outcomes.relay_tasks is Ok
        &&& outcomes.parachain_config.role == Role::Authority
        &&& outcomes.relay_chain->Ok_0.collator_key is None
    }
}

/// The calls that connect the node, in their order, up to the first that fails.
pub open spec fn connecting_calls<P: Platform>(outcomes: NodeOutcomes<P>) -> Seq<NodeCall> {
    let built = seq![NodeCall::PrepareConfig, NodeCall::BuildComponents];
    let searched = built.push(NodeCall::LookUpCollatorKey);
    let connected = searched.push(NodeCall::StartRelayNode);
    if outcomes.components is Err {
        built
    } else if outcomes.found_key is None {
        searched
    } else if outcomes.relay_chain is Err {
        connected
    } else {
        connected.push(NodeCall::BuildNetwork)
    }
}

/// The calls up to the tasks of the service layer, once there is a network.
pub open spec fn service_calls<P: Platform>(outcomes: NodeOutcomes<P>) -> Seq<NodeCall> {
    let rest = seq![NodeCall::SharePools, NodeCall::MakeBlockDataCache, NodeCall::SpawnTasks];
    if outcomes.parachain_config.offchain_worker.enabled {
        seq![NodeCall::RunOffchainWorkers] + rest
    } else {
        rest
    }
}

/// The calls after the tasks of the service layer, up to the first that fails.
pub open spec fn final_calls<P: Platform>(outcomes: NodeOutcomes<P>) -> Seq<NodeCall> {
    let found = seq![
        NodeCall::SpawnFrontierTasks,
        NodeCall::SpawnPeerEventLog,
        NodeCall::SpawnPeerDiscoveryLog,
        NodeCall::FindOverseer,
    ];
    let followed = found.push(NodeCall::StartRelayTasks);
    let authored = followed.push(NodeCall::StartConsensus);
    if outcomes.overseer_handle is Err {
        found
    } else if outcomes.relay_tasks is Err {
        followed
    } else if outcomes.parachain_config.role != Role::Authority {
        followed.push(NodeCall::StartNetwork)
    } else if outcomes.relay_chain->Ok_0.collator_key is None {
        followed
    } else if outcomes.consensus is Err {
        authored
    } else {
        authored.push(NodeCall::StartNetwork)
    }
}

/// The calls that a start makes, in their order.
pub open spec fn calls_made<P: Platform>(outcomes: NodeOutcomes<P>) -> Seq<NodeCall> {
    let connecting = connecting_calls(outcomes);
    if outcomes.components is Err || outcomes.found_key is None || outcomes.relay_chain is Err
        || outcomes.network is Err {
        connecting
    } else if outcomes.tasks is Err {
        connecting + service_calls(outcomes)
    } else {
        connecting + service_calls(outcomes) + final_calls(outcomes)
    }
}


/// Goes through a whole start with outcomes that are already at hand, and notes each call before
/// its outcome is used.
#[verifier::rlimit(40)]
pub fn replay_start_node<P: Platform>(
    parachain_config: Configuration<P>,
    polkadot_config: Configuration<P>,
    ethereum_config: EthereumConfig,
    collator_options: CollatorOptions<P>,
    para_id: u32,
    outcomes: NodeOutcomes<P>,
    calls: &mut Vec<NodeCall>,
) -> (result: Result<NodeRun<P>, NodeError<P>>)
    requires
        !breaks_off(outcomes),
    ensures
        match node_error(outcomes) {
            Some(error) => result == Err::<NodeRun<P>, NodeError<P>>(error),
            None => result matches Ok(run) && node_run_of(
                parachain_config,
                polkadot_config,
                ethereum_config,
                collator_options,
                para_id,
                outcomes,
                run,
            ),
        },
        final(calls)@ == old(calls)@ + calls_made(outcomes),
        result is Ok <==> calls_made(outcomes).contains(NodeCall::StartNetwork),
{
    let ghost made = calls_made(outcomes);
    assert(made.contains(NodeCall::StartNetwork) <==> node_error(outcomes) is None) by {
        law_network_is_let_go_exactly_on_success(outcomes);
    }
    let (prepared_from, prepare_stage) = start_node_impl(
        parachain_config,
        polkadot_config,
        ethereum_config,
        collator_options,
        para_id,
    );
    calls.push(NodeCall::PrepareConfig);
    let components_stage = prepare_stage.prepared(outcomes.parachain_config);
    calls.push(NodeCall::BuildComponents);
    let (relay_stage, work) = match components_stage.components_built(outcomes.components) {
        Ok(next) => next,
        Err(error) => {
            assert(calls@ =~= old(calls)@ + made);
            return Err(error);
        },
    };
    let searched_keystore = work.collator_keystore;
    calls.push(NodeCall::LookUpCollatorKey);
    let full_node = work.search.key_looked_up(outcomes.found_key);
    calls.push(NodeCall::StartRelayNode);
    let (network_stage, network) = match relay_stage.relay_chain_ready(outcomes.relay_chain) {
        Ok(next) => next,
        Err(error) => {
            assert(calls@ =~= old(calls)@ + made);
            return Err(error);
        },
    };
    calls.push(NodeCall::BuildNetwork);
    assert(calls@ =~= old(calls)@ + connecting_calls(outcomes));
    let (sharing_stage, sharing) = match network_stage.network_built(
        outcomes.import_queue_service,
        outcomes.keystore,
        outcomes.network,
    ) {
        Ok(next) => next,
        Err(error) => {
            return Err(error);
        },
    };
    if sharing.offchain_workers.is_some() {
        calls.push(NodeCall::RunOffchainWorkers);
    }
    calls.push(NodeCall::SharePools);
    let (cache_stage, block_data_cache) = sharing_stage.pools_shared(outcomes.shared);
    calls.push(NodeCall::MakeBlockDataCache);
    let (tasks_stage, tasks) = cache_stage.cache_made(outcomes.block_data_cache);
    calls.push(NodeCall::SpawnTasks);
    assert(calls@ =~= old(calls)@ + (connecting_calls(outcomes) + service_calls(outcomes)));
    let (overseer_stage, own_tasks) = match tasks_stage.tasks_spawned(outcomes.tasks) {
        Ok(next) => next,
        Err(error) => {
            return Err(error);
        },
    };
    let frontier_tasks = own_tasks.frontier;
    let peer_log = own_tasks.peer_log;
    calls.push(NodeCall::SpawnFrontierTasks);
    calls.push(NodeCall::SpawnPeerEventLog);
    calls.push(NodeCall::SpawnPeerDiscoveryLog);
    calls.push(NodeCall::FindOverseer);
    let (relay_tasks_stage, relay_tasks) = match overseer_stage.overseer_found(
        outcomes.overseer_handle,
    ) {
        Ok(next) => next,
        Err(error) => {
            assert(calls@ =~= old(calls)@ + made);
            return Err(error);
        },
    };
    calls.push(NodeCall::StartRelayTasks);
    let (consensus, final_stage) = match relay_tasks_stage.relay_tasks_started(
        outcomes.relay_tasks,
    ) {
        Ok(RelayTasksNext::Consensus(request, stage)) => {
            calls.push(NodeCall::StartConsensus);
            match stage.consensus_started(outcomes.consensus) {
                Ok(next) => (Some(request), next),
                Err(error) => {
                    assert(calls@ =~= old(calls)@ + made);
                    return Err(error);
                },
            }
        },
        Ok(RelayTasksNext::Final(stage)) => (None, stage),
        Err(error) => {
            assert(calls@ =~= old(calls)@ + made);
            return Err(error);
        },
    };
    let (network_starter, node) = final_stage.finish();
    calls.push(NodeCall::StartNetwork);
    assert(calls@ =~= old(calls)@ + made);
    Ok(
        NodeRun {
            prepared_from,
            searched_keystore,
            full_node,
            network,
            sharing,
            block_data_cache,
            tasks,
            frontier_tasks,
            peer_log,
            relay_tasks,
            consensus,
            network_starter,
            node,
        },
    )
}

/// Neither block authoring nor the network is started by a call up to the tasks of the service
/// layer.
proof fn lemma_early_calls<P: Platform>(outcomes: NodeOutcomes<P>)
    ensures
        forall|i: int|
            0 <= i < connecting_calls(outcomes).len() ==> {
                let call = #[trigger] connecting_calls(outcomes)[i];
                call != NodeCall::StartNetwork && call != NodeCall::StartConsensus
            },
        forall|i: int|
            0 <= i < service_calls(outcomes).len() ==> {
                let call = #[trigger] service_calls(outcomes)[i];
                call != NodeCall::StartNetwork && call != NodeCall::StartConsensus
            },
{
}

/// Where the calls after the tasks of the service layer start the network, they do so last.
proof fn lemma_final_calls<P: Platform>(outcomes: NodeOutcomes<P>)
    ensures
        ({
            let calls = final_calls(outcomes);
            let last = calls.len() - 1;
            let authority = outcomes.parachain_config.role == Role::Authority;
            let success = outcomes.overseer_handle is Ok && outcomes.relay_tasks is Ok && (authority
                ==> outcomes.relay_chain->Ok_0.collator_key is Some && outcomes.consensus is Ok);
            &&& last >= 3
            &&& calls[last] == NodeCall::StartNetwork <==> success
            &&& forall|i: int| 0 <= i < last ==> #[trigger] calls[i] != NodeCall::StartNetwork
            &&& success && authority ==> calls[last - 1] == NodeCall::StartConsensus
                && calls[last - 2] == NodeCall::StartRelayTasks
            &&& success && !authority ==> calls[last - 1] == NodeCall::StartRelayTasks
            &&& !authority ==> forall|i: int|
                0 <= i <= last ==> #[trigger] calls[i] != NodeCall::StartConsensus
        }),
{
}

/// The network is let go exactly where the start succeeds, and then once and as the last call:
/// after the relay chain tasks, and after block authoring where the node authors blocks. A start
/// that fails or breaks off never lets it go.
pub proof fn law_network_is_let_go_exactly_on_success<P: Platform>(outcomes: NodeOutcomes<P>)
    ensures
        ({
            let calls = calls_made(outcomes);
            let last = calls.len() - 1;
            let authority = outcomes.parachain_config.role == Role::Authority;
            let success = node_error(outcomes) is None && !breaks_off(outcomes);
            &&& calls.contains(NodeCall::StartNetwork) <==> success
            &&& forall|i: int|
                0 <= i < calls.len() && #[trigger] calls[i] == NodeCall::StartNetwork ==> i == last
            &&& success && authority ==> calls[last - 1] == NodeCall::StartConsensus
                && calls[last - 2] == NodeCall::StartRelayTasks
            &&& success && !authority ==> calls[last - 1] == NodeCall::StartRelayTasks
                && !calls.contains(NodeCall::StartConsensus)
        }),
{
    let calls = calls_made(outcomes);
    let early = connecting_calls(outcomes) + service_calls(outcomes);
    let late = final_calls(outcomes);
    lemma_early_calls(outcomes);
    lemma_final_calls(outcomes);
    assert forall|i: int| 0 <= i < early.len() implies {
        let call = #[trigger] early[i];
        call != NodeCall::StartNetwork && call != NodeCall::StartConsensus
    } by {
        let split = connecting_calls(outcomes).len();
        if i < split {
            assert(early[i] == connecting_calls(outcomes)[i]);
        } else {
            assert(early[i] == service_calls(outcomes)[i - split]);
        }
    }
    if outcomes.components is Ok && outcomes.found_key is Some && outcomes.relay_chain is Ok
        && outcomes.network is Ok && outcomes.tasks is Ok {
        assert(calls == early + late);
        let split = early.len();
        assert forall|i: int| 0 <= i < calls.len() implies #[trigger] calls[i] == if i < split {
            early[i]
        } else {
            late[i - split]
        } by {}
        assert(calls[calls.len() - 1] == late[late.len() - 1]);
        assert(calls[calls.len() - 2] == late[late.len() - 2]);
        assert(calls[calls.len() - 3] == late[late.len() - 3]);
    }
}

/// One role decides everything: what the RPC, the off-chain workers and data recovery are told
/// about authoring agrees.
pub proof fn law_one_role_everywhere<P: Platform>(
    parachain_config: Configuration<P>,
    polkadot_config: Configuration<P>,
    ethereum_config: EthereumConfig,
    collator_options: CollatorOptions<P>,
    para_id: u32,
    outcomes: NodeOutcomes<P>,
    run: NodeRun<P>,
)
    requires
        node_error(outcomes) is None,
        node_run_of(
            parachain_config,
            polkadot_config,
            ethereum_config,
            collator_options,
            para_id,
            outcomes,
            run,
        ),
    ensures
        ({
            let config = outcomes.parachain_config;
            let authority = config.role == Role::Authority;
            let workers = run.sharing.offchain_workers;
            &&& run.tasks.rpc.is_authority == authority
            &&& workers is Some <==> config.offchain_worker.enabled
            &&& workers is Some ==> workers->0.is_validator == authority
            &&& run.relay_tasks.da_recovery_profile == DARecoveryProfile::Collator <==> authority
        }),
{
}

/// The RPC and the tasks that keep the Ethereum view share one set of pools and one way of reading
/// storage, over one database and with one limit on the fee history. So a block that the mapping
/// worker imports reaches every subscription.
pub proof fn law_rpc_and_ethereum_tasks_share<P: Platform>(
    parachain_config: Configuration<P>,
    polkadot_config: Configuration<P>,
    ethereum_config: EthereumConfig,
    collator_options: CollatorOptions<P>,
    para_id: u32,
    outcomes: NodeOutcomes<P>,
    run: NodeRun<P>,
)
    requires
        node_error(outcomes) is None,
        node_run_of(
            parachain_config,
            polkadot_config,
            ethereum_config,
            collator_options,
            para_id,
            outcomes,
            run,
        ),
    ensures
        run.tasks.rpc.shared == run.frontier_tasks.shared,
        run.tasks.rpc.shared == outcomes.shared,
        run.block_data_cache.overrides == run.frontier_tasks.shared.overrides,
        run.tasks.rpc.frontier_backend == run.frontier_tasks.frontier_backend,
        run.tasks.rpc.fee_history_cache_limit == ethereum_config.fee_history_limit,
        run.frontier_tasks.fee_history_limit == ethereum_config.fee_history_limit,
{
}

/// The pools that a start puts behind locks are empty, whatever the partial components were built
/// from.
pub proof fn law_pools_start_empty<P: Platform>(
    parachain_config: Configuration<P>,
    polkadot_config: Configuration<P>,
    ethereum_config: EthereumConfig,
    collator_options: CollatorOptions<P>,
    para_id: u32,
    outcomes: NodeOutcomes<P>,
    run: NodeRun<P>,
    partial_outcomes: PartialOutcomes<P>,
)
    requires
        node_error(outcomes) is None,
        node_run_of(
            parachain_config,
            polkadot_config,
            ethereum_config,
            collator_options,
            para_id,
            outcomes,
            run,
        ),
        crate::partial::components_of(outcomes.parachain_config, partial_outcomes, outcomes.components->Ok_0),
    ensures
        run.sharing.contents.is_empty(),
        run.sharing.contents.notification_sinks@.len() == 0,
        run.sharing.contents.filter_pool@.dom() == Set::<P::FilterKey>::empty(),
        run.sharing.contents.fee_history_cache@.dom() == Set::<u64>::empty(),
{
    assert(run.sharing.contents.filter_pool@.dom() =~= Set::<P::FilterKey>::empty());
    assert(run.sharing.contents.fee_history_cache@.dom() =~= Set::<u64>::empty());
}

/// Whatever a start hands the network or the sync service to, it is those of the one network that
/// was built.
pub proof fn law_one_network<P: Platform>(
    parachain_config: Configuration<P>,
    polkadot_config: Configuration<P>,
    ethereum_config: EthereumConfig,
    collator_options: CollatorOptions<P>,
    para_id: u32,
    outcomes: NodeOutcomes<P>,
    run: NodeRun<P>,
)
    requires
        node_error(outcomes) is None,
        node_run_of(
            parachain_config,
            polkadot_config,
            ethereum_config,
            collator_options,
            para_id,
            outcomes,
            run,
        ),
    ensures
        ({
            let built = outcomes.network->Ok_0;
            let workers = run.sharing.offchain_workers;
            let consensus = run.consensus;
            &&& workers is Some ==> workers->0.network == built.network
            &&& run.tasks.network == built.network
            &&& run.tasks.rpc.network == built.network
            &&& run.peer_log.network == built.network
            &&& run.tasks.sync_service == built.data_sync_service
            &&& run.tasks.rpc.sync == built.data_sync_service
            &&& run.frontier_tasks.sync_service == built.data_sync_service
            &&& run.relay_tasks.sync_service == built.data_sync_service
            &&& consensus is Some ==> consensus->0.sync_service == built.data_sync_service
            &&& *run.network_starter == built.network_starter
        }),
{
}

/// The RPC serves what the Ethereum settings say and nothing else: the development signer exactly
/// where it is asked for, and the configured limits. The cache of block data has the configured
/// sizes.
pub proof fn law_rpc_serves_the_configured_settings<P: Platform>(
    parachain_config: Configuration<P>,
    polkadot_config: Configuration<P>,
    ethereum_config: EthereumConfig,
    collator_options: CollatorOptions<P>,
    para_id: u32,
    outcomes: NodeOutcomes<P>,
    run: NodeRun<P>,
)
    requires
        node_run_of(
            parachain_config,
            polkadot_config,
            ethereum_config,
            collator_options,
            para_id,
            outcomes,
            run,
        ),
    ensures
        run.tasks.rpc.enable_dev_signer == ethereum_config.enable_dev_signer,
        run.tasks.rpc.max_past_logs == ethereum_config.max_past_logs,
        run.tasks.rpc.fee_history_cache_limit == ethereum_config.fee_history_limit,
        run.tasks.rpc.execute_gas_limit_multiplier == ethereum_config.execute_gas_limit_multiplier,
        run.tasks.rpc.is_authority == (outcomes.parachain_config.role == Role::Authority),
        run.tasks.rpc.transaction_converter,
        run.tasks.rpc.block_data_cache == outcomes.block_data_cache,
        run.block_data_cache.eth_log_block_cache == ethereum_config.eth_log_block_cache,
        run.block_data_cache.eth_statuses_cache == ethereum_config.eth_statuses_cache,
        run.block_data_cache.prometheus_registry == outcomes.parachain_config.prometheus_registry,
        run.block_data_cache.overrides == outcomes.shared.overrides,
{
}

/// Off-chain workers run exactly where they are enabled. Whatever the configuration, they make no
/// HTTP requests and have no extensions of their own, and they get the keystore and the transaction
/// pool.
pub proof fn law_offchain_workers_stay_off_the_web<P: Platform>(
    parachain_config: Configuration<P>,
    polkadot_config: Configuration<P>,
    ethereum_config: EthereumConfig,
    collator_options: CollatorOptions<P>,
    para_id: u32,
    outcomes: NodeOutcomes<P>,
    run: NodeRun<P>,
)
    requires
        node_run_of(
            parachain_config,
            polkadot_config,
            ethereum_config,
            collator_options,
            para_id,
            outcomes,
            run,
        ),
    ensures
        run.sharing.offchain_workers is Some
            <==> outcomes.parachain_config.offchain_worker.enabled,
        run.sharing.offchain_workers matches Some(workers) ==> {
            let partial = outcomes.components->Ok_0;
            &&& !workers.enable_http_requests
            &&& !workers.custom_extensions
            &&& workers.keystore == Some(outcomes.keystore)
            &&& workers.transaction_pool == Some(partial.transaction_pool)
            &&& workers.client == partial.client
            &&& workers.backend == partial.backend
            &&& workers.network == outcomes.network->Ok_0.network
            &&& workers.is_validator == (outcomes.parachain_config.role == Role::Authority)
            &&& workers.task.name@ == "offchain-workers-runner"@
            &&& workers.task.group matches Some(group) && group@ == "offchain-work"@
        },
{
}

/// The relay chain's full node shares the telemetry worker that the node holds. It keeps every
/// setting of the relay chain's configuration but for tracing, reaches the relay chain where the
/// command line says, and seals no block by itself. The keystore of the command line is searched for
/// its key.
pub proof fn law_relay_node_is_started_as_configured<P: Platform>(
    parachain_config: Configuration<P>,
    polkadot_config: Configuration<P>,
    ethereum_config: EthereumConfig,
    collator_options: CollatorOptions<P>,
    para_id: u32,
    outcomes: NodeOutcomes<P>,
    run: NodeRun<P>,
)
    requires
        node_run_of(
            parachain_config,
            polkadot_config,
            ethereum_config,
            collator_options,
            para_id,
            outcomes,
            run,
        ),
    ensures
        run.full_node.telemetry_worker_handle
            == outcomes.components->Ok_0.other.telemetry_worker_handle,
        run.full_node.relay_chain_rpc_url == collator_options.relay_chain_rpc_url,
        run.full_node.instant_seal is None,
        run.full_node.config.tracing_targets is Default,
        run.full_node.config.tracing_receiver is Default,
        run.full_node.config.network == polkadot_config.network,
        run.full_node.config.keystore == polkadot_config.keystore,
        run.full_node.config.database == polkadot_config.database,
        run.full_node.config.informant_output_format == polkadot_config.informant_output_format,
        run.full_node.config.telemetry == polkadot_config.telemetry,
        run.full_node.config.prometheus_config == polkadot_config.prometheus_config,
        run.full_node.config.telemetry_endpoints == polkadot_config.telemetry_endpoints,
        run.full_node.config.chain_spec == polkadot_config.chain_spec,
        run.full_node.config.role == polkadot_config.role,
        run.full_node.config.base_path == polkadot_config.base_path,
        run.full_node.config.offchain_worker == polkadot_config.offchain_worker,
        run.full_node.config.state_cache_size == polkadot_config.state_cache_size,
        run.full_node.config.state_cache_child_ratio == polkadot_config.state_cache_child_ratio,
        run.full_node.config.role_full == polkadot_config.role_full,
        run.searched_keystore == collator_options.keystore,
        run.prepared_from == parachain_config,
{
}

/// The relay chain's full node has a telemetry worker to share exactly where the parachain's
/// configuration has a telemetry server, and then it is the one that the node runs.
pub proof fn law_relay_node_shares_wanted_telemetry<P: Platform>(
    parachain_config: Configuration<P>,
    polkadot_config: Configuration<P>,
    ethereum_config: EthereumConfig,
    collator_options: CollatorOptions<P>,
    para_id: u32,
    outcomes: NodeOutcomes<P>,
    run: NodeRun<P>,
    partial_outcomes: PartialOutcomes<P>,
)
    requires
        node_run_of(
            parachain_config,
            polkadot_config,
            ethereum_config,
            collator_options,
            para_id,
            outcomes,
            run,
        ),
        crate::partial::components_of(
            outcomes.parachain_config,
            partial_outcomes,
            outcomes.components->Ok_0,
        ),
    ensures
        ({
            let servers = outcomes.parachain_config.telemetry_endpoints;
            let telemetry = servers is Some && servers->0.endpoints@.len() > 0;
            &&& run.full_node.telemetry_worker_handle is Some <==> telemetry
            &&& telemetry ==> run.full_node.telemetry_worker_handle->0
                == partial_outcomes.telemetry_worker_handle
        }),
{
}

/// The network is asked for over the node's client, pool and import queue, as one that resists Sybil
/// attacks. Metrics are on exactly where there is a registry, and everything optional is off.
pub proof fn law_network_is_built_for_aura<P: Platform>(
    parachain_config: Configuration<P>,
    polkadot_config: Configuration<P>,
    ethereum_config: EthereumConfig,
    collator_options: CollatorOptions<P>,
    para_id: u32,
    outcomes: NodeOutcomes<P>,
    run: NodeRun<P>,
)
    requires
        node_run_of(
            parachain_config,
            polkadot_config,
            ethereum_config,
            collator_options,
            para_id,
            outcomes,
            run,
        ),
    ensures
        run.network.client == outcomes.components->Ok_0.client,
        run.network.transaction_pool == outcomes.components->Ok_0.transaction_pool,
        run.network.import_queue == outcomes.components->Ok_0.import_queue,
        run.network.sybil_resistance_level == CollatorSybilResistance::Resistant,
        run.network.enable_metrics
            <==> outcomes.parachain_config.prometheus_registry is Some,
        !run.network.on_demand,
        !run.network.block_announce_validator,
        !run.network.warp_sync,
{
}

/// The tasks of the service layer, the RPC and the tasks for the Ethereum view get the parts of this
/// node, and the service layer gets the prepared configuration.
pub proof fn law_service_tasks_get_the_node<P: Platform>(
    parachain_config: Configuration<P>,
    polkadot_config: Configuration<P>,
    ethereum_config: EthereumConfig,
    collator_options: CollatorOptions<P>,
    para_id: u32,
    outcomes: NodeOutcomes<P>,
    run: NodeRun<P>,
)
    requires
        node_run_of(
            parachain_config,
            polkadot_config,
            ethereum_config,
            collator_options,
            para_id,
            outcomes,
            run,
        ),
    ensures
        ({
            let partial = outcomes.components->Ok_0;
            let built = outcomes.network->Ok_0;
            &&& run.tasks.config == outcomes.parachain_config
            &&& run.tasks.client == partial.client
            &&& run.tasks.transaction_pool == partial.transaction_pool
            &&& run.tasks.backend == partial.backend
            &&& run.tasks.keystore == outcomes.keystore
            &&& run.tasks.network == built.network
            &&& run.tasks.sync_service == built.data_sync_service
            &&& run.tasks.system_rpc_tx == built.spawn_tasks_handle
            &&& run.tasks.tx_handler_controller == built.spawn_tasks_result
            &&& run.tasks.rpc.client == partial.client
            &&& run.tasks.rpc.pool == partial.transaction_pool
            &&& run.tasks.rpc.backend == partial.backend
            &&& run.tasks.rpc.network == built.network
            &&& run.tasks.rpc.sync == built.data_sync_service
            &&& run.tasks.rpc.frontier_backend == partial.other.frontier_backend
            &&& run.tasks.rpc.shared == outcomes.shared
            &&& run.frontier_tasks.client == partial.client
            &&& run.frontier_tasks.backend == partial.backend
            &&& run.frontier_tasks.frontier_backend == partial.other.frontier_backend
            &&& run.frontier_tasks.shared == outcomes.shared
            &&& run.frontier_tasks.fee_history_limit == ethereum_config.fee_history_limit
            &&& run.frontier_tasks.sync_service == built.data_sync_service
            &&& run.sharing.contents.filter_pool == partial.other.filter_pool
            &&& run.sharing.contents.fee_history_cache == partial.other.fee_history_cache
            &&& run.sharing.overrides_client == partial.client
        }),
{
}

/// The peer log goes to `peer_info.log`, behind what the file already holds. Two tasks in no group
/// write it, over the network that was built.
pub proof fn law_peer_log_is_written_by_two_tasks<P: Platform>(
    parachain_config: Configuration<P>,
    polkadot_config: Configuration<P>,
    ethereum_config: EthereumConfig,
    collator_options: CollatorOptions<P>,
    para_id: u32,
    outcomes: NodeOutcomes<P>,
    run: NodeRun<P>,
)
    requires
        node_run_of(
            parachain_config,
            polkadot_config,
            ethereum_config,
            collator_options,
            para_id,
            outcomes,
            run,
        ),
    ensures
        run.peer_log.file@ == "peer_info.log"@,
        run.peer_log.create,
        run.peer_log.append,
        run.peer_log.event_stream@ == "peer-logging"@,
        run.peer_log.events_task.name@ == "peer-ip-logger"@,
        run.peer_log.events_task.group is None,
        run.peer_log.discovery_task.name@ == "peer-discovery-logger"@,
        run.peer_log.discovery_task.group is None,
        run.peer_log.network == outcomes.network->Ok_0.network,
{
}

/// The tasks that follow the relay chain run under the given parachain id with slots of 6 seconds. A
/// node that authors blocks recovers data as a collator, any other as a full node.
pub proof fn law_relay_chain_is_followed_as_the_role_asks<P: Platform>(
    parachain_config: Configuration<P>,
    polkadot_config: Configuration<P>,
    ethereum_config: EthereumConfig,
    collator_options: CollatorOptions<P>,
    para_id: u32,
    outcomes: NodeOutcomes<P>,
    run: NodeRun<P>,
)
    requires
        node_run_of(
            parachain_config,
            polkadot_config,
            ethereum_config,
            collator_options,
            para_id,
            outcomes,
            run,
        ),
    ensures
        run.relay_tasks.client == outcomes.components->Ok_0.client,
        run.relay_tasks.para_id == para_id,
        run.relay_tasks.relay_chain_interface == outcomes.relay_chain->Ok_0.interface,
        run.relay_tasks.import_queue == outcomes.import_queue_service,
        run.relay_tasks.sync_service == outcomes.network->Ok_0.data_sync_service,
        run.relay_tasks.relay_chain_slot_duration_secs == 6,
        outcomes.parachain_config.role == Role::Authority ==> run.relay_tasks.da_recovery_profile
            == DARecoveryProfile::Collator,
        outcomes.parachain_config.role == Role::Full ==> run.relay_tasks.da_recovery_profile
            == DARecoveryProfile::FullNode,
{
}

/// Blocks are authored exactly by an authority: with the node's own parts, under the given parachain
/// id, with the key that connecting to the relay chain gave, within 500 milliseconds of a slot of 6
/// seconds, with proofs recorded and no inherents added. The node is its tasks and its client, and
/// what lets the network start is that of the built network.
pub proof fn law_authoring_is_started_as_given<P: Platform>(
    parachain_config: Configuration<P>,
    polkadot_config: Configuration<P>,
    ethereum_config: EthereumConfig,
    collator_options: CollatorOptions<P>,
    para_id: u32,
    outcomes: NodeOutcomes<P>,
    run: NodeRun<P>,
)
    requires
        node_run_of(
            parachain_config,
            polkadot_config,
            ethereum_config,
            collator_options,
            para_id,
            outcomes,
            run,
        ),
    ensures
        run.consensus is Some <==> outcomes.parachain_config.role == Role::Authority,
        run.consensus matches Some(consensus) ==> {
            let partial = outcomes.components->Ok_0;
            let relay_chain = outcomes.relay_chain->Ok_0;
            &&& consensus.para_client == partial.client
            &&& consensus.block_import == partial.other.block_import
            &&& consensus.prometheus_registry == outcomes.parachain_config.prometheus_registry
            &&& consensus.telemetry == partial.other.telemetry
            &&& consensus.relay_client == relay_chain.interface
            &&& consensus.transaction_pool == partial.transaction_pool
            &&& consensus.keystore == outcomes.keystore
            &&& consensus.para_id == para_id
            &&& relay_chain.collator_key matches Some(key) ==> consensus.collator_key == key
            &&& consensus.overseer_handle == outcomes.overseer_handle->Ok_0
            &&& consensus.sync_service == outcomes.network->Ok_0.data_sync_service
            &&& consensus.record_proofs
            &&& !consensus.own_inherents
            &&& consensus.authoring_duration_millis == 500
            &&& consensus.slot_duration_secs == 6
        },
        *run.network_starter == outcomes.network->Ok_0.network_starter,
        run.node.0 == outcomes.components->Ok_0.task_manager,
        run.node.1 == outcomes.components->Ok_0.client,
{
}

/// A start fails exactly where a call fails that it makes, and with the error of the first such
/// call, whatever the later ones would have given. Block authoring is such a call for an authority
/// alone.
pub proof fn law_first_failure_ends_the_start<P: Platform>(outcomes: NodeOutcomes<P>)
    ensures
        ({
            let error = node_error(outcomes);
            let authority = outcomes.parachain_config.role == Role::Authority;
            let connected = outcomes.components is Ok && outcomes.relay_chain is Ok;
            let joined = connected && outcomes.network is Ok;
            let serving = joined && outcomes.tasks is Ok;
            let overseen = serving && outcomes.overseer_handle is Ok;
            let following = overseen && outcomes.relay_tasks is Ok;
            &&& outcomes.components matches Err(failure) ==> error == Some(failure)
            &&& outcomes.components is Ok ==> (outcomes.relay_chain matches Err(failure) ==> error
                == Some(NodeError::<P>::Application(failure)))
            &&& connected ==> (outcomes.network matches Err(failure) ==> error == Some(
                NodeError::<P>::Service(failure),
            ))
            &&& joined ==> (outcomes.tasks matches Err(failure) ==> error == Some(
                NodeError::<P>::Service(failure),
            ))
            &&& serving ==> (outcomes.overseer_handle matches Err(failure) ==> error == Some(
                NodeError::<P>::Application(failure),
            ))
            &&& overseen ==> (outcomes.relay_tasks matches Err(failure) ==> error == Some(
                NodeError::<P>::Service(failure),
            ))
            &&& following && authority ==> (outcomes.consensus matches Err(failure) ==> error
                == Some(NodeError::<P>::Service(failure)))
            &&& following && (authority ==> outcomes.consensus is Ok) ==> error is None
        }),
{
}

/// A start breaks off without an error for two reasons only: the keystore that is searched once the
/// components are there holds no collator key, or every call up to block authoring went well and an
/// authority was given no key.
pub proof fn law_why_a_start_breaks_off<P: Platform>(outcomes: NodeOutcomes<P>)
    ensures
        outcomes.components is Err ==> !breaks_off(outcomes),
        outcomes.components is Ok && outcomes.found_key is None ==> breaks_off(outcomes),
        outcomes.found_key is Some && outcomes.parachain_config.role == Role::Full ==> !breaks_off(
            outcomes,
        ),
        outcomes.found_key is Some && (outcomes.relay_chain is Err || outcomes.network is Err
            || outcomes.tasks is Err || outcomes.overseer_handle is Err || outcomes.relay_tasks
            is Err) ==> !breaks_off(outcomes),
        outcomes.found_key is Some && outcomes.components is Ok && outcomes.network is Ok
            && outcomes.tasks is Ok && outcomes.overseer_handle is Ok && outcomes.relay_tasks is Ok
            && outcomes.parachain_config.role == Role::Authority ==> (
        outcomes.relay_chain matches Ok(relay_chain) ==> (breaks_off(outcomes)
            <==> relay_chain.collator_key is None)),
{
}

/// A start in which every call succeeds makes all of them, in this order: off-chain workers run
/// where they are enabled, blocks are authored where the node is an authority, and the network is
/// let go at the end.
pub proof fn law_a_whole_start_makes_every_call<P: Platform>(outcomes: NodeOutcomes<P>)
    requires
        outcomes.components is Ok,
        outcomes.found_key is Some,
        outcomes.relay_chain is Ok,
        outcomes.relay_chain->Ok_0.collator_key is Some,
        outcomes.network is Ok,
        outcomes.tasks is Ok,
        outcomes.overseer_handle is Ok,
        outcomes.relay_tasks is Ok,
        outcomes.consensus is Ok,
    ensures
        calls_made(outcomes) == seq![
            NodeCall::PrepareConfig,
            NodeCall::BuildComponents,
            NodeCall::LookUpCollatorKey,
            NodeCall::StartRelayNode,
            NodeCall::BuildNetwork,
        ] + (if outcomes.parachain_config.offchain_worker.enabled {
            seq![NodeCall::RunOffchainWorkers]
        } else {
            Seq::empty()
        }) + seq![
            NodeCall::SharePools,
            NodeCall::MakeBlockDataCache,
            NodeCall::SpawnTasks,
            NodeCall::SpawnFrontierTasks,
            NodeCall::SpawnPeerEventLog,
            NodeCall::SpawnPeerDiscoveryLog,
            NodeCall::FindOverseer,
            NodeCall::StartRelayTasks,
        ] + (if outcomes.parachain_config.role == Role::Authority {
            seq![NodeCall::StartConsensus]
        } else {
            Seq::empty()
        }) + seq![NodeCall::StartNetwork],
{
}

/// A call that fails is the last one that a start makes, and up to there the calls are those of a
/// start in which every call succeeds.
pub proof fn law_a_failed_start_stops_at_the_failure<P: Platform>(
    outcomes: NodeOutcomes<P>,
    whole: NodeOutcomes<P>,
)
    requires
        whole.parachain_config == outcomes.parachain_config,
        whole.components is Ok,
        whole.found_key is Some,
        whole.relay_chain is Ok,
        whole.relay_chain->Ok_0.collator_key is Some,
        whole.network is Ok,
        whole.tasks is Ok,
        whole.overseer_handle is Ok,
        whole.relay_tasks is Ok,
        whole.consensus is Ok,
    ensures
        ({
            let calls = calls_made(outcomes);
            let authority = outcomes.parachain_config.role == Role::Authority;
            let searched = outcomes.components is Ok && outcomes.found_key is Some;
            let joined = searched && outcomes.relay_chain is Ok && outcomes.network is Ok;
            let overseen = joined && outcomes.tasks is Ok && outcomes.overseer_handle is Ok;
            let following = overseen && outcomes.relay_tasks is Ok;
            let key = outcomes.relay_chain->Ok_0.collator_key;
            &&& calls.is_prefix_of(calls_made(whole))
            &&& outcomes.components is Err ==> calls.last() == NodeCall::BuildComponents
            &&& outcomes.components is Ok && outcomes.found_key is None ==> calls.last()
                == NodeCall::LookUpCollatorKey
            &&& searched && outcomes.relay_chain is Err ==> calls.last() == NodeCall::StartRelayNode
            &&& searched && outcomes.relay_chain is Ok && outcomes.network is Err ==> calls.last()
                == NodeCall::BuildNetwork
            &&& joined && outcomes.tasks is Err ==> calls.last() == NodeCall::SpawnTasks
            &&& joined && outcomes.tasks is Ok && outcomes.overseer_handle is Err ==> calls.last()
                == NodeCall::FindOverseer
            &&& overseen && outcomes.relay_tasks is Err ==> calls.last()
                == NodeCall::StartRelayTasks
            &&& following && authority && key is None ==> calls.last() == NodeCall::StartRelayTasks
            &&& following && authority && key is Some && outcomes.consensus is Err ==> calls.last()
                == NodeCall::StartConsensus
            &&& following && (authority ==> key is Some && outcomes.consensus is Ok) ==> calls.last()
                == NodeCall::StartNetwork
        }),
{
}

/// A node that authors no blocks starts no matter what block authoring would have given.
pub proof fn law_full_node_needs_no_consensus<P: Platform>(
    outcomes: NodeOutcomes<P>,
    other: NodeOutcomes<P>,
)
    requires
        outcomes.parachain_config.role == Role::Full,
        other == (NodeOutcomes { consensus: other.consensus, ..outcomes }),
    ensures
        node_error(other) == node_error(outcomes),
{
}

/// Whatever a start asks for, it asks for over the one client that the partial components hold,
/// and that client is the node's.
pub proof fn law_one_client<P: Platform>(
    parachain_config: Configuration<P>,
    polkadot_config: Configuration<P>,
    ethereum_config: EthereumConfig,
    collator_options: CollatorOptions<P>,
    para_id: u32,
    outcomes: NodeOutcomes<P>,
    run: NodeRun<P>,
)
    requires
        node_error(outcomes) is None,
        node_run_of(
            parachain_config,
            polkadot_config,
            ethereum_config,
            collator_options,
            para_id,
            outcomes,
            run,
        ),
    ensures
        run.node.1 == outcomes.components->Ok_0.client,
        run.network.client == run.node.1,
        run.sharing.offchain_workers matches Some(workers) ==> workers.client == run.node.1,
        run.sharing.overrides_client == run.node.1,
        run.tasks.client == run.node.1,
        run.tasks.rpc.client == run.node.1,
        run.frontier_tasks.client == run.node.1,
        run.relay_tasks.client == run.node.1,
        run.consensus matches Some(consensus) ==> consensus.para_client == run.node.1,
{
}

/// A start authors blocks exactly where the prepared configuration makes the node an authority,
/// and then with the key that connecting to the relay chain gave.
pub proof fn law_authorities_author<P: Platform>(
    parachain_config: Configuration<P>,
    polkadot_config: Configuration<P>,
    ethereum_config: EthereumConfig,
    collator_options: CollatorOptions<P>,
    para_id: u32,
    outcomes: NodeOutcomes<P>,
    run: NodeRun<P>,
)
    requires
        node_error(outcomes) is None,
        node_run_of(
            parachain_config,
            polkadot_config,
            ethereum_config,
            collator_options,
            para_id,
            outcomes,
            run,
        ),
        outcomes.parachain_config.role == Role::Authority
            ==> outcomes.relay_chain->Ok_0.collator_key is Some,
    ensures
        run.consensus is Some <==> outcomes.parachain_config.role == Role::Authority,
        run.consensus is Some <==> run.tasks.rpc.is_authority,
        run.consensus is Some <==> run.relay_tasks.da_recovery_profile
            == DARecoveryProfile::Collator,
        run.consensus matches Some(consensus) ==> outcomes.relay_chain->Ok_0.collator_key == Some(
            consensus.collator_key,
        ),
{
}

} // verus!
