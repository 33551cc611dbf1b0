//! The parts of a node that exist before it joins a network.
//!
//! The parts are built by calls into the blockchain framework, one after the other. Each stage
//! below is the state between two such calls: its fields hold what the next call is made with and
//! what is already there, and its method takes what the call gave and returns the next stage, or
//! the error that ends the construction.
use std::collections::BTreeMap;
use std::sync::Arc;

use vstd::prelude::*;

use crate::config::{Configuration, TelemetryEndpoints};
use crate::consensus::{build_import_queue, ImportQueueRequest};
use crate::error::NodeError;
use crate::executor::{executor_settings, ExecutorSettings};
use crate::platform::Platform;
use crate::tasks::{Task, TELEMETRY_TASK};

verus! {

/// How many messages a telemetry worker buffers.
pub const TELEMETRY_WORKER_BUFFER: usize = 16;

/// Telemetry is wanted: a worker with the given buffer and a session to the given servers are to
/// be made.
pub struct TelemetryStage<'a, P: Platform> {
    pub config: &'a Configuration<P>,
    pub worker_buffer: usize,
    pub endpoints: &'a TelemetryEndpoints<P>,
}

/// The client, its backend, the keystore and the task manager are to be made, with this executor,
/// with blocks recorded as they are imported if `record_import` says so, and with the telemetry
/// session if there is one.
pub struct ClientStage<'a, P: Platform> {
    pub config: &'a Configuration<P>,
    pub telemetry: Option<(P::TelemetryWorker, P::Telemetry)>,
    pub executor: ExecutorSettings<P>,
    pub record_import: bool,
}

/// What construction begins with.
pub enum PartialStart<'a, P: Platform> {
    Telemetry(TelemetryStage<'a, P>),
    Client(ClientStage<'a, P>),
}

/// What the framework makes together.
pub struct ClientParts<P: Platform> {
    pub client: P::Client,
    pub backend: Arc<P::Backend>,
    pub keystore_container: P::KeystoreContainer,
    pub task_manager: P::TaskManager,
}

/// The telemetry worker is to be spawned, after a handle to it was taken.
pub struct WorkerStage<'a, P: Platform> {
    pub config: &'a Configuration<P>,
    pub task: Task,
    pub telemetry: P::Telemetry,
    pub client: Arc<P::Client>,
    pub backend: Arc<P::Backend>,
    pub keystore_container: P::KeystoreContainer,
    pub task_manager: P::TaskManager,
}

/// The parts that everything after the client builds on.
pub struct Foundation<P: Platform> {
    pub client: Arc<P::Client>,
    pub backend: Arc<P::Backend>,
    pub keystore_container: P::KeystoreContainer,
    pub task_manager: P::TaskManager,
    pub telemetry: Option<P::Telemetry>,
    pub telemetry_worker_handle: Option<P::TelemetryWorkerHandle>,
}

/// What the transaction pool is made with.
pub struct PoolRequest<P: Platform> {
    pub options: Arc<P::PoolOptions>,
    /// Whether the node authors blocks.
    pub is_authority: bool,
    pub prometheus_registry: Option<Arc<P::Registry>>,
    /// Whether the node cannot go on without the pool's tasks.
    pub essential_tasks: bool,
    pub client: Arc<P::Client>,
}

/// The request for the transaction pool: it follows the configuration, over the one client.
pub open spec fn pool_request<P: Platform>(
    config: Configuration<P>,
    client: Arc<P::Client>,
) -> PoolRequest<P> {
    PoolRequest {
        options: config.transaction_pool,
        is_authority: config.role == crate::config::Role::Authority,
        prometheus_registry: config.prometheus_registry,
        essential_tasks: true,
        client,
    }
}

/// The transaction pool is to be made.
pub struct PoolStage<'a, P: Platform> {
    pub config: &'a Configuration<P>,
    pub foundation: Foundation<P>,
}

/// What follows the client: the telemetry worker where there is one, else the pool.
pub enum ClientNext<'a, P: Platform> {
    Worker(P::TelemetryWorker, WorkerStage<'a, P>),
    Pool(PoolRequest<P>, PoolStage<'a, P>),
}

/// The Ethereum block database is to be opened for the client, beside the configured database.
pub struct FrontierStage<'a, P: Platform> {
    pub config: &'a Configuration<P>,
    pub foundation: Foundation<P>,
    pub transaction_pool: Arc<P::TransactionPool>,
}

/// The block import is to be made over the client, the backend and the Ethereum block database,
/// which it fills from block `evm_since` on.
pub struct ImportStage<'a, P: Platform> {
    pub config: &'a Configuration<P>,
    pub foundation: Foundation<P>,
    pub transaction_pool: Arc<P::TransactionPool>,
    pub frontier_backend: Arc<P::FrontierBackend>,
    pub evm_since: u64,
}

/// The import queue is to be made over the block import, with the telemetry session if there is
/// one.
pub struct QueueStage<P: Platform> {
    pub foundation: Foundation<P>,
    pub transaction_pool: Arc<P::TransactionPool>,
    pub frontier_backend: Arc<P::FrontierBackend>,
    pub block_import: P::BlockImport,
}

/// What this node has beyond what every node has.
pub struct OtherComponents<P: Platform> {
    pub block_import: P::BlockImport,
    pub telemetry: Option<P::Telemetry>,
    pub telemetry_worker_handle: Option<P::TelemetryWorkerHandle>,
    pub frontier_backend: Arc<P::FrontierBackend>,
    pub filter_pool: BTreeMap<P::FilterKey, P::FilterPoolItem>,
    pub fee_history_cache: BTreeMap<u64, P::FeeHistoryCacheItem>,
}

/// The parts of a node that exist before it joins a network.
pub struct PartialComponents<P: Platform> {
    pub client: Arc<P::Client>,
    pub backend: Arc<P::Backend>,
    pub import_queue: P::ImportQueue,
    pub keystore_container: P::KeystoreContainer,
    pub task_manager: P::TaskManager,
    pub transaction_pool: Arc<P::TransactionPool>,
    pub select_chain: (),
    pub other: OtherComponents<P>,
}

/// The stage at which the client is made, for a configuration and its telemetry.
pub open spec fn client_stage<'a, P: Platform>(
    config: &'a Configuration<P>,
    telemetry: Option<(P::TelemetryWorker, P::Telemetry)>,
) -> ClientStage<'a, P> {
    ClientStage {
        config,
        telemetry,
        executor: crate::executor::executor_settings_spec(config.executor),
        record_import: true,
    }
}

/// Starts the construction of the partial components.
///
/// Use this if you don't need the full service, but just its parts in order to be able to perform
/// chain operations.
pub fn new_partial<'a, P: Platform>(config: &'a Configuration<P>) -> (start: PartialStart<'a, P>)
    ensures
        config.wants_telemetry() ==> start == PartialStart::Telemetry(
            (TelemetryStage {
                config,
                worker_buffer: TELEMETRY_WORKER_BUFFER,
                endpoints: &config.telemetry_endpoints->0,
            }),
        ),
        !config.wants_telemetry() ==> start == PartialStart::Client(client_stage(config, None)),
        start is Telemetry <==> config.telemetry_endpoints is Some
            && config.telemetry_endpoints->0.endpoints@.len() > 0,
        start matches PartialStart::Telemetry(stage) ==> {
            &&& stage.config == config
            &&& stage.worker_buffer == 16
            &&& config.telemetry_endpoints == Some(*stage.endpoints)
        },
        start matches PartialStart::Client(stage) ==> {
            &&& stage.config == config
            &&& stage.telemetry is None
            &&& stage.record_import
        },
{
    if let Some(endpoints) = &config.telemetry_endpoints {
        if !endpoints.is_empty() {
            return PartialStart::Telemetry(
                TelemetryStage { config, worker_buffer: TELEMETRY_WORKER_BUFFER, endpoints },
            );
        }
    }
    PartialStart::Client(
        ClientStage {
            config,
            telemetry: None,
            executor: executor_settings(&config.executor),
            record_import: true,
        },
    )
}

impl<'a, P: Platform> TelemetryStage<'a, P> {
    /// The worker and the session were made, or could not be.
    pub fn telemetry_made(
        self,
        outcome: Result<(P::TelemetryWorker, P::Telemetry), P::TelemetryError>,
    ) -> (next: Result<ClientStage<'a, P>, NodeError<P>>)
        ensures
            next == match outcome {
                Ok(telemetry) => Ok::<ClientStage<'a, P>, NodeError<P>>(
                    client_stage(self.config, Some(telemetry)),
                ),
                Err(error) => Err(NodeError::Telemetry(error)),
            },
            next matches Ok(stage) ==> {
                &&& stage.config == self.config
                &&& outcome == Ok::<(P::TelemetryWorker, P::Telemetry), P::TelemetryError>(
                    stage.telemetry->0,
                )
                &&& stage.telemetry is Some
                &&& stage.record_import
            },
    {
        match outcome {
            Ok(telemetry) => Ok(
                ClientStage {
                    config: self.config,
                    telemetry: Some(telemetry),
                    executor: executor_settings(&self.config.executor),
                    record_import: true,
                },
            ),
            Err(error) => Err(NodeError::Telemetry(error)),
        }
    }
}

/// Prepares the transaction pool.
fn request_pool<P: Platform>(config: &Configuration<P>, client: Arc<P::Client>) -> (request:
    PoolRequest<P>)
    ensures
        request == pool_request(*config, client),
{
    PoolRequest {
        options: config.transaction_pool.clone(),
        is_authority: config.role.is_authority(),
        prometheus_registry: config.shared_registry(),
        essential_tasks: true,
        client,
    }
}

impl<'a, P: Platform> ClientStage<'a, P> {
    /// The client and its companions were made, or could not be.
    pub fn client_made(self, outcome: Result<ClientParts<P>, P::ServiceError>) -> (next: Result<
        ClientNext<'a, P>,
        NodeError<P>,
    >)
        ensures
            match outcome {
                Ok(parts) => next matches Ok(next) && match self.telemetry {
                    Some((worker, telemetry)) => next == ClientNext::Worker(
                        worker,
                        (WorkerStage {
                            config: self.config,
                            task: Task { name: TELEMETRY_TASK, group: None },
                            telemetry,
                            client: Arc::new(parts.client),
                            backend: parts.backend,
                            keystore_container: parts.keystore_container,
                            task_manager: parts.task_manager,
                        }),
                    ),
                    None => next == ClientNext::Pool(
                        pool_request(*self.config, Arc::new(parts.client)),
                        (PoolStage {
                            config: self.config,
                            foundation: Foundation {
                                client: Arc::new(parts.client),
                                backend: parts.backend,
                                keystore_container: parts.keystore_container,
                                task_manager: parts.task_manager,
                                telemetry: None,
                                telemetry_worker_handle: None,
                            },
                        }),
                    ),
                },
                Err(error) => next == Err::<ClientNext<'a, P>, NodeError<P>>(NodeError::Service(error)),
            },
            next matches Ok(ClientNext::Pool(request, stage)) ==> {
                &&& request.options == self.config.transaction_pool
                &&& request.is_authority == (self.config.role == crate::config::Role::Authority)
                &&& request.prometheus_registry == self.config.prometheus_registry
                &&& request.essential_tasks
                &&& request.client == stage.foundation.client
            },
    {
        let parts = match outcome {
            Ok(parts) => parts,
            Err(error) => {
                return Err(NodeError::Service(error));
            },
        };
        let client = Arc::new(parts.client);
        match self.telemetry {
            Some((worker, telemetry)) => Ok(
                ClientNext::Worker(
                    worker,
                    WorkerStage {
                        config: self.config,
                        task: Task { name: TELEMETRY_TASK, group: None },
                        telemetry,
                        client,
                        backend: parts.backend,
                        keystore_container: parts.keystore_container,
                        task_manager: parts.task_manager,
                    },
                ),
            ),
            None => Ok(
                ClientNext::Pool(
                    request_pool(self.config, client.clone()),
                    PoolStage {
                        config: self.config,
                        foundation: Foundation {
                            client,
                            backend: parts.backend,
                            keystore_container: parts.keystore_container,
                            task_manager: parts.task_manager,
                            telemetry: None,
                            telemetry_worker_handle: None,
                        },
                    },
                ),
            ),
        }
    }
}

impl<'a, P: Platform> WorkerStage<'a, P> {
    /// The worker runs as a task; this is the handle that was taken before.
    pub fn worker_spawned(self, handle: P::TelemetryWorkerHandle) -> (next: (
        PoolRequest<P>,
        PoolStage<'a, P>,
    ))
        ensures
            next.0 == pool_request(*self.config, self.client),
            next.0.options == self.config.transaction_pool,
            next.0.is_authority == (self.config.role == crate::config::Role::Authority),
            next.0.prometheus_registry == self.config.prometheus_registry,
            next.0.essential_tasks,
            next.0.client == self.client,
            next.1 == (PoolStage {
                config: self.config,
                foundation: Foundation {
                    client: self.client,
                    backend: self.backend,
                    keystore_container: self.keystore_container,
                    task_manager: self.task_manager,
                    telemetry: Some(self.telemetry),
                    telemetry_worker_handle: Some(handle),
                },
            }),
    {
        let request = request_pool(self.config, self.client.clone());
        let stage = PoolStage {
            config: self.config,
            foundation: Foundation {
                client: self.client,
                backend: self.backend,
                keystore_container: self.keystore_container,
                task_manager: self.task_manager,
                telemetry: Some(self.telemetry),
                telemetry_worker_handle: Some(handle),
            },
        };
        (request, stage)
    }
}

impl<'a, P: Platform> PoolStage<'a, P> {
    /// The transaction pool was made.
    pub fn pool_made(self, transaction_pool: Arc<P::TransactionPool>) -> (next: FrontierStage<
        'a,
        P,
    >)
        ensures
            next == (FrontierStage {
                config: self.config,
                foundation: self.foundation,
                transaction_pool,
            }),
    {
        FrontierStage { config: self.config, foundation: self.foundation, transaction_pool }
    }
}

impl<'a, P: Platform> FrontierStage<'a, P> {
    /// The Ethereum block database was opened, or could not be.
    pub fn frontier_opened(
        self,
        outcome: Result<P::FrontierBackend, P::FrontierError>,
    ) -> (next: Result<ImportStage<'a, P>, NodeError<P>>)
        ensures
            next == match outcome {
                Ok(frontier_backend) => Ok::<ImportStage<'a, P>, NodeError<P>>(
                    (ImportStage {
                        config: self.config,
                        foundation: self.foundation,
                        transaction_pool: self.transaction_pool,
                        frontier_backend: Arc::new(frontier_backend),
                        evm_since: self.config.evm_since_spec(),
                    }),
                ),
                Err(error) => Err(NodeError::Frontier(error)),
            },
            next matches Ok(stage) ==> match self.config.chain_spec.extensions {
                Some(extensions) => stage.evm_since == extensions.evm_since,
                None => stage.evm_since == 1,
            },
    {
        match outcome {
            Ok(frontier_backend) => Ok(
                ImportStage {
                    config: self.config,
                    foundation: self.foundation,
                    transaction_pool: self.transaction_pool,
                    frontier_backend: Arc::new(frontier_backend),
                    evm_since: self.config.evm_since(),
                },
            ),
            Err(error) => Err(NodeError::Frontier(error)),
        }
    }
}

impl<'a, P: Platform> ImportStage<'a, P> {
    /// The block import was made; the request says what else the import queue is made with.
    pub fn block_import_made(self, block_import: P::BlockImport) -> (next: (
        QueueStage<P>,
        ImportQueueRequest<P>,
    ))
        ensures
            next.0 == (QueueStage {
                foundation: self.foundation,
                transaction_pool: self.transaction_pool,
                frontier_backend: self.frontier_backend,
                block_import,
            }),
            next.1 == (ImportQueueRequest::<P> {
                client: self.foundation.client,
                system_timestamp: true,
                essential_tasks: true,
                prometheus_registry: self.config.prometheus_registry,
            }),
    {
        let request = build_import_queue(self.foundation.client.clone(), self.config);
        let stage = QueueStage {
            foundation: self.foundation,
            transaction_pool: self.transaction_pool,
            frontier_backend: self.frontier_backend,
            block_import,
        };
        (stage, request)
    }
}

impl<P: Platform> QueueStage<P> {
    /// The import queue was made: the parts are complete. No filter is installed and no fee is
    /// remembered yet.
    pub fn queue_made(self, import_queue: P::ImportQueue) -> (components: PartialComponents<P>)
        ensures
            components.client == self.foundation.client,
            components.backend == self.foundation.backend,
            components.import_queue == import_queue,
            components.keystore_container == self.foundation.keystore_container,
            components.task_manager == self.foundation.task_manager,
            components.transaction_pool == self.transaction_pool,
            components.other.block_import == self.block_import,
            components.other.telemetry == self.foundation.telemetry,
            components.other.telemetry_worker_handle == self.foundation.telemetry_worker_handle,
            components.other.frontier_backend == self.frontier_backend,
            components.other.filter_pool@ == Map::<P::FilterKey, P::FilterPoolItem>::empty(),
            components.other.fee_history_cache@ == Map::<u64, P::FeeHistoryCacheItem>::empty(),
    {
        PartialComponents {
            client: self.foundation.client,
            backend: self.foundation.backend,
            import_queue,
            keystore_container: self.foundation.keystore_container,
            task_manager: self.foundation.task_manager,
            transaction_pool: self.transaction_pool,
            select_chain: (),
            other: OtherComponents {
                block_import: self.block_import,
                telemetry: self.foundation.telemetry,
                telemetry_worker_handle: self.foundation.telemetry_worker_handle,
                frontier_backend: self.frontier_backend,
                filter_pool: BTreeMap::new(),
                fee_history_cache: BTreeMap::new(),
            },
        }
    }
}

/// What each call of one construction gave.
pub struct PartialOutcomes<P: Platform> {
    pub telemetry: Result<(P::TelemetryWorker, P::Telemetry), P::TelemetryError>,
    pub client: Result<ClientParts<P>, P::ServiceError>,
    pub telemetry_worker_handle: P::TelemetryWorkerHandle,
    pub transaction_pool: Arc<P::TransactionPool>,
    pub frontier_backend: Result<P::FrontierBackend, P::FrontierError>,
    pub block_import: P::BlockImport,
    pub import_queue: P::ImportQueue,
}

/// The error that ends a construction, if one does: that of the first call that failed. The
/// telemetry call counts only where telemetry is wanted.
pub open spec fn partial_error<P: Platform>(
    config: Configuration<P>,
    outcomes: PartialOutcomes<P>,
) -> Option<NodeError<P>> {
    match (outcomes.telemetry, outcomes.client, outcomes.frontier_backend) {
        (Err(error), _, _) if config.wants_telemetry() => Some(NodeError::Telemetry(error)),
        (_, Err(error), _) => Some(NodeError::Service(error)),
        (_, _, Err(error)) => Some(NodeError::Frontier(error)),
        _ => None,
    }
}

/// The parts that a construction ends with when no call fails.
pub open spec fn components_of<P: Platform>(
    config: Configuration<P>,
    outcomes: PartialOutcomes<P>,
    components: PartialComponents<P>,
) -> bool {
    let parts = outcomes.client->Ok_0;
    &&& components.client == Arc::new(parts.client)
    &&& components.backend == parts.backend
    &&& components.keystore_container == parts.keystore_container
    &&& components.task_manager == parts.task_manager
    &&& components.import_queue == outcomes.import_queue
    &&& components.transaction_pool == outcomes.transaction_pool
    &&& components.other.block_import == outcomes.block_import
    &&& components.other.frontier_backend == Arc::new(outcomes.frontier_backend->Ok_0)
    &&& components.other.telemetry == if config.wants_telemetry() {
        Some(outcomes.telemetry->Ok_0.1)
    } else {
        None
    }
    &&& components.other.telemetry_worker_handle == if config.wants_telemetry() {
        Some(outcomes.telemetry_worker_handle)
    } else {
        None
    }
    &&& components.other.filter_pool@ == Map::<P::FilterKey, P::FilterPoolItem>::empty()
    &&& components.other.fee_history_cache@ == Map::<u64, P::FeeHistoryCacheItem>::empty()
}

/// One construction that met no failure: what the calls were made with, and the parts.
pub struct PartialRun<'a, P: Platform> {
    /// The buffer of the telemetry worker, where telemetry was started.
    pub worker_buffer: Option<usize>,
    /// The servers of the telemetry session, where telemetry was started.
    pub endpoints: Option<&'a TelemetryEndpoints<P>>,
    pub executor: ExecutorSettings<P>,
    pub record_import: bool,
    /// The telemetry worker and what it runs under, where one was spawned.
    pub spawned_worker: Option<(P::TelemetryWorker, Task)>,
    pub pool: PoolRequest<P>,
    pub evm_since: u64,
    pub import_queue: ImportQueueRequest<P>,
    pub components: PartialComponents<P>,
}

/// The construction that a configuration and the outcomes of the calls lead to when none fails.
pub open spec fn partial_run_of<'a, P: Platform>(
    config: &'a Configuration<P>,
    outcomes: PartialOutcomes<P>,
    run: PartialRun<'a, P>,
) -> bool {
    &&& run.worker_buffer == if config.wants_telemetry() {
        Some(TELEMETRY_WORKER_BUFFER)
    } else {
        None
    }
    &&& run.endpoints == if config.wants_telemetry() {
        Some(&config.telemetry_endpoints->0)
    } else {
        None
    }
    &&& run.executor == crate::executor::executor_settings_spec(config.executor)
    &&& run.record_import
    &&& run.spawned_worker == if config.wants_telemetry() {
        Some((outcomes.telemetry->Ok_0.0, Task { name: TELEMETRY_TASK, group: None }))
    } else {
        None
    }
    &&& run.pool == pool_request(*config, run.components.client)
    &&& run.evm_since == config.evm_since_spec()
    &&& run.import_queue == (ImportQueueRequest::<P> {
        client: run.components.client,
        system_timestamp: true,
        essential_tasks: true,
        prometheus_registry: config.prometheus_registry,
    })
    &&& components_of(*config, outcomes, run.components)
}

/// Goes through a whole construction with outcomes that are already at hand.
pub fn replay_partial<'a, P: Platform>(
    config: &'a Configuration<P>,
    outcomes: PartialOutcomes<P>,
) -> (result: Result<PartialRun<'a, P>, NodeError<P>>)
    ensures
        match partial_error(*config, outcomes) {
            Some(error) => result == Err::<PartialRun<'a, P>, NodeError<P>>(error),
            None => result matches Ok(run) && partial_run_of(config, outcomes, run),
        },
{
    let (worker_buffer, endpoints, client_stage) = match new_partial(config) {
        PartialStart::Telemetry(stage) => {
            let worker_buffer = stage.worker_buffer;
            let endpoints = stage.endpoints;
            match stage.telemetry_made(outcomes.telemetry) {
                Ok(next) => (Some(worker_buffer), Some(endpoints), next),
                Err(error) => {
                    return Err(error);
                },
            }
        },
        PartialStart::Client(stage) => (None, None, stage),
    };
    let executor = client_stage.executor.copied();
    let record_import = client_stage.record_import;
    let (spawned_worker, pool, pool_stage) = match client_stage.client_made(outcomes.client) {
        Ok(ClientNext::Worker(worker, stage)) => {
            let task = stage.task;
            let (request, next) = stage.worker_spawned(outcomes.telemetry_worker_handle);
            (Some((worker, task)), request, next)
        },
        Ok(ClientNext::Pool(request, next)) => (None, request, next),
        Err(error) => {
            return Err(error);
        },
    };
    let frontier_stage = pool_stage.pool_made(outcomes.transaction_pool);
    let import_stage = match frontier_stage.frontier_opened(outcomes.frontier_backend) {
        Ok(next) => next,
        Err(error) => {
            return Err(error);
        },
    };
    let evm_since: u64 = import_stage.evm_since;
    let (queue_stage, import_queue) = import_stage.block_import_made(outcomes.block_import);
    let components = queue_stage.queue_made(outcomes.import_queue);
    Ok(
        PartialRun {
            worker_buffer,
            endpoints,
            executor,
            record_import,
            spawned_worker,
            pool,
            evm_since,
            import_queue,
            components,
        },
    )
}

/// A node's relay chain side shares its telemetry worker exactly where telemetry is wanted, and
/// the node itself has a session exactly then.
pub proof fn law_telemetry_is_all_or_nothing<P: Platform>(
    config: Configuration<P>,
    outcomes: PartialOutcomes<P>,
    components: PartialComponents<P>,
)
    requires
        partial_error(config, outcomes) is None,
        components_of(config, outcomes, components),
    ensures
        components.other.telemetry is Some <==> config.wants_telemetry(),
        components.other.telemetry_worker_handle is Some <==> config.wants_telemetry(),
{
}

/// One telemetry task runs exactly where telemetry is wanted, in no group. It runs the worker that
/// was made with the session that the node keeps, that session goes to the configured servers, and
/// the relay chain side has the handle to the worker.
pub proof fn law_one_telemetry_task<P: Platform>(
    config: &Configuration<P>,
    outcomes: PartialOutcomes<P>,
    run: PartialRun<P>,
)
    requires
        partial_error(*config, outcomes) is None,
        partial_run_of(config, outcomes, run),
    ensures
        run.spawned_worker is Some <==> config.wants_telemetry(),
        run.spawned_worker matches Some((worker, task)) ==> {
            &&& task == (Task { name: TELEMETRY_TASK, group: None })
            &&& run.worker_buffer == Some(TELEMETRY_WORKER_BUFFER)
            &&& run.endpoints matches Some(endpoints) && config.telemetry_endpoints == Some(
                *endpoints,
            )
            &&& outcomes.telemetry == Ok::<(P::TelemetryWorker, P::Telemetry), P::TelemetryError>(
                (worker, run.components.other.telemetry->0),
            )
            &&& run.components.other.telemetry_worker_handle == Some(
                outcomes.telemetry_worker_handle,
            )
        },
{
}

/// Where telemetry is not wanted, what starting it would have given changes nothing.
pub proof fn law_unwanted_telemetry_is_not_consulted<P: Platform>(
    config: Configuration<P>,
    outcomes: PartialOutcomes<P>,
    other: PartialOutcomes<P>,
    components: PartialComponents<P>,
)
    requires
        !config.wants_telemetry(),
        other == (PartialOutcomes {
            telemetry: other.telemetry,
            telemetry_worker_handle: other.telemetry_worker_handle,
            ..outcomes
        }),
    ensures
        partial_error(config, other) == partial_error(config, outcomes),
        components_of(config, other, components) == components_of(config, outcomes, components),
{
}

/// Every call of a construction is made as the configuration says: telemetry with a buffer of 16,
/// the configured servers and a task in no group exactly where there is a server; the executor with
/// the configured settings; the client with imports recorded; the pool with the configured options,
/// role and registry; the block import from the block that the chain specification names, or from
/// block 1.
pub proof fn law_construction_follows_the_configuration<'a, P: Platform>(
    config: &'a Configuration<P>,
    outcomes: PartialOutcomes<P>,
    run: PartialRun<'a, P>,
)
    requires
        partial_run_of(config, outcomes, run),
    ensures
        ({
            let telemetry = config.telemetry_endpoints is Some
                && config.telemetry_endpoints->0.endpoints@.len() > 0;
            let heap = run.executor.onchain_heap_alloc_strategy;
            &&& run.worker_buffer is Some <==> telemetry
            &&& run.endpoints is Some <==> telemetry
            &&& run.spawned_worker is Some <==> telemetry
            &&& telemetry ==> {
                &&& run.worker_buffer->0 == 16
                &&& *run.endpoints->0 == config.telemetry_endpoints->0
            }
            &&& run.spawned_worker matches Some((worker, task)) ==> {
                &&& worker == outcomes.telemetry->Ok_0.0
                &&& task.name@ == "telemetry"@
                &&& task.group is None
            }
            &&& run.executor.execution_method == config.executor.wasm_method
            &&& run.executor.max_runtime_instances == config.executor.max_runtime_instances
            &&& run.executor.runtime_cache_size == config.executor.runtime_cache_size
            &&& heap == run.executor.offchain_heap_alloc_strategy
            &&& heap is Static
            &&& config.executor.default_heap_pages matches Some(pages) ==> heap->extra_pages as int
                == pages as int % 0x1_0000_0000
            &&& config.executor.default_heap_pages is None ==> heap->extra_pages == 2048
            &&& run.record_import
            &&& run.pool.options == config.transaction_pool
            &&& run.pool.is_authority == (config.role == crate::config::Role::Authority)
            &&& run.pool.prometheus_registry == config.prometheus_registry
            &&& run.pool.essential_tasks
            &&& run.pool.client == run.components.client
            &&& config.chain_spec.extensions matches Some(extensions) ==> run.evm_since
                == extensions.evm_since
            &&& config.chain_spec.extensions is None ==> run.evm_since == 1
            &&& run.import_queue.client == run.components.client
            &&& run.import_queue.prometheus_registry == config.prometheus_registry
            &&& run.import_queue.system_timestamp
            &&& run.import_queue.essential_tasks
        }),
{
}

/// Each part of a node is what the call for it gave. The node has a telemetry session and a handle
/// to its worker exactly where a server is configured, and its RPC filters and fee history are
/// empty.
pub proof fn law_parts_come_from_their_calls<P: Platform>(
    config: Configuration<P>,
    outcomes: PartialOutcomes<P>,
    components: PartialComponents<P>,
)
    requires
        components_of(config, outcomes, components),
    ensures
        ({
            let telemetry = config.telemetry_endpoints is Some
                && config.telemetry_endpoints->0.endpoints@.len() > 0;
            let parts = outcomes.client->Ok_0;
            &&& *components.client == parts.client
            &&& components.backend == parts.backend
            &&& components.keystore_container == parts.keystore_container
            &&& components.task_manager == parts.task_manager
            &&& components.import_queue == outcomes.import_queue
            &&& components.transaction_pool == outcomes.transaction_pool
            &&& components.other.block_import == outcomes.block_import
            &&& *components.other.frontier_backend == outcomes.frontier_backend->Ok_0
            &&& components.other.telemetry is Some <==> telemetry
            &&& telemetry ==> components.other.telemetry->0 == outcomes.telemetry->Ok_0.1
            &&& components.other.telemetry_worker_handle is Some <==> telemetry
            &&& telemetry ==> components.other.telemetry_worker_handle->0
                == outcomes.telemetry_worker_handle
            &&& components.other.filter_pool@.dom() == Set::<P::FilterKey>::empty()
            &&& components.other.fee_history_cache@.dom() == Set::<u64>::empty()
        }),
{
    assert(components.other.filter_pool@.dom() =~= Set::<P::FilterKey>::empty());
    assert(components.other.fee_history_cache@.dom() =~= Set::<u64>::empty());
}

/// A construction fails exactly where a call fails that it makes, and with the error of the first
/// such call: telemetry where a server is configured, then the client, then the Ethereum block
/// database. No later call can change that error.
pub proof fn law_first_failure_ends_the_construction<P: Platform>(
    config: Configuration<P>,
    outcomes: PartialOutcomes<P>,
)
    ensures
        ({
            let telemetry = config.telemetry_endpoints is Some
                && config.telemetry_endpoints->0.endpoints@.len() > 0;
            let unreachable = telemetry && outcomes.telemetry is Err;
            let error = partial_error(config, outcomes);
            &&& unreachable ==> error == Some(
                NodeError::<P>::Telemetry(outcomes.telemetry->Err_0),
            )
            &&& !unreachable && outcomes.client is Err ==> error == Some(
                NodeError::<P>::Service(outcomes.client->Err_0),
            )
            &&& !unreachable && outcomes.client is Ok && outcomes.frontier_backend is Err ==> error
                == Some(NodeError::<P>::Frontier(outcomes.frontier_backend->Err_0))
            &&& !unreachable && outcomes.client is Ok && outcomes.frontier_backend is Ok
                ==> error is None
        }),
{
}

} // verus!
