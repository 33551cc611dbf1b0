//! The types that a node is built from and that this crate only passes on.
use vstd::prelude::*;

verus! {

/// Everything that the blockchain framework supplies: each type is a value that one of its calls
/// takes or returns and that the decisions in this crate move from one call to the next without
/// looking inside.
pub trait Platform: Sized {
    /// The configuration of a node as the framework keeps it.
    type FrameworkConfiguration;

    /// How the executor compiles or interprets a runtime.
    type WasmMethod: Copy;

    /// The registry that metrics are reported to.
    type Registry;

    /// Where the Prometheus endpoint listens.
    type PrometheusConfig;

    /// Where the chain is stored.
    type Database;

    /// Settings of the peer-to-peer network.
    type NetworkConfiguration;

    /// Where the keys are stored.
    type KeystoreConfig;

    /// How the informant prints.
    type OutputFormat;

    /// The directory that the node works in.
    type BasePath;

    /// Settings of the relay chain's telemetry.
    type TelemetryConfig;

    /// The full role record of a relay chain node.
    type RoleFull;

    /// A chain specification apart from its extensions.
    type GenericChainSpec;

    /// The targets that tracing is on for.
    type TracingTargets;

    /// Where traces go.
    type TracingReceiver;

    /// A telemetry worker that is not running yet.
    type TelemetryWorker;

    /// A telemetry session.
    type Telemetry;

    /// A handle by which the relay chain node shares the telemetry worker.
    type TelemetryWorkerHandle;

    /// The parachain client.
    type Client;

    /// The storage backend.
    type Backend;

    /// The container of the keystore.
    type KeystoreContainer;

    /// The keystore itself.
    type Keystore;

    /// The manager of the node's tasks.
    type TaskManager;

    /// Settings of the transaction pool.
    type PoolOptions;

    /// The transaction pool.
    type TransactionPool;

    /// The database that maps Ethereum blocks to the chain's own.
    type FrontierBackend;

    /// The block import pipeline.
    type BlockImport;

    /// The import queue.
    type ImportQueue;

    /// The handle by which others reach the import queue.
    type ImportQueueService;

    /// What an RPC filter is found by.
    type FilterKey;

    /// An RPC filter.
    type FilterPoolItem;

    /// The fee history of one block.
    type FeeHistoryCacheItem;

    /// The RPC filters, shared between tasks.
    type FilterPool;

    /// The fee history, shared between tasks.
    type FeeHistoryCache;

    /// The channel of one subscription to new blocks.
    type NotificationSink;

    /// The channels of all subscriptions, shared between tasks.
    type NotificationSinks;

    /// How Ethereum data is read out of the chain's storage.
    type StorageOverrides;

    /// The cache of Ethereum block data.
    type BlockDataCache;

    /// The servers that telemetry goes to, as the framework keeps them.
    type FrameworkEndpoints;

    /// The keystore of a collator, as the command line gives it.
    type CollatorKeystore;

    /// The key pair of a collator.
    type CollatorPair;

    /// A hook that seals a block at once.
    type InstantSeal;

    /// The connection to the relay chain.
    type RelayChainInterface;

    /// The handle of the relay chain node's overseer.
    type OverseerHandle;

    /// The running network.
    type Network;

    /// The sender of system RPC requests, by which tasks are spawned.
    type SpawnTasksHandle;

    /// The controller of the transaction handler, which spawning the network's tasks gives.
    type SpawnTasksResult;

    /// What lets the network start.
    type NetworkStarter;

    /// The block sync service.
    type SyncService;

    /// Why telemetry could not start.
    type TelemetryError;

    /// Why the Ethereum block database could not be opened.
    type FrontierError;

    /// Why a call of the service layer failed.
    type ServiceError;

    /// Why a call of another layer failed.
    type ApplicationError;
}

} // verus!
