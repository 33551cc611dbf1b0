use std::sync::Arc;

use hydradx_service::config::{
    ChainSpec, CollatorOptions, Configuration, EthereumConfig, ExecutorConfiguration, Extensions,
    OffchainWorkerConfig, Role, TelemetryEndpoints,
};
use hydradx_service::error::NodeError;
use hydradx_service::executor::HeapAllocStrategy;
use hydradx_service::identity::{NetworkPeerInfo, NetworkService};
use hydradx_service::network::{network_parts, BuiltNetwork, CollatorSybilResistance};
use hydradx_service::node::{
    replay_start_node, start_node_impl, DARecoveryProfile, NodeCall, NodeOutcomes, NodeRun,
    RelayChain, RelayTasksNext,
};
use hydradx_service::partial::{
    replay_partial, ClientNext, ClientParts, PartialComponents, PartialOutcomes, PartialStart,
};
use hydradx_service::platform::Platform;
use hydradx_service::pools::SharedPools;
use hydradx_service::relay::Setting;
use hydradx_service::tasks::Task;
use hydradx_service::{
    chain_spec, extended_network_identity, network_identity, new_partial, node_identity_json,
    ServiceFactory,
};

struct Plain;

impl Platform for Plain {
    type FrameworkConfiguration = u32;
    type WasmMethod = u8;
    type Registry = &'static str;
    type PrometheusConfig = u16;
    type Database = &'static str;
    type NetworkConfiguration = &'static str;
    type KeystoreConfig = &'static str;
    type OutputFormat = bool;
    type BasePath = &'static str;
    type TelemetryConfig = u8;
    type RoleFull = u8;
    type GenericChainSpec = &'static str;
    type TracingTargets = String;
    type TracingReceiver = u8;
    type TelemetryWorker = &'static str;
    type Telemetry = &'static str;
    type TelemetryWorkerHandle = &'static str;
    type Client = &'static str;
    type Backend = &'static str;
    type KeystoreContainer = &'static str;
    type Keystore = &'static str;
    type TaskManager = &'static str;
    type PoolOptions = &'static str;
    type TransactionPool = &'static str;
    type FrontierBackend = &'static str;
    type BlockImport = &'static str;
    type ImportQueue = &'static str;
    type ImportQueueService = &'static str;
    type FilterKey = u64;
    type FilterPoolItem = u8;
    type FeeHistoryCacheItem = u8;
    type FilterPool = &'static str;
    type FeeHistoryCache = &'static str;
    type NotificationSink = u8;
    type NotificationSinks = &'static str;
    type StorageOverrides = &'static str;
    type BlockDataCache = &'static str;
    type FrameworkEndpoints = u16;
    type CollatorKeystore = &'static str;
    type CollatorPair = &'static str;
    type InstantSeal = u8;
    type RelayChainInterface = &'static str;
    type OverseerHandle = &'static str;
    type Network = &'static str;
    type SpawnTasksHandle = &'static str;
    type SpawnTasksResult = &'static str;
    type NetworkStarter = &'static str;
    type SyncService = &'static str;
    type TelemetryError = &'static str;
    type FrontierError = &'static str;
    type ServiceError = &'static str;
    type ApplicationError = &'static str;
}

fn config(role: Role) -> Configuration<Plain> {
    Configuration {
        framework: 7,
        role,
        role_full: 1,
        chain_spec: ChainSpec { generic: "spec", extensions: None },
        executor: ExecutorConfiguration {
            wasm_method: 9,
            default_heap_pages: None,
            max_runtime_instances: 8,
            runtime_cache_size: 2,
        },
        network: "network settings",
        keystore: "keystore settings",
        database: "database",
        transaction_pool: Arc::new("pool options"),
        base_path: "/data",
        offchain_worker: OffchainWorkerConfig { enabled: true, indexing_enabled: false },
        informant_output_format: true,
        telemetry: 3,
        telemetry_endpoints: None,
        prometheus_config: Some(9615),
        prometheus_registry: Some(Arc::new("registry")),
        state_cache_size: 67,
        state_cache_child_ratio: Some(20),
    }
}

fn with_telemetry(servers: Vec<(String, u8)>) -> Configuration<Plain> {
    Configuration {
        telemetry_endpoints: Some(TelemetryEndpoints { endpoints: servers, framework: 44 }),
        ..config(Role::Full)
    }
}

fn server() -> Vec<(String, u8)> {
    vec![("wss://telemetry".to_string(), 0)]
}

fn ethereum() -> EthereumConfig {
    EthereumConfig {
        eth_log_block_cache: 50,
        eth_statuses_cache: 60,
        enable_dev_signer: true,
        max_past_logs: 10000,
        fee_history_limit: 2048,
        execute_gas_limit_multiplier: 10,
    }
}

fn collator() -> CollatorOptions<Plain> {
    CollatorOptions { keystore: "collator keys", relay_chain_rpc_url: Some("ws://relay".to_string()) }
}

fn parts() -> ClientParts<Plain> {
    ClientParts {
        client: "client",
        backend: Arc::new("backend"),
        keystore_container: "keystore",
        task_manager: "tasks",
    }
}

fn partial_outcomes() -> PartialOutcomes<Plain> {
    PartialOutcomes {
        telemetry: Ok(("worker", "session")),
        client: Ok(parts()),
        telemetry_worker_handle: "handle",
        transaction_pool: Arc::new("pool"),
        frontier_backend: Ok("frontier"),
        block_import: "import",
        import_queue: "queue",
    }
}

fn components(config: &Configuration<Plain>) -> PartialComponents<Plain> {
    match replay_partial(config, partial_outcomes()) {
        Ok(run) => run.components,
        Err(_) => panic!("no components"),
    }
}

fn built_network() -> BuiltNetwork<Plain> {
    BuiltNetwork {
        network: Arc::new("network"),
        network_starter: "starter",
        spawn_tasks_handle: "rpc sender",
        spawn_tasks_result: "controller",
        data_sync_service: Arc::new("sync"),
    }
}

fn shared_pools() -> SharedPools<Plain> {
    SharedPools {
        notification_sinks: Arc::new("sinks"),
        filter_pool: Arc::new("filters"),
        fee_history_cache: Arc::new("fees"),
        overrides: Arc::new("overrides"),
    }
}

fn the_same_pools(one: &SharedPools<Plain>, other: &SharedPools<Plain>) -> bool {
    Arc::ptr_eq(&one.notification_sinks, &other.notification_sinks)
        && Arc::ptr_eq(&one.filter_pool, &other.filter_pool)
        && Arc::ptr_eq(&one.fee_history_cache, &other.fee_history_cache)
        && Arc::ptr_eq(&one.overrides, &other.overrides)
}

fn node_outcomes(role: Role) -> NodeOutcomes<Plain> {
    let prepared = config(role);
    NodeOutcomes {
        components: Ok(components(&prepared)),
        parachain_config: prepared,
        found_key: Some("stored key"),
        relay_chain: Ok(RelayChain { interface: Arc::new("relay"), collator_key: Some("key") }),
        import_queue_service: "queue service",
        keystore: Arc::new("keys"),
        network: Ok(built_network()),
        shared: shared_pools(),
        block_data_cache: Arc::new("block data"),
        tasks: Ok(()),
        overseer_handle: Ok("overseer"),
        relay_tasks: Ok(()),
        consensus: Ok(()),
    }
}

fn start(outcomes: NodeOutcomes<Plain>) -> Result<NodeRun<Plain>, String> {
    start_with_calls(outcomes).0
}

fn start_with_calls(
    outcomes: NodeOutcomes<Plain>,
) -> (Result<NodeRun<Plain>, String>, Vec<NodeCall>) {
    let mut calls = vec![];
    let result = replay_start_node(
        config(Role::Full),
        config(Role::Full),
        ethereum(),
        collator(),
        2000,
        outcomes,
        &mut calls,
    )
    .map_err(shown);
    (result, calls)
}

fn shown(error: NodeError<Plain>) -> String {
    match error {
        NodeError::Telemetry(error) => format!("telemetry: {}", error),
        NodeError::Service(error) => format!("service: {}", error),
        NodeError::Frontier(error) => format!("frontier: {}", error),
        NodeError::Application(error) => format!("application: {}", error),
    }
}

#[test]
fn the_development_chain_spec_is_what_was_loaded() {
    let loaded: Result<ChainSpec<Plain>, String> =
        Ok(ChainSpec { generic: "dev", extensions: Some(Extensions { evm_since: 5 }) });
    let spec = chain_spec(loaded);
    assert_eq!(spec.generic, "dev");
    assert_eq!(spec.extensions, Some(Extensions { evm_since: 5 }));
}

#[test]
fn telemetry_starts_for_a_server() {
    let config = with_telemetry(server());
    match new_partial(&config) {
        PartialStart::Telemetry(stage) => {
            assert_eq!(stage.worker_buffer, 16);
            assert_eq!(stage.endpoints.endpoints, server());
            assert_eq!(stage.endpoints.framework, 44);
            let next = stage.telemetry_made(Ok(("worker", "session")));
            match next {
                Ok(next) => assert_eq!(next.telemetry, Some(("worker", "session"))),
                Err(_) => panic!("refused"),
            }
        }
        PartialStart::Client(_) => panic!("no telemetry"),
    }
}

#[test]
fn an_empty_list_of_servers_is_no_telemetry() {
    for config in [with_telemetry(vec![]), config(Role::Full)] {
        match new_partial(&config) {
            PartialStart::Telemetry(_) => panic!("telemetry"),
            PartialStart::Client(stage) => {
                assert!(stage.telemetry.is_none());
                assert!(stage.record_import);
            }
        }
    }
}

fn heap(pages: Option<u64>) -> HeapAllocStrategy {
    let mut config = config(Role::Full);
    config.executor.default_heap_pages = pages;
    match new_partial(&config) {
        PartialStart::Telemetry(_) => panic!("telemetry"),
        PartialStart::Client(stage) => {
            assert_eq!(stage.executor.execution_method, 9);
            assert_eq!(stage.executor.max_runtime_instances, 8);
            assert_eq!(stage.executor.runtime_cache_size, 2);
            assert_eq!(
                stage.executor.onchain_heap_alloc_strategy,
                stage.executor.offchain_heap_alloc_strategy
            );
            stage.executor.onchain_heap_alloc_strategy
        }
    }
}

#[test]
fn heap_pages_are_static() {
    assert_eq!(heap(None), HeapAllocStrategy::Static { extra_pages: 2048 });
    assert_eq!(heap(Some(0)), HeapAllocStrategy::Static { extra_pages: 0 });
    assert_eq!(heap(Some(4096)), HeapAllocStrategy::Static { extra_pages: 4096 });
    assert_eq!(
        heap(Some(u32::MAX as u64)),
        HeapAllocStrategy::Static { extra_pages: u32::MAX }
    );
}

#[test]
fn heap_pages_beyond_thirty_two_bits_lose_their_high_bits() {
    assert_eq!(heap(Some(0x3_0000_0007)), HeapAllocStrategy::Static { extra_pages: 7 });
    assert_eq!(heap(Some(u64::MAX)), HeapAllocStrategy::Static { extra_pages: u32::MAX });
}

#[test]
fn the_parts_come_from_the_calls() {
    let built = components(&config(Role::Full));
    assert_eq!(*built.client, "client");
    assert_eq!(*built.backend, "backend");
    assert_eq!(built.import_queue, "queue");
    assert_eq!(built.keystore_container, "keystore");
    assert_eq!(built.task_manager, "tasks");
    assert_eq!(*built.transaction_pool, "pool");
    assert_eq!(built.other.block_import, "import");
    assert_eq!(built.other.telemetry, None);
    assert_eq!(built.other.telemetry_worker_handle, None);
    assert_eq!(*built.other.frontier_backend, "frontier");
    assert!(built.other.filter_pool.is_empty());
    assert!(built.other.fee_history_cache.is_empty());
}

#[test]
fn telemetry_is_kept_and_shared_where_it_is_wanted() {
    let built = components(&with_telemetry(server()));
    assert_eq!(built.other.telemetry, Some("session"));
    assert_eq!(built.other.telemetry_worker_handle, Some("handle"));
}

#[test]
fn the_first_failure_ends_the_construction() {
    let all_fail = || PartialOutcomes {
        telemetry: Err("t"),
        client: Err("c"),
        frontier_backend: Err("f"),
        ..partial_outcomes()
    };
    let error = |config: &Configuration<Plain>, outcomes| match replay_partial(config, outcomes) {
        Ok(_) => panic!("built"),
        Err(error) => shown(error),
    };
    assert_eq!(error(&with_telemetry(server()), all_fail()), "telemetry: t");
    assert_eq!(error(&config(Role::Full), all_fail()), "service: c");
    assert_eq!(
        error(&config(Role::Full), PartialOutcomes { client: Ok(parts()), ..all_fail() }),
        "frontier: f"
    );
}

#[test]
fn a_construction_records_what_its_calls_are_made_with() {
    let config = with_telemetry(server());
    let run = match replay_partial(&config, partial_outcomes()) {
        Ok(run) => run,
        Err(_) => panic!("not built"),
    };
    assert_eq!(run.worker_buffer, Some(16));
    assert_eq!(run.executor.execution_method, 9);
    assert!(run.record_import);
    assert_eq!(run.endpoints.map(|servers| servers.framework), Some(44));
    let task = Task { name: "telemetry", group: None };
    assert_eq!(run.spawned_worker, Some(("worker", task)));
    assert_eq!(*run.pool.options, "pool options");
    assert!(!run.pool.is_authority);
    assert_eq!(run.pool.prometheus_registry, Some(Arc::new("registry")));
    assert!(run.pool.essential_tasks);
    assert_eq!(run.pool.client, run.components.client);
    assert_eq!(run.evm_since, 1);
    assert_eq!(run.import_queue.client, run.components.client);
}

#[test]
fn unwanted_telemetry_is_not_consulted() {
    let outcomes = PartialOutcomes { telemetry: Err("t"), ..partial_outcomes() };
    let config = config(Role::Full);
    match replay_partial(&config, outcomes) {
        Ok(run) => {
            assert!(run.spawned_worker.is_none());
            assert!(run.worker_buffer.is_none());
            assert!(run.endpoints.is_none());
        }
        Err(_) => panic!("not built"),
    }
}

#[test]
fn the_pool_knows_whether_the_node_authors_and_import_knows_where_evm_begins() {
    for (role, authority) in [(Role::Authority, true), (Role::Full, false)] {
        for (extensions, since) in [(None, 1), (Some(Extensions { evm_since: 42 }), 42)] {
            let mut config = config(role);
            config.chain_spec.extensions = extensions;
            let stage = match new_partial(&config) {
                PartialStart::Client(stage) => stage,
                PartialStart::Telemetry(_) => panic!("telemetry"),
            };
            let (request, stage) = match stage.client_made(Ok(parts())) {
                Ok(ClientNext::Pool(request, stage)) => (request, stage),
                _ => panic!("no pool"),
            };
            assert_eq!(request.is_authority, authority);
            assert!(Arc::ptr_eq(&request.options, &config.transaction_pool));
            let stage = match stage.pool_made(Arc::new("pool")).frontier_opened(Ok("frontier")) {
                Ok(stage) => stage,
                Err(_) => panic!("no import"),
            };
            assert_eq!(stage.evm_since, since);
            let (_, request) = stage.block_import_made("import");
            assert_eq!(*request.client, "client");
            assert!(request.system_timestamp && request.essential_tasks);
            assert_eq!(request.prometheus_registry, Some(Arc::new("registry")));
        }
    }
}

#[test]
fn a_start_goes_through_every_stage() {
    for (role, authority) in [(Role::Authority, true), (Role::Full, false)] {
        let (given, stage) =
            start_node_impl(config(role), config(Role::Full), ethereum(), collator(), 2034);
        let stage = stage.prepared(given);
        let built = components(&stage.parachain_config);
        let (stage, work) = match stage.components_built(Ok(built)) {
            Ok(next) => next,
            Err(_) => panic!("components"),
        };
        assert_eq!(work.collator_keystore, "collator keys");
        let request = work.search.key_looked_up(Some("stored key"));
        assert_eq!(request.relay_chain_rpc_url, Some("ws://relay".to_string()));
        assert_eq!(request.telemetry_worker_handle, None);
        assert!(request.instant_seal.is_none());
        assert_eq!(request.config.network, "network settings");
        assert_eq!(request.config.keystore, "keystore settings");
        assert_eq!(request.config.database, "database");
        assert_eq!(request.config.prometheus_config, Some(9615));
        assert_eq!(request.config.role, Role::Full);
        assert_eq!(request.config.state_cache_child_ratio, Some(20));
        assert!(matches!(request.config.tracing_targets, Setting::Default));
        assert!(matches!(request.config.tracing_receiver, Setting::Default));
        let connected = RelayChain { interface: Arc::new("relay"), collator_key: Some("key") };
        let (stage, request) = match stage.relay_chain_ready(Ok(connected)) {
            Ok(next) => next,
            Err(_) => panic!("relay chain"),
        };
        assert_eq!(stage.validator, authority);
        assert!(request.enable_metrics);
        assert!(!request.on_demand && !request.warp_sync && !request.block_announce_validator);
        assert_eq!(request.sybil_resistance_level, CollatorSybilResistance::Resistant);
        assert_eq!(request.import_queue, "queue");
        let keystore = Arc::new("keys");
        let built = Ok(built_network());
        let (stage, work) = match stage.network_built("queue service", keystore, built) {
            Ok(next) => next,
            Err(_) => panic!("network"),
        };
        let workers = work.offchain_workers.unwrap();
        assert_eq!(
            workers.task,
            Task { name: "offchain-workers-runner", group: Some("offchain-work") }
        );
        assert_eq!(workers.keystore, Some(Arc::new("keys")));
        assert_eq!(workers.transaction_pool, Some(Arc::new("pool")));
        assert_eq!(*workers.network, "network");
        assert_eq!(workers.is_validator, authority);
        assert!(!workers.enable_http_requests);
        assert!(!workers.custom_extensions);
        assert!(work.contents.notification_sinks.is_empty());
        assert!(work.contents.filter_pool.is_empty());
        assert!(work.contents.fee_history_cache.is_empty());
        assert_eq!(*work.overrides_client, "client");
        let pools = shared_pools();
        let (stage, request) = stage.pools_shared(pools.share());
        assert_eq!(*request.overrides, "overrides");
        assert_eq!(request.eth_log_block_cache, 50);
        assert_eq!(request.eth_statuses_cache, 60);
        assert_eq!(request.prometheus_registry, Some(Arc::new("registry")));
        let (stage, work) = stage.cache_made(Arc::new("block data"));
        assert!(the_same_pools(&work.rpc.shared, &pools));
        assert_eq!(*work.rpc.block_data_cache, "block data");
        assert_eq!(*work.rpc.network, "network");
        assert_eq!(*work.rpc.sync, "sync");
        assert!(work.rpc.transaction_converter);
        assert_eq!(work.rpc.is_authority, authority);
        assert!(work.rpc.enable_dev_signer);
        assert_eq!(work.rpc.max_past_logs, 10000);
        assert_eq!(work.rpc.fee_history_cache_limit, 2048);
        assert_eq!(work.rpc.execute_gas_limit_multiplier, 10);
        assert_eq!(work.config.framework, 7);
        assert_eq!(work.system_rpc_tx, "rpc sender");
        assert_eq!(work.tx_handler_controller, "controller");
        assert_eq!(*work.keystore, "keys");
        assert_eq!(*work.network, "network");
        assert_eq!(*work.sync_service, "sync");
        let (stage, own_tasks) = match stage.tasks_spawned(Ok(())) {
            Ok(next) => next,
            Err(_) => panic!("tasks"),
        };
        let peer_log = own_tasks.peer_log;
        assert_eq!(peer_log.file, "peer_info.log");
        assert!(peer_log.create && peer_log.append);
        assert_eq!(peer_log.event_stream, "peer-logging");
        assert_eq!(peer_log.events_task, Task { name: "peer-ip-logger", group: None });
        assert_eq!(peer_log.discovery_task, Task { name: "peer-discovery-logger", group: None });
        assert_eq!(*peer_log.network, "network");
        let request = own_tasks.frontier;
        assert_eq!(request.fee_history_limit, 2048);
        assert!(the_same_pools(&request.shared, &pools));
        assert_eq!(*request.frontier_backend, "frontier");
        let (stage, request) = match stage.overseer_found(Ok("overseer")) {
            Ok(next) => next,
            Err(_) => panic!("overseer"),
        };
        assert_eq!(request.para_id, 2034);
        assert_eq!(request.relay_chain_slot_duration_secs, 6);
        assert_eq!(request.import_queue, "queue service");
        assert_eq!(*request.sync_service, "sync");
        assert_eq!(
            request.da_recovery_profile,
            if authority { DARecoveryProfile::Collator } else { DARecoveryProfile::FullNode }
        );
        let stage = match stage.relay_tasks_started(Ok(())) {
            Ok(RelayTasksNext::Consensus(request, stage)) => {
                assert!(authority);
                assert_eq!(request.collator_key, "key");
                assert_eq!(request.overseer_handle, "overseer");
                assert_eq!(request.para_id, 2034);
                assert_eq!(*request.keystore, "keys");
                assert_eq!(*request.sync_service, "sync");
                assert!(request.record_proofs);
                assert!(!request.own_inherents);
                assert_eq!(request.authoring_duration_millis, 500);
                assert_eq!(request.slot_duration_secs, 6);
                match stage.consensus_started(Ok(())) {
                    Ok(next) => next,
                    Err(_) => panic!("consensus"),
                }
            }
            Ok(RelayTasksNext::Final(stage)) => {
                assert!(!authority);
                stage
            }
            Err(_) => panic!("relay tasks"),
        };
        let (starter, (tasks, client)) = stage.finish();
        assert_eq!(Arc::into_inner(starter), Some("starter"));
        assert_eq!(tasks, "tasks");
        assert_eq!(*client, "client");
    }
}

#[test]
fn what_is_switched_off_stays_off() {
    let mut quiet = config(Role::Full);
    quiet.offchain_worker.enabled = false;
    quiet.prometheus_registry = None;
    let (given, stage) = start_node_impl(quiet, config(Role::Full), ethereum(), collator(), 1);
    let stage = stage.prepared(given);
    let built = components(&stage.parachain_config);
    let (stage, _) = match stage.components_built(Ok(built)) {
        Ok(next) => next,
        Err(_) => panic!("components"),
    };
    let connected = RelayChain { interface: Arc::new("relay"), collator_key: None };
    let (stage, request) = match stage.relay_chain_ready(Ok(connected)) {
        Ok(next) => next,
        Err(_) => panic!("relay chain"),
    };
    assert!(!request.enable_metrics);
    let keystore = Arc::new("keys");
    let (stage, work) = match stage.network_built("queue service", keystore, Ok(built_network())) {
        Ok(next) => next,
        Err(_) => panic!("network"),
    };
    assert!(work.offchain_workers.is_none());
    let (_, request) = stage.pools_shared(shared_pools());
    assert!(request.prometheus_registry.is_none());
}

#[test]
fn a_start_that_meets_no_failure_gives_the_tasks_and_the_client() {
    for (role, authority) in [(Role::Full, false), (Role::Authority, true)] {
        let run = match start(node_outcomes(role)) {
            Ok(run) => run,
            Err(_) => panic!("no node"),
        };
        assert_eq!(run.node, ("tasks", Arc::new("client")));
        assert_eq!(*run.network_starter, "starter");
        assert_eq!(run.searched_keystore, "collator keys");
        assert_eq!(run.network.client, run.node.1);
        assert_eq!(run.tasks.rpc.client, run.node.1);
        assert_eq!(run.frontier_tasks.client, run.node.1);
        assert_eq!(run.relay_tasks.client, run.node.1);
        assert_eq!(run.tasks.rpc.is_authority, authority);
        match run.consensus {
            Some(request) => {
                assert!(authority);
                assert_eq!(request.collator_key, "key");
                assert_eq!(request.para_client, run.node.1);
            }
            None => assert!(!authority),
        }
    }
}

#[test]
fn the_first_failure_ends_the_start() {
    let fail = |from: usize| {
        let mut outcomes = node_outcomes(Role::Authority);
        if from <= 6 {
            outcomes.consensus = Err("consensus");
        }
        if from <= 5 {
            outcomes.relay_tasks = Err("relay tasks");
        }
        if from <= 4 {
            outcomes.overseer_handle = Err("overseer");
        }
        if from <= 3 {
            outcomes.tasks = Err("tasks");
        }
        if from <= 2 {
            outcomes.network = Err("network");
        }
        if from <= 1 {
            outcomes.relay_chain = Err("relay chain");
        }
        if from == 0 {
            outcomes.components = Err(NodeError::Frontier("database"));
        }
        match start(outcomes) {
            Ok(_) => panic!("started"),
            Err(error) => error,
        }
    };
    assert_eq!(fail(0), "frontier: database");
    assert_eq!(fail(1), "application: relay chain");
    assert_eq!(fail(2), "service: network");
    assert_eq!(fail(3), "service: tasks");
    assert_eq!(fail(4), "application: overseer");
    assert_eq!(fail(5), "service: relay tasks");
    assert_eq!(fail(6), "service: consensus");
}

#[test]
fn an_authority_without_a_key_still_fails_as_its_calls_do() {
    let keyless = || {
        let mut outcomes = node_outcomes(Role::Authority);
        outcomes.relay_chain = Ok(RelayChain { interface: Arc::new("relay"), collator_key: None });
        outcomes
    };
    let error = |outcomes| match start(outcomes) {
        Ok(_) => panic!("started"),
        Err(error) => error,
    };
    let network = NodeOutcomes { network: Err("network"), ..keyless() };
    assert_eq!(error(network), "service: network");
    let tasks = NodeOutcomes { tasks: Err("tasks"), ..keyless() };
    assert_eq!(error(tasks), "service: tasks");
    let overseer = NodeOutcomes { overseer_handle: Err("overseer"), ..keyless() };
    assert_eq!(error(overseer), "application: overseer");
    let relay_tasks = NodeOutcomes { relay_tasks: Err("relay tasks"), ..keyless() };
    assert_eq!(error(relay_tasks), "service: relay tasks");
}

#[test]
fn a_built_network_is_taken_apart_in_order() {
    let parts = match network_parts(Ok(built_network())) {
        Ok(parts) => parts,
        Err(_) => panic!("no network"),
    };
    assert_eq!(*parts.0, "starter");
    assert_eq!(parts.1, "rpc sender");
    assert_eq!(*parts.2, "network");
    assert_eq!(parts.3, "controller");
    assert!(Arc::ptr_eq(&parts.0, &parts.4));
    assert_eq!(*parts.5, "sync");
    match network_parts::<Plain>(Err("refused")) {
        Ok(_) => panic!("a network"),
        Err(error) => assert_eq!(shown(error), "service: refused"),
    }
}

#[test]
fn the_rpc_and_the_ethereum_tasks_share_their_pools() {
    let outcomes = node_outcomes(Role::Full);
    let pools = outcomes.shared.share();
    let run = match start(outcomes) {
        Ok(run) => run,
        Err(_) => panic!("no node"),
    };
    assert!(the_same_pools(&run.tasks.rpc.shared, &pools));
    assert!(the_same_pools(&run.frontier_tasks.shared, &pools));
    assert!(Arc::ptr_eq(&run.block_data_cache.overrides, &pools.overrides));
    assert!(Arc::ptr_eq(
        &run.tasks.rpc.frontier_backend,
        &run.frontier_tasks.frontier_backend
    ));
    assert_eq!(run.tasks.rpc.fee_history_cache_limit, 2048);
    assert_eq!(run.frontier_tasks.fee_history_limit, 2048);
    assert!(run.sharing.contents.notification_sinks.is_empty());
    assert!(run.sharing.contents.filter_pool.is_empty());
    assert!(run.sharing.contents.fee_history_cache.is_empty());
}

#[test]
fn everything_runs_over_the_one_network() {
    let outcomes = node_outcomes(Role::Authority);
    let (network, sync) = match &outcomes.network {
        Ok(built) => (built.network.clone(), built.data_sync_service.clone()),
        Err(_) => panic!("no network"),
    };
    let run = match start(outcomes) {
        Ok(run) => run,
        Err(_) => panic!("no node"),
    };
    assert!(Arc::ptr_eq(&run.sharing.offchain_workers.unwrap().network, &network));
    assert!(Arc::ptr_eq(&run.tasks.network, &network));
    assert!(Arc::ptr_eq(&run.peer_log.network, &network));
    assert!(Arc::ptr_eq(&run.tasks.rpc.network, &network));
    assert!(Arc::ptr_eq(&run.tasks.sync_service, &sync));
    assert!(Arc::ptr_eq(&run.tasks.rpc.sync, &sync));
    assert!(Arc::ptr_eq(&run.frontier_tasks.sync_service, &sync));
    assert!(Arc::ptr_eq(&run.relay_tasks.sync_service, &sync));
    assert!(Arc::ptr_eq(&run.consensus.unwrap().sync_service, &sync));
}

#[test]
fn the_telemetry_worker_runs_in_no_group() {
    let config = with_telemetry(server());
    let stage = match new_partial(&config) {
        PartialStart::Telemetry(stage) => match stage.telemetry_made(Ok(("worker", "session"))) {
            Ok(stage) => stage,
            Err(_) => panic!("refused"),
        },
        PartialStart::Client(_) => panic!("no telemetry"),
    };
    match stage.client_made(Ok(parts())) {
        Ok(ClientNext::Worker(worker, stage)) => {
            assert_eq!(worker, "worker");
            assert_eq!(stage.task, Task { name: "telemetry", group: None });
            let (request, _) = stage.worker_spawned("handle");
            assert_eq!(*request.options, "pool options");
            assert_eq!(*request.client, "client");
        }
        _ => panic!("no worker"),
    }
}

#[test]
fn the_network_is_let_go_once_and_last_on_success() {
    let (result, calls) = start_with_calls(node_outcomes(Role::Authority));
    assert!(result.is_ok());
    assert_eq!(
        calls,
        vec![
            NodeCall::PrepareConfig,
            NodeCall::BuildComponents,
            NodeCall::LookUpCollatorKey,
            NodeCall::StartRelayNode,
            NodeCall::BuildNetwork,
            NodeCall::RunOffchainWorkers,
            NodeCall::SharePools,
            NodeCall::MakeBlockDataCache,
            NodeCall::SpawnTasks,
            NodeCall::SpawnFrontierTasks,
            NodeCall::SpawnPeerEventLog,
            NodeCall::SpawnPeerDiscoveryLog,
            NodeCall::FindOverseer,
            NodeCall::StartRelayTasks,
            NodeCall::StartConsensus,
            NodeCall::StartNetwork,
        ]
    );
    let (result, calls) = start_with_calls(node_outcomes(Role::Full));
    assert!(result.is_ok());
    assert_eq!(
        calls[calls.len() - 2..],
        [NodeCall::StartRelayTasks, NodeCall::StartNetwork]
    );
    assert!(!calls.contains(&NodeCall::StartConsensus));
}

#[test]
fn a_start_that_fails_never_lets_the_network_go() {
    let authority = || node_outcomes(Role::Authority);
    let failures = vec![
        NodeOutcomes { components: Err(NodeError::Frontier("database")), ..authority() },
        NodeOutcomes { relay_chain: Err("relay chain"), ..authority() },
        NodeOutcomes { network: Err("network"), ..authority() },
        NodeOutcomes { tasks: Err("tasks"), ..authority() },
        NodeOutcomes { overseer_handle: Err("overseer"), ..authority() },
        NodeOutcomes { relay_tasks: Err("relay tasks"), ..authority() },
        NodeOutcomes { consensus: Err("consensus"), ..authority() },
    ];
    let lasts = vec![
        NodeCall::BuildComponents,
        NodeCall::StartRelayNode,
        NodeCall::BuildNetwork,
        NodeCall::SpawnTasks,
        NodeCall::FindOverseer,
        NodeCall::StartRelayTasks,
        NodeCall::StartConsensus,
    ];
    for (outcomes, last) in failures.into_iter().zip(lasts) {
        let (result, calls) = start_with_calls(outcomes);
        assert!(result.is_err());
        assert_eq!(calls.last(), Some(&last));
        assert!(!calls.contains(&NodeCall::StartNetwork));
    }
}

#[test]
fn a_full_node_needs_no_consensus() {
    let mut outcomes = node_outcomes(Role::Full);
    outcomes.consensus = Err("consensus");
    assert!(start(outcomes).is_ok());
}

#[test]
fn the_factory_starts_under_the_default_id() {
    let factory: ServiceFactory<u8> = ServiceFactory::default();
    let (given, stage) =
        factory.new_service(config(Role::Authority), config(Role::Full), ethereum(), collator());
    assert_eq!(given.role, Role::Authority);
    assert_eq!(stage.para_id, 2000);
    assert_eq!(stage.polkadot_config.role, Role::Full);
    assert_eq!(stage.ethereum_config, ethereum());
    assert_eq!(stage.collator_options.keystore, "collator keys");
}

fn service() -> NetworkService {
    let mut members = serde_json::Map::new();
    members.insert("peerId".to_string(), serde_json::Value::from("12D3"));
    members.insert(
        "listenedAddresses".to_string(),
        serde_json::Value::from(vec!["/ip4/1.2.3.4", "say \"hi\""]),
    );
    members.insert("authority".to_string(), serde_json::Value::from(true));
    NetworkService { identity: NetworkPeerInfo { document: serde_json::Value::Object(members) } }
}

#[test]
fn both_identities_are_the_one_of_the_network() {
    let network = service();
    assert_eq!(network_identity(&network).document, network.identity.document);
    assert_eq!(extended_network_identity(&network).document, network.identity.document);
}

#[test]
fn the_identity_is_written_as_json() {
    assert_eq!(
        node_identity_json(&service()),
        "{\"peerId\":\"12D3\",\"listenedAddresses\":[\"/ip4/1.2.3.4\",\"say \\\"hi\\\"\"],\"authority\":true}"
    );
    let nothing =
        NetworkService { identity: NetworkPeerInfo { document: serde_json::Value::Null } };
    assert_eq!(node_identity_json(&nothing), "null");
}
