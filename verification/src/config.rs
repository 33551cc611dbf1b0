//! What a node is configured with.
use std::sync::Arc;

use vstd::prelude::*;

use crate::platform::Platform;

verus! {

/// What a node does on its network.
#[derive(Clone, Copy, Debug, PartialEq, Eq, Structural)]
pub enum Role {
    /// It follows the chain.
    Full,
    /// It also authors blocks.
    Authority,
}

impl Role {
    /// Whether the node authors blocks.
    pub fn is_authority(&self) -> (authority: bool)
        ensures
            authority == (*self == Role::Authority),
    {
        match self {
            Role::Authority => true,
            Role::Full => false,
        }
    }
}

/// The servers that telemetry goes to, each with its verbosity, and beside them the framework's own
/// record.
pub struct TelemetryEndpoints<P: Platform> {
    pub endpoints: Vec<(String, u8)>,
    pub framework: P::FrameworkEndpoints,
}

impl<P: Platform> TelemetryEndpoints<P> {
    /// Whether there is no server to send to.
    pub fn is_empty(&self) -> (empty: bool)
        ensures
            empty == (self.endpoints@.len() == 0),
    {
        self.endpoints.len() == 0
    }
}

/// Settings of the WASM executor.
pub struct ExecutorConfiguration<P: Platform> {
    pub wasm_method: P::WasmMethod,
    pub default_heap_pages: Option<u64>,
    pub max_runtime_instances: usize,
    pub runtime_cache_size: u8,
}

/// Settings of the off-chain workers.
#[derive(Clone, Copy, Debug, PartialEq, Eq, Structural)]
pub struct OffchainWorkerConfig {
    pub enabled: bool,
    pub indexing_enabled: bool,
}

/// What a chain specification says beyond the generic part.
#[derive(Clone, Copy, Debug, PartialEq, Eq, Structural)]
pub struct Extensions {
    /// The first block whose EVM data is indexed.
    pub evm_since: u64,
}

/// A chain specification; not every one carries the extensions.
pub struct ChainSpec<P: Platform> {
    pub generic: P::GenericChainSpec,
    pub extensions: Option<Extensions>,
}

/// The configuration of a node, of the parachain or of the relay chain: the framework's own record,
/// and beside it what is read here.
pub struct Configuration<P: Platform> {
    pub framework: P::FrameworkConfiguration,
    pub role: Role,
    pub role_full: P::RoleFull,
    pub chain_spec: ChainSpec<P>,
    pub executor: ExecutorConfiguration<P>,
    pub network: P::NetworkConfiguration,
    pub keystore: P::KeystoreConfig,
    pub database: P::Database,
    pub transaction_pool: Arc<P::PoolOptions>,
    pub base_path: P::BasePath,
    pub offchain_worker: OffchainWorkerConfig,
    pub informant_output_format: P::OutputFormat,
    pub telemetry: P::TelemetryConfig,
    pub telemetry_endpoints: Option<TelemetryEndpoints<P>>,
    pub prometheus_config: Option<P::PrometheusConfig>,
    pub prometheus_registry: Option<Arc<P::Registry>>,
    pub state_cache_size: usize,
    pub state_cache_child_ratio: Option<usize>,
}

impl<P: Platform> Configuration<P> {
    /// Telemetry is wanted where at least one server is configured.
    pub open spec fn wants_telemetry(&self) -> bool {
        self.telemetry_endpoints matches Some(servers) && servers.endpoints@.len() > 0
    }

    /// The first block whose EVM data is indexed: block 1 unless the chain specification says
    /// otherwise.
    pub open spec fn evm_since_spec(&self) -> u64 {
        match self.chain_spec.extensions {
            Some(extensions) => extensions.evm_since,
            None => 1,
        }
    }

    /// The registry that metrics are reported to, shared.
    pub fn shared_registry(&self) -> (registry: Option<Arc<P::Registry>>)
        ensures
            registry == self.prometheus_registry,
    {
        match &self.prometheus_registry {
            Some(registry) => Some(registry.clone()),
            None => None,
        }
    }

    /// The first block whose EVM data is indexed.
    pub fn evm_since(&self) -> (first_block: u64)
        ensures
            first_block == self.evm_since_spec(),
            self.chain_spec.extensions matches Some(extensions) ==> first_block
                == extensions.evm_since,
            self.chain_spec.extensions is None ==> first_block == 1,
    {
        match &self.chain_spec.extensions {
            Some(extensions) => extensions.evm_since,
            None => 1,
        }
    }
}

/// Settings of the Ethereum RPC.
#[derive(Clone, Copy, Debug, PartialEq, Eq, Structural)]
pub struct EthereumConfig {
    pub eth_log_block_cache: usize,
    pub eth_statuses_cache: usize,
    pub enable_dev_signer: bool,
    pub max_past_logs: u32,
    pub fee_history_limit: u64,
    pub execute_gas_limit_multiplier: u64,
}

/// What the command line says about collating.
pub struct CollatorOptions<P: Platform> {
    pub keystore: P::CollatorKeystore,
    pub relay_chain_rpc_url: Option<String>,
}

/// The chain specification of the development network, out of what loading it gave.
pub fn chain_spec<P: Platform, E: core::fmt::Debug>(
    development_config: Result<ChainSpec<P>, E>,
) -> (spec: ChainSpec<P>)
    requires
        development_config is Ok,
    ensures
        development_config == Ok::<ChainSpec<P>, E>(spec),
{
    development_config.expect("Failed to load chain spec")
}

/// Telemetry is wanted with any number of servers above none, however many they are and whatever
/// they are called.
pub proof fn law_telemetry_needs_one_server<P: Platform>(config: Configuration<P>)
    ensures
        config.telemetry_endpoints is None ==> !config.wants_telemetry(),
        config.telemetry_endpoints matches Some(servers) ==> (config.wants_telemetry()
            <==> servers.endpoints@.len() > 0),
{
}

/// EVM data is indexed from the block that the chain specification names, and from block 1 where it
/// names none.
pub proof fn law_evm_begins_where_the_chain_says<P: Platform>(config: Configuration<P>)
    ensures
        config.chain_spec.extensions matches Some(extensions) ==> config.evm_since_spec()
            == extensions.evm_since,
        config.chain_spec.extensions is None ==> config.evm_since_spec() == 1,
{
}

} // verus!
