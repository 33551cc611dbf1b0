//! The node's connection to the relay chain.
use vstd::prelude::*;

use crate::config::{
    ChainSpec, CollatorOptions, Configuration, OffchainWorkerConfig, Role, TelemetryEndpoints,
};
use crate::platform::Platform;

verus! {

/// A setting that may be left at the framework's default.
pub enum Setting<T> {
    Default,
    Given(T),
}

/// The configuration of the relay chain's full node.
pub struct PolkadotFullConfiguration<P: Platform> {
    pub network: P::NetworkConfiguration,
    pub keystore: P::KeystoreConfig,
    pub database: P::Database,
    pub informant_output_format: P::OutputFormat,
    pub telemetry: P::TelemetryConfig,
    pub prometheus_config: Option<P::PrometheusConfig>,
    pub telemetry_endpoints: Option<TelemetryEndpoints<P>>,
    pub tracing_targets: Setting<P::TracingTargets>,
    pub tracing_receiver: Setting<P::TracingReceiver>,
    pub chain_spec: ChainSpec<P>,
    pub role: Role,
    pub base_path: P::BasePath,
    pub offchain_worker: OffchainWorkerConfig,
    pub state_cache_size: usize,
    pub state_cache_child_ratio: Option<usize>,
    pub role_full: P::RoleFull,
}

/// The relay chain node keeps what it is configured with; only tracing is left at its defaults.
pub open spec fn full_configuration_of<P: Platform>(
    config: Configuration<P>,
) -> PolkadotFullConfiguration<P> {
    PolkadotFullConfiguration {
        network: config.network,
        keystore: config.keystore,
        database: config.database,
        informant_output_format: config.informant_output_format,
        telemetry: config.telemetry,
        prometheus_config: config.prometheus_config,
        telemetry_endpoints: config.telemetry_endpoints,
        tracing_targets: Setting::Default,
        tracing_receiver: Setting::Default,
        chain_spec: config.chain_spec,
        role: config.role,
        base_path: config.base_path,
        offchain_worker: config.offchain_worker,
        state_cache_size: config.state_cache_size,
        state_cache_child_ratio: config.state_cache_child_ratio,
        role_full: config.role_full,
    }
}

/// What the relay chain's full node is started with, beside the parachain's configuration and the
/// task manager.
pub struct FullNodeRequest<P: Platform> {
    pub config: PolkadotFullConfiguration<P>,
    pub telemetry_worker_handle: Option<P::TelemetryWorkerHandle>,
    pub relay_chain_rpc_url: Option<String>,
    pub instant_seal: Option<P::InstantSeal>,
}

/// The keystore of the command line is to be searched for a collator key.
pub struct CollatorKeySearch<P: Platform> {
    pub request: FullNodeRequest<P>,
}

/// The request for the relay chain's full node.
pub open spec fn full_node_request<P: Platform>(
    polkadot_config: Configuration<P>,
    telemetry_worker_handle: Option<P::TelemetryWorkerHandle>,
    collator_options: CollatorOptions<P>,
    instant_seal: Option<P::InstantSeal>,
) -> FullNodeRequest<P> {
    FullNodeRequest {
        config: full_configuration_of(polkadot_config),
        telemetry_worker_handle,
        relay_chain_rpc_url: collator_options.relay_chain_rpc_url,
        instant_seal,
    }
}

/// Prepares the relay chain interface for interacting with the relay chain. The first of the two
/// results is the keystore to be searched.
pub fn build_relay_chain_interface<P: Platform>(
    polkadot_config: Configuration<P>,
    telemetry_worker_handle: Option<P::TelemetryWorkerHandle>,
    collator_options: CollatorOptions<P>,
    instant_seal: Option<P::InstantSeal>,
) -> (search: (P::CollatorKeystore, CollatorKeySearch<P>))
    ensures
        search.0 == collator_options.keystore,
        search.1.request.telemetry_worker_handle == telemetry_worker_handle,
        search.1.request.relay_chain_rpc_url == collator_options.relay_chain_rpc_url,
        search.1.request.instant_seal == instant_seal,
        search.1.request.config.tracing_targets is Default,
        search.1.request.config.tracing_receiver is Default,
        search.1.request.config.network == polkadot_config.network,
        search.1.request.config.keystore == polkadot_config.keystore,
        search.1.request.config.database == polkadot_config.database,
        search.1.request.config.informant_output_format == polkadot_config.informant_output_format,
        search.1.request.config.telemetry == polkadot_config.telemetry,
        search.1.request.config.prometheus_config == polkadot_config.prometheus_config,
        search.1.request.config.telemetry_endpoints == polkadot_config.telemetry_endpoints,
        search.1.request.config.chain_spec == polkadot_config.chain_spec,
        search.1.request.config.role == polkadot_config.role,
        search.1.request.config.base_path == polkadot_config.base_path,
        search.1.request.config.offchain_worker == polkadot_config.offchain_worker,
        search.1.request.config.state_cache_size == polkadot_config.state_cache_size,
        search.1.request.config.state_cache_child_ratio == polkadot_config.state_cache_child_ratio,
        search.1.request.config.role_full == polkadot_config.role_full,
        search.1.request == full_node_request(
            polkadot_config,
            telemetry_worker_handle,
            collator_options,
            instant_seal,
        ),
{
    let request = FullNodeRequest {
        config: PolkadotFullConfiguration {
            network: polkadot_config.network,
            keystore: polkadot_config.keystore,
            database: polkadot_config.database,
            informant_output_format: polkadot_config.informant_output_format,
            telemetry: polkadot_config.telemetry,
            prometheus_config: polkadot_config.prometheus_config,
            telemetry_endpoints: polkadot_config.telemetry_endpoints,
            tracing_targets: Setting::Default,
            tracing_receiver: Setting::Default,
            chain_spec: polkadot_config.chain_spec,
            role: polkadot_config.role,
            base_path: polkadot_config.base_path,
            offchain_worker: polkadot_config.offchain_worker,
            state_cache_size: polkadot_config.state_cache_size,
            state_cache_child_ratio: polkadot_config.state_cache_child_ratio,
            role_full: polkadot_config.role_full,
        },
        telemetry_worker_handle,
        relay_chain_rpc_url: collator_options.relay_chain_rpc_url,
        instant_seal,
    };
    (collator_options.keystore, CollatorKeySearch { request })
}

impl<P: Platform> CollatorKeySearch<P> {
    /// The keystore was searched. The relay chain's full node is started only where it holds a
    /// collator key; the key that the node then collates with is the one that starting gives.
    pub fn key_looked_up(self, key: Option<P::CollatorPair>) -> (request: FullNodeRequest<P>)
        requires
            key is Some,
        ensures
            request == self.request,
    {
        let _ = key.expect("Collator key not found in keystore");
        self.request
    }
}

/// The relay chain's full node is started with the telemetry worker, the address of the relay chain
/// and the sealing hook that it is given. It keeps every setting of its configuration; tracing alone
/// is left at the framework's defaults.
pub proof fn law_relay_node_keeps_what_it_is_given<P: Platform>(
    polkadot_config: Configuration<P>,
    telemetry_worker_handle: Option<P::TelemetryWorkerHandle>,
    collator_options: CollatorOptions<P>,
    instant_seal: Option<P::InstantSeal>,
)
    ensures
        ({
            let request = full_node_request(
                polkadot_config,
                telemetry_worker_handle,
                collator_options,
                instant_seal,
            );
            &&& request.telemetry_worker_handle == telemetry_worker_handle
            &&& request.relay_chain_rpc_url == collator_options.relay_chain_rpc_url
            &&& request.instant_seal == instant_seal
            &&& request.config.tracing_targets is Default
            &&& request.config.tracing_receiver is Default
            &&& request.config.network == polkadot_config.network
            &&& request.config.keystore == polkadot_config.keystore
            &&& request.config.database == polkadot_config.database
            &&& request.config.informant_output_format == polkadot_config.informant_output_format
            &&& request.config.telemetry == polkadot_config.telemetry
            &&& request.config.prometheus_config == polkadot_config.prometheus_config
            &&& request.config.telemetry_endpoints == polkadot_config.telemetry_endpoints
            &&& request.config.chain_spec == polkadot_config.chain_spec
            &&& request.config.role == polkadot_config.role
            &&& request.config.base_path == polkadot_config.base_path
            &&& request.config.offchain_worker == polkadot_config.offchain_worker
            &&& request.config.state_cache_size == polkadot_config.state_cache_size
            &&& request.config.state_cache_child_ratio == polkadot_config.state_cache_child_ratio
            &&& request.config.role_full == polkadot_config.role_full
        }),
{
}

} // verus!
