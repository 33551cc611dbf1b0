//! How the WASM executor of the node is set up.
use vstd::prelude::*;

use crate::config::ExecutorConfiguration;
use crate::platform::Platform;

verus! {

/// How many heap pages a WASM runtime instance gets; a page is 64 KiB.
#[derive(Clone, Copy, Debug, PartialEq, Eq, Structural)]
pub enum HeapAllocStrategy {
    /// A fixed number of pages on top of what the runtime itself asks for.
    Static { extra_pages: u32 },
    /// Pages on demand, up to the maximum if there is one.
    Dynamic { maximum_pages: Option<u32> },
}

/// What the executor falls back to, `sc_executor_common::wasm_runtime::DEFAULT_HEAP_ALLOC_STRATEGY`
/// (which `sc_executor` re-exports).
///
/// The contract claims that this constant is the static strategy with 2048 extra pages.
#[verifier::external_body]
fn default_heap_alloc_strategy() -> (strategy: HeapAllocStrategy)
    ensures
        strategy == (HeapAllocStrategy::Static { extra_pages: 2048 }),
{
    match sc_executor_common::wasm_runtime::DEFAULT_HEAP_ALLOC_STRATEGY {
        sc_executor_common::wasm_runtime::HeapAllocStrategy::Static { extra_pages } =>
            HeapAllocStrategy::Static { extra_pages },
        sc_executor_common::wasm_runtime::HeapAllocStrategy::Dynamic { maximum_pages } =>
            HeapAllocStrategy::Dynamic { maximum_pages },
    }
}

/// The heap pages that a configured count stands for: its low 32 bits.
pub open spec fn extra_pages_of(configured: u64) -> int {
    configured as int % 0x1_0000_0000
}

/// The strategy that `default_heap_pages` asks for: that many static pages, or the executor's
/// default where nothing is configured.
pub open spec fn heap_alloc_strategy_spec(default_heap_pages: Option<u64>) -> HeapAllocStrategy {
    HeapAllocStrategy::Static {
        extra_pages: match default_heap_pages {
            Some(pages) => extra_pages_of(pages) as u32,
            None => 2048,
        },
    }
}

/// The heap allocation strategy that the configured page count asks for.
pub fn heap_alloc_strategy(default_heap_pages: Option<u64>) -> (strategy: HeapAllocStrategy)
    ensures
        strategy == heap_alloc_strategy_spec(default_heap_pages),
        strategy is Static,
        default_heap_pages matches Some(pages) ==> strategy->extra_pages as int == pages as int
            % 0x1_0000_0000,
        default_heap_pages is None ==> strategy->extra_pages == 2048,
{
    match default_heap_pages {
        None => default_heap_alloc_strategy(),
        Some(pages) => {
            let extra_pages: u32 = #[verifier::truncate] (pages as u32);
            assert(pages as u32 == pages % 0x1_0000_0000) by (bit_vector);
            HeapAllocStrategy::Static { extra_pages }
        },
    }
}

/// What the executor is built with.
pub struct ExecutorSettings<P: Platform> {
    pub execution_method: P::WasmMethod,
    pub onchain_heap_alloc_strategy: HeapAllocStrategy,
    pub offchain_heap_alloc_strategy: HeapAllocStrategy,
    pub max_runtime_instances: usize,
    pub runtime_cache_size: u8,
}

impl<P: Platform> ExecutorSettings<P> {
    /// The same settings once more.
    pub fn copied(&self) -> (copy: Self)
        ensures
            copy == *self,
    {
        ExecutorSettings {
            execution_method: self.execution_method,
            onchain_heap_alloc_strategy: self.onchain_heap_alloc_strategy,
            offchain_heap_alloc_strategy: self.offchain_heap_alloc_strategy,
            max_runtime_instances: self.max_runtime_instances,
            runtime_cache_size: self.runtime_cache_size,
        }
    }
}

/// The executor settings of a configuration: on-chain and off-chain calls share one strategy.
pub fn executor_settings<P: Platform>(executor: &ExecutorConfiguration<P>) -> (settings:
    ExecutorSettings<P>)
    ensures
        settings == executor_settings_spec(*executor),
        settings.execution_method == executor.wasm_method,
        settings.max_runtime_instances == executor.max_runtime_instances,
        settings.runtime_cache_size == executor.runtime_cache_size,
        settings.onchain_heap_alloc_strategy is Static,
        settings.onchain_heap_alloc_strategy == settings.offchain_heap_alloc_strategy,
        executor.default_heap_pages matches Some(pages)
            ==> settings.onchain_heap_alloc_strategy->extra_pages as int == pages as int
            % 0x1_0000_0000,
        executor.default_heap_pages is None
            ==> settings.onchain_heap_alloc_strategy->extra_pages == 2048,
{
    let heap_pages = heap_alloc_strategy(executor.default_heap_pages);
    ExecutorSettings {
        execution_method: executor.wasm_method,
        onchain_heap_alloc_strategy: heap_pages,
        offchain_heap_alloc_strategy: heap_pages,
        max_runtime_instances: executor.max_runtime_instances,
        runtime_cache_size: executor.runtime_cache_size,
    }
}

/// The executor settings of a configuration.
pub open spec fn executor_settings_spec<P: Platform>(
    executor: ExecutorConfiguration<P>,
) -> ExecutorSettings<P> {
    ExecutorSettings {
        execution_method: executor.wasm_method,
        onchain_heap_alloc_strategy: heap_alloc_strategy_spec(executor.default_heap_pages),
        offchain_heap_alloc_strategy: heap_alloc_strategy_spec(executor.default_heap_pages),
        max_runtime_instances: executor.max_runtime_instances,
        runtime_cache_size: executor.runtime_cache_size,
    }
}

/// On-chain and off-chain calls get the same static number of heap pages, which is the configured
/// one wherever that fits.
pub proof fn law_executor_heap<P: Platform>(executor: ExecutorConfiguration<P>)
    ensures
        ({
            let settings = executor_settings_spec(executor);
            &&& settings.onchain_heap_alloc_strategy == settings.offchain_heap_alloc_strategy
            &&& settings.onchain_heap_alloc_strategy is Static
            &&& executor.default_heap_pages matches Some(pages) ==> pages <= u32::MAX
                ==> settings.onchain_heap_alloc_strategy->extra_pages == pages
        }),
{
}

/// The executor runs with the configured method, number of instances and cache. Its heap is static,
/// with the low 32 bits of the configured page count, or 2048 pages where none is configured.
pub proof fn law_executor_follows_its_configuration<P: Platform>(
    executor: ExecutorConfiguration<P>,
)
    ensures
        ({
            let settings = executor_settings_spec(executor);
            let heap = settings.onchain_heap_alloc_strategy;
            &&& settings.execution_method == executor.wasm_method
            &&& settings.max_runtime_instances == executor.max_runtime_instances
            &&& settings.runtime_cache_size == executor.runtime_cache_size
            &&& heap == settings.offchain_heap_alloc_strategy
            &&& heap is Static
            &&& executor.default_heap_pages matches Some(pages) ==> heap->extra_pages as int
                == pages as int % 0x1_0000_0000
            &&& executor.default_heap_pages is None ==> heap->extra_pages == 2048
        }),
{
}

} // verus!
