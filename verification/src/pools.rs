//! What the RPC shares with the tasks that keep the Ethereum view of the chain.
use std::collections::BTreeMap;
use std::sync::Arc;

use vstd::prelude::*;

use crate::platform::Platform;

verus! {

/// What the pools begin with; each is to be put behind a lock of its own.
pub struct PoolContents<P: Platform> {
    pub notification_sinks: Vec<P::NotificationSink>,
    pub filter_pool: BTreeMap<P::FilterKey, P::FilterPoolItem>,
    pub fee_history_cache: BTreeMap<u64, P::FeeHistoryCacheItem>,
}

impl<P: Platform> PoolContents<P> {
    /// Nobody subscribed, no filter is installed and no fee is remembered.
    pub open spec fn is_empty(&self) -> bool {
        &&& self.notification_sinks@.len() == 0
        &&& self.filter_pool@ == Map::<P::FilterKey, P::FilterPoolItem>::empty()
        &&& self.fee_history_cache@ == Map::<u64, P::FeeHistoryCacheItem>::empty()
    }
}

/// The pools, each behind its lock, and the way in which Ethereum data is read out of storage.
///
/// A subscription adds its channel to the sinks. The mapping worker sends through these channels
/// as it imports a block, so both sides have to hold the same sinks.
pub struct SharedPools<P: Platform> {
    pub notification_sinks: Arc<P::NotificationSinks>,
    pub filter_pool: Arc<P::FilterPool>,
    pub fee_history_cache: Arc<P::FeeHistoryCache>,
    pub overrides: Arc<P::StorageOverrides>,
}

impl<P: Platform> SharedPools<P> {
    /// The same pools once more.
    pub fn share(&self) -> (shared: Self)
        ensures
            shared == *self,
    {
        SharedPools {
            notification_sinks: self.notification_sinks.clone(),
            filter_pool: self.filter_pool.clone(),
            fee_history_cache: self.fee_history_cache.clone(),
            overrides: self.overrides.clone(),
        }
    }
}

} // verus!
