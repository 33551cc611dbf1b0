//! The factory of nodes.
use std::marker::PhantomData;

use vstd::prelude::*;

use crate::config::{CollatorOptions, Configuration, EthereumConfig};
use crate::node::{start_node_impl, PrepareStage};
use crate::platform::Platform;

verus! {

/// The parachain id of a node that is not told another.
pub const DEFAULT_PARA_ID: u32 = 2000;

/// Makes nodes that run on an executor `E`.
pub struct ServiceFactory<E>(PhantomData<E>);

impl<E> ServiceFactory<E> {
    /// The one factory for `E`: a factory holds nothing.
    pub closed spec fn only() -> Self {
        ServiceFactory(PhantomData)
    }

    /// Starts a node under the default parachain id, with the framework's default configuration of
    /// the relay chain and the default Ethereum and collator settings.
    pub fn new_service<P: Platform>(
        &self,
        config: Configuration<P>,
        default_polkadot_config: Configuration<P>,
        default_ethereum_config: EthereumConfig,
        default_collator_options: CollatorOptions<P>,
    ) -> (start: (Configuration<P>, PrepareStage<P>))
        ensures
            start.0 == config,
            start.1.para_id == 2000,
            start.1 == (PrepareStage {
                polkadot_config: default_polkadot_config,
                ethereum_config: default_ethereum_config,
                collator_options: default_collator_options,
                para_id: DEFAULT_PARA_ID,
            }),
    {
        start_node_impl(
            config,
            default_polkadot_config,
            default_ethereum_config,
            default_collator_options,
            DEFAULT_PARA_ID,
        )
    }
}

impl<E> Default for ServiceFactory<E> {
    fn default() -> (factory: Self)
        ensures
            factory == Self::only(),
    {
        ServiceFactory(PhantomData)
    }
}

} // verus!
