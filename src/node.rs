//! The node type: the chain's components, put together from one fork
//! schedule.
use vstd::prelude::*;

use crate::assembler::ScrollBlockAssembler;
use crate::config::ScrollEvmConfig;
use crate::engine::ScrollEngineValidator;
use crate::hardfork::ScrollChainSpec;

verus! {

/// Gives the executor configuration of a chain.
#[derive(Clone, Copy, Debug)]
pub struct ScrollExecutorProvider;

impl ScrollExecutorProvider {
    /// The executor configuration for the chain with fork schedule
    /// `chain_spec`.
    pub fn scroll(chain_spec: ScrollChainSpec) -> (r: ScrollEvmConfig)
        ensures
            r.spec_chain() == chain_spec,
    {
        ScrollEvmConfig::new(chain_spec)
    }
}

/// The components a node of this chain runs on.
#[derive(Clone, Copy, Debug)]
pub struct ScrollNodeComponents {
    pub evm_config: ScrollEvmConfig,
    pub block_assembler: ScrollBlockAssembler,
    pub engine_validator: ScrollEngineValidator,
}

/// A node of this chain.
#[derive(Clone, Copy, Debug, Default)]
pub struct ScrollNode;

impl ScrollNode {
    /// The node's components, all under the fork schedule `chain_spec`.
    pub fn components(chain_spec: ScrollChainSpec) -> (r: ScrollNodeComponents)
        ensures
            r.evm_config.spec_chain() == chain_spec,
            r.block_assembler.spec_chain() == chain_spec,
            r.engine_validator.spec_chain() == chain_spec,
    {
        ScrollNodeComponents {
            evm_config: ScrollExecutorProvider::scroll(chain_spec),
            block_assembler: ScrollBlockAssembler::new(chain_spec),
            engine_validator: ScrollEngineValidator::new(chain_spec),
        }
    }
}

} // verus!
