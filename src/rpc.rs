//! The parts of the `eth_` API that depend on this chain's rules: the
//! environment of the pending block.
use vstd::prelude::*;

use crate::block::Header;
use crate::config::{NextBlockEnvAttributes, ScrollEvmConfig};
use crate::primitives::B256;

verus! {

/// Seconds between blocks assumed for the pending block.
pub const PENDING_BLOCK_INTERVAL: u64 = 12;

/// What the RPC layer needs from the node's core components.
pub trait ScrollNodeCore {
    /// The EVM configuration of the node.
    fn evm_config(&self) -> &ScrollEvmConfig;
}

/// Builds a [`ScrollEthApi`].
#[derive(Clone, Copy, Debug, Default)]
pub struct ScrollEthApiBuilder {}

impl ScrollEthApiBuilder {
    /// A builder.
    pub fn new() -> (r: ScrollEthApiBuilder) {
        ScrollEthApiBuilder {  }
    }

    /// The API over the node whose EVM configuration is `evm_config`.
    pub fn build(self, evm_config: ScrollEvmConfig) -> (r: ScrollEthApi)
        ensures
            r.spec_evm_config() == evm_config,
    {
        ScrollEthApi { evm_config }
    }
}

/// The chain-specific part of the `eth_` API.
#[derive(Clone, Copy, Debug)]
pub struct ScrollEthApi {
    evm_config: ScrollEvmConfig,
}

impl ScrollNodeCore for ScrollEthApi {
    fn evm_config(&self) -> &ScrollEvmConfig {
        &self.evm_config
    }
}

impl ScrollEthApi {
    pub closed spec fn spec_evm_config(&self) -> ScrollEvmConfig {
        self.evm_config
    }

    /// A builder for the API.
    pub fn builder() -> (r: ScrollEthApiBuilder) {
        ScrollEthApiBuilder::new()
    }

    /// The attributes of the pending block on top of `parent`: twelve
    /// seconds later (saturating), the parent's beneficiary and gas limit,
    /// and `prev_randao`, which the caller draws at random.
    pub fn next_env_attributes(&self, parent: &Header, prev_randao: B256) -> (r:
        NextBlockEnvAttributes)
        ensures
            r.timestamp == if parent.timestamp <= u64::MAX - PENDING_BLOCK_INTERVAL {
                (parent.timestamp + PENDING_BLOCK_INTERVAL) as u64
            } else {
                u64::MAX
            },
            r.suggested_fee_recipient == parent.beneficiary,
            r.prev_randao == prev_randao,
            r.gas_limit == parent.gas_limit,
    {
        let timestamp = if parent.timestamp <= u64::MAX - PENDING_BLOCK_INTERVAL {
            parent.timestamp + PENDING_BLOCK_INTERVAL
        } else {
            u64::MAX
        };
        NextBlockEnvAttributes {
            timestamp,
            suggested_fee_recipient: parent.beneficiary,
            prev_randao,
            gas_limit: parent.gas_limit,
        }
    }
}

} // verus!
