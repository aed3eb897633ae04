//! The EVM environment of a block: chain id and rule set, and the block
//! fields the EVM reads.
use vstd::prelude::*;

use crate::block::{Header, SealedBlock};
use crate::hardfork::{ScrollChainSpec, ScrollSpecId};
use crate::primitives::{Address, B256, U256};

verus! {

/// The block fields the EVM reads.
#[derive(Clone, Copy, Debug)]
pub struct BlockEnv {
    pub number: u64,
    pub beneficiary: Address,
    pub timestamp: u64,
    pub difficulty: U256,
    pub prevrandao: Option<B256>,
    pub gas_limit: u64,
    pub basefee: u64,
}


/// Chain-wide EVM settings.
#[derive(Clone, Copy, Debug, PartialEq, Eq, Structural)]
pub struct CfgEnv {
    pub chain_id: u64,
    pub spec: ScrollSpecId,
}

/// Everything the EVM needs to know about the block it runs in.
#[derive(Clone, Copy, Debug)]
pub struct EvmEnv {
    pub cfg_env: CfgEnv,
    pub block_env: BlockEnv,
}

/// The block fields an execution is keyed by.
#[derive(Clone, Copy, Debug)]
pub struct ScrollBlockExecutionInput {
    pub number: u64,
    pub timestamp: u64,
    pub parent_hash: B256,
    pub gas_limit: u64,
    pub beneficiary: Address,
}

impl ScrollBlockExecutionInput {
    /// The input of the sealed block `block`.
    pub fn from_block(block: &SealedBlock) -> (r: ScrollBlockExecutionInput)
        ensures
            r.number == block.block.header.number,
            r.timestamp == block.block.header.timestamp,
            r.parent_hash == block.block.header.parent_hash,
            r.gas_limit == block.block.header.gas_limit,
            r.beneficiary == block.block.header.beneficiary,
    {
        let h = &block.block.header;
        ScrollBlockExecutionInput {
            number: h.number,
            timestamp: h.timestamp,
            parent_hash: h.parent_hash,
            gas_limit: h.gas_limit,
            beneficiary: h.beneficiary,
        }
    }
}

/// What the block builder chooses for the next block.
#[derive(Clone, Copy, Debug)]
pub struct NextBlockEnvAttributes {
    pub timestamp: u64,
    pub suggested_fee_recipient: Address,
    pub prev_randao: B256,
    pub gas_limit: u64,
}

/// What a block's execution needs beyond its environment.
#[derive(Clone, Copy, Debug)]
pub struct ScrollBlockExecutionCtx {
    pub parent_hash: B256,
}

/// Builds EVM environments under a chain's fork schedule.
#[derive(Clone, Copy, Debug)]
pub struct ScrollEvmConfig {
    chain_spec: ScrollChainSpec,
}

/// Who receives the block's fees: the chain's fee vault if it has one, else
/// `fallback`.
pub open spec fn coinbase(spec: ScrollChainSpec, fallback: Address) -> Address {
    match spec.fee_vault_address {
        Some(v) => v,
        None => fallback,
    }
}

impl ScrollEvmConfig {
    pub closed spec fn spec_chain(&self) -> ScrollChainSpec {
        self.chain_spec
    }

    pub fn new(chain_spec: ScrollChainSpec) -> (r: ScrollEvmConfig)
        ensures
            r.spec_chain() == chain_spec,
    {
        ScrollEvmConfig { chain_spec }
    }

    pub fn chain_spec(&self) -> (r: &ScrollChainSpec)
        ensures
            *r == self.spec_chain(),
    {
        &self.chain_spec
    }

    /// The rule set at a block with this timestamp and number.
    pub fn spec_id_at_timestamp_and_number(&self, timestamp: u64, number: u64) -> (r:
        ScrollSpecId)
        ensures
            r == self.spec_chain().spec_at(timestamp, number),
    {
        self.chain_spec.spec_id_at_timestamp_and_number(timestamp, number)
    }

    /// The environment for executing the block with header `header`.
    pub fn evm_env(&self, header: &Header) -> (r: EvmEnv)
        ensures
            r.cfg_env.chain_id == self.spec_chain().chain_id,
            r.cfg_env.spec == self.spec_chain().spec_at(header.timestamp, header.number),
            r.block_env.number == header.number,
            r.block_env.beneficiary == coinbase(self.spec_chain(), header.beneficiary),
            r.block_env.timestamp == header.timestamp,
            r.block_env.difficulty == header.difficulty,
            r.block_env.prevrandao == Some(header.mix_hash),
            r.block_env.gas_limit == header.gas_limit,
            r.block_env.basefee == match header.base_fee_per_gas {
                Some(b) => b,
                None => 0,
            },
    {
        let spec = self.spec_id_at_timestamp_and_number(header.timestamp, header.number);
        let beneficiary = match self.chain_spec.fee_vault_address {
            Some(v) => v,
            None => header.beneficiary,
        };
        let basefee = match header.base_fee_per_gas {
            Some(b) => b,
            None => 0,
        };
        EvmEnv {
            cfg_env: CfgEnv { chain_id: self.chain_spec.chain_id, spec },
            block_env: BlockEnv {
                number: header.number,
                beneficiary,
                timestamp: header.timestamp,
                difficulty: header.difficulty,
                prevrandao: Some(header.mix_hash),
                gas_limit: header.gas_limit,
                basefee,
            },
        }
    }

    /// The environment for building the block after `parent`, with the
    /// builder's `attributes`. Difficulty is zero; the base fee is carried
    /// over from the parent.
    pub fn next_evm_env(&self, parent: &Header, attributes: &NextBlockEnvAttributes) -> (r:
        EvmEnv)
        requires
            parent.number < u64::MAX,
        ensures
            r.cfg_env.chain_id == self.spec_chain().chain_id,
            r.cfg_env.spec == self.spec_chain().spec_at(attributes.timestamp, (parent.number + 1) as u64),
            r.block_env.number == parent.number + 1,
            r.block_env.beneficiary == coinbase(self.spec_chain(), attributes.suggested_fee_recipient),
            r.block_env.timestamp == attributes.timestamp,
            r.block_env.difficulty.value() == 0,
            r.block_env.prevrandao == Some(attributes.prev_randao),
            r.block_env.gas_limit == attributes.gas_limit,
            r.block_env.basefee == match parent.base_fee_per_gas {
                Some(b) => b,
                None => 0,
            },
    {
        let number = parent.number + 1;
        let spec = self.spec_id_at_timestamp_and_number(attributes.timestamp, number);
        let beneficiary = match self.chain_spec.fee_vault_address {
            Some(v) => v,
            None => attributes.suggested_fee_recipient,
        };
        let basefee = match parent.base_fee_per_gas {
            Some(b) => b,
            None => 0,
        };
        EvmEnv {
            cfg_env: CfgEnv { chain_id: self.chain_spec.chain_id, spec },
            block_env: BlockEnv {
                number,
                beneficiary,
                timestamp: attributes.timestamp,
                difficulty: U256::zero(),
                prevrandao: Some(attributes.prev_randao),
                gas_limit: attributes.gas_limit,
                basefee,
            },
        }
    }

    /// The execution context of a block with header `header`.
    pub fn context_for_block(&self, header: &Header) -> (r: ScrollBlockExecutionCtx)
        ensures
            r.parent_hash == header.parent_hash,
    {
        ScrollBlockExecutionCtx { parent_hash: header.parent_hash }
    }

    /// The execution context of the block after the one with hash
    /// `parent_hash`.
    pub fn context_for_next_block(&self, parent_hash: B256) -> (r: ScrollBlockExecutionCtx)
        ensures
            r.parent_hash == parent_hash,
    {
        ScrollBlockExecutionCtx { parent_hash }
    }
}

} // verus!
