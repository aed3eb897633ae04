//! Payload validation for blocks sealed by the chain's Clique-style signer
//! rotation: the payload's hash covers a difficulty that the payload does
//! not carry, so both possible difficulties are tried.
use vstd::prelude::*;

use crate::block::{header_hash, Header, SealedBlock};
use crate::hardfork::ScrollChainSpec;
use crate::payload::{
    header_from_payload, body_from_payload, try_into_block, ExecutionPayload,
    ExecutionPayloadSidecar, PayloadError, MAXIMUM_EXTRA_DATA_SIZE, is_tx_envelope, payload_ok, txs_ok,
};
use crate::primitives::U256;

verus! {

/// Difficulty of a block sealed by the in-turn signer.
pub const CLIQUE_IN_TURN_DIFFICULTY: u64 = 2;

/// Difficulty of a block sealed by an out-of-turn signer.
pub const CLIQUE_NO_TURN_DIFFICULTY: u64 = 1;

/// `h` with difficulty `d`.
pub open spec fn with_difficulty(h: Header, d: u64) -> Header {
    Header { difficulty: U256 { l0: d, l1: 0, l2: 0, l3: 0 }, ..h }
}

/// Builds the payload validator.
#[derive(Clone, Copy, Debug)]
pub struct ScrollEngineValidatorBuilder;

impl ScrollEngineValidatorBuilder {
    /// The validator for a chain with fork schedule `chainspec`.
    pub fn build(self, chainspec: ScrollChainSpec) -> (r: ScrollEngineValidator)
        ensures
            r.spec_chain() == chainspec,
    {
        ScrollEngineValidator::new(chainspec)
    }
}

/// Validates payloads of Clique-sealed blocks.
#[derive(Clone, Copy, Debug)]
pub struct ScrollEngineValidator {
    chainspec: ScrollChainSpec,
}

impl ScrollEngineValidator {
    pub closed spec fn spec_chain(&self) -> ScrollChainSpec {
        self.chainspec
    }

    pub fn new(chainspec: ScrollChainSpec) -> (r: ScrollEngineValidator)
        ensures
            r.spec_chain() == chainspec,
    {
        ScrollEngineValidator { chainspec }
    }

    /// Turns a payload into a sealed block. The block is built from the
    /// payload; its hash is computed with the in-turn difficulty, then with
    /// the no-turn difficulty, and the first that equals the payload's
    /// claimed hash seals the block. If neither does, the error carries the
    /// no-turn hash and the claimed one.
    pub fn ensure_well_formed_payload(
        &self,
        payload: ExecutionPayload,
        sidecar: ExecutionPayloadSidecar,
    ) -> (r: Result<SealedBlock, PayloadError>)
        ensures
            payload.extra_data@.len() > MAXIMUM_EXTRA_DATA_SIZE ==> (r matches Err(
                PayloadError::ExtraData(d),
            ) && d@ == payload.extra_data@),
            payload.extra_data@.len() <= MAXIMUM_EXTRA_DATA_SIZE
                && payload.base_fee_per_gas.value() > u64::MAX ==> (r matches Err(
                PayloadError::BaseFee(f),
            ) && f == payload.base_fee_per_gas),
            payload.extra_data@.len() <= MAXIMUM_EXTRA_DATA_SIZE
                && payload.base_fee_per_gas.value() <= u64::MAX && !txs_ok(payload) ==> (r matches Err(
                PayloadError::Decode(i),
            ) && i < payload.transactions@.len() && !is_tx_envelope(
                payload.transactions.deep_view()[i as int],
            ) && forall|j: int|
                0 <= j < i ==> is_tx_envelope(#[trigger] payload.transactions.deep_view()[j])),
            payload_ok(payload) ==> exists|h: Header|
                #[trigger] header_from_payload(h, payload, sidecar) && {
                    let in_turn = with_difficulty(h, CLIQUE_IN_TURN_DIFFICULTY);
                    let no_turn = with_difficulty(h, CLIQUE_NO_TURN_DIFFICULTY);
                    let claimed = payload.block_hash@;
                    if header_hash(in_turn) == claimed {
                        r matches Ok(sb) && sb.block.header == in_turn && sb.hash@ == claimed
                            && body_from_payload(sb.block.body, payload)
                    } else if header_hash(no_turn) == claimed {
                        r matches Ok(sb) && sb.block.header == no_turn && sb.hash@ == claimed
                            && body_from_payload(sb.block.body, payload)
                    } else {
                        r matches Err(PayloadError::BlockHash { execution, consensus })
                            && execution@ == header_hash(no_turn) && consensus
                            == payload.block_hash
                    }
                },
    {
        let expected_hash = payload.block_hash;
        let mut block = match try_into_block(payload, &sidecar) {
            Ok(b) => b,
            Err(e) => {
                return Err(e);
            },
        };
        let ghost h0 = block.header;
        block.header.difficulty = U256::from_u64(CLIQUE_IN_TURN_DIFFICULTY);
        assert(block.header == with_difficulty(h0, CLIQUE_IN_TURN_DIFFICULTY));
        let block_hash_in_turn = block.header.hash_slow();
        if block_hash_in_turn.same(&expected_hash) {
            return Ok(SealedBlock { block, hash: block_hash_in_turn });
        }
        block.header.difficulty = U256::from_u64(CLIQUE_NO_TURN_DIFFICULTY);
        assert(block.header == with_difficulty(h0, CLIQUE_NO_TURN_DIFFICULTY));
        let block_hash_no_turn = block.header.hash_slow();
        if block_hash_no_turn.same(&expected_hash) {
            return Ok(SealedBlock { block, hash: block_hash_no_turn });
        }
        Err(PayloadError::BlockHash { execution: block_hash_no_turn, consensus: expected_hash })
    }
}

} // verus!
