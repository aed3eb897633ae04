//! The outcome of building a block for the consensus client, and the
//! payload shapes it is handed back in.
use vstd::prelude::*;

use crate::block::SealedBlock;
use crate::payload::{
    body_from_payload, empty_ommers_hash, header_from_payload, trie_root_of, withdrawals_root_of,
    ExecutionPayload, ExecutionPayloadSidecar,
};
use crate::primitives::U256;

verus! {

/// Identifies a payload-building job.
#[derive(Clone, Copy, Debug)]
pub struct PayloadId {
    pub bytes: [u8; 8],
}

/// A block that was built, with the fees it collects.
#[derive(Clone, Debug)]
pub struct ScrollBuiltPayload {
    id: PayloadId,
    block: SealedBlock,
    fees: U256,
}

/// Blobs that go with a payload; this chain's payloads carry none.
#[derive(Clone, Debug)]
pub struct BlobsBundleV1 {
    pub commitments: Vec<Vec<u8>>,
    pub proofs: Vec<Vec<u8>>,
    pub blobs: Vec<Vec<u8>>,
}

/// The second-version answer: the payload and its value.
#[derive(Clone, Debug)]
pub struct ExecutionPayloadEnvelopeV2 {
    pub execution_payload: ExecutionPayload,
    pub block_value: U256,
}

/// The third-version answer: adds the blobs and the builder override flag.
#[derive(Clone, Debug)]
pub struct ExecutionPayloadEnvelopeV3 {
    pub execution_payload: ExecutionPayload,
    pub block_value: U256,
    pub blobs_bundle: BlobsBundleV1,
    pub should_override_builder: bool,
}

/// The fourth-version answer: adds the execution requests.
#[derive(Clone, Debug)]
pub struct ExecutionPayloadEnvelopeV4 {
    pub envelope_inner: ExecutionPayloadEnvelopeV3,
    pub execution_requests: Vec<Vec<u8>>,
}

/// Whether `p` carries the fields of the sealed block `b`, with the
/// withdrawals when `with_withdrawals` and the blob fields when `with_blobs`.
pub open spec fn payload_of(p: ExecutionPayload, b: SealedBlock, with_withdrawals: bool, with_blobs: bool) -> bool {
    let h = b.block.header;
    &&& p.parent_hash == h.parent_hash
    &&& p.fee_recipient == h.beneficiary
    &&& p.state_root == h.state_root
    &&& p.receipts_root == h.receipts_root
    &&& p.logs_bloom@ == h.logs_bloom@
    &&& p.prev_randao == h.mix_hash
    &&& p.block_number == h.number
    &&& p.gas_limit == h.gas_limit
    &&& p.gas_used == h.gas_used
    &&& p.timestamp == h.timestamp
    &&& p.extra_data@ == h.extra_data@
    &&& p.base_fee_per_gas.value() == match h.base_fee_per_gas {
        Some(f) => f as nat,
        None => 0,
    }
    &&& p.block_hash == b.hash
    &&& p.transactions.deep_view() == b.block.body.transactions.deep_view()
    &&& p.withdrawals == if with_withdrawals {
        b.block.body.withdrawals
    } else {
        None
    }
    &&& p.blob_gas_used == if with_blobs {
        h.blob_gas_used
    } else {
        None
    }
    &&& p.excess_blob_gas == if with_blobs {
        h.excess_blob_gas
    } else {
        None
    }
}

/// Whether the sealed block's header has the shape a payload can describe:
/// no ommers, zero nonce, roots over its own transactions and withdrawals, a
/// base fee, and neither a beacon root nor a requests hash.
pub open spec fn payload_shaped(b: SealedBlock) -> bool {
    let h = b.block.header;
    &&& h.ommers_hash@ == empty_ommers_hash()
    &&& h.transactions_root@ == trie_root_of(b.block.body.transactions.deep_view())
    &&& (match b.block.body.withdrawals {
        Some(ws) => h.withdrawals_root.is_some() && h.withdrawals_root.unwrap()@
            == withdrawals_root_of(ws@),
        None => h.withdrawals_root.is_none(),
    })
    &&& h.nonce == 0
    &&& h.base_fee_per_gas.is_some()
    &&& h.parent_beacon_block_root.is_none()
    &&& h.requests_hash.is_none()
    &&& b.block.body.ommers@.len() == 0
}

/// A payload-shaped block handed out as a full payload describes the same
/// header and body again: converting the payload back gives the block's
/// header (up to difficulty, which payloads do not carry) and body.
pub proof fn lemma_payload_round_trip(b: SealedBlock, p: ExecutionPayload)
    requires
        payload_shaped(b),
        payload_of(p, b, true, true),
    ensures
        header_from_payload(
            b.block.header,
            p,
            ExecutionPayloadSidecar { cancun: None, requests_hash: None },
        ),
        body_from_payload(b.block.body, p),
{
    crate::primitives::lemma_high_limbs(p.base_fee_per_gas);
}

fn payload_from_block(b: SealedBlock, with_withdrawals: bool, with_blobs: bool) -> (r:
    ExecutionPayload)
    ensures
        payload_of(r, b, with_withdrawals, with_blobs),
{
    let h = b.block.header;
    let base_fee = match h.base_fee_per_gas {
        Some(f) => U256::from_u64(f),
        None => U256::zero(),
    };
    ExecutionPayload {
        parent_hash: h.parent_hash,
        fee_recipient: h.beneficiary,
        state_root: h.state_root,
        receipts_root: h.receipts_root,
        logs_bloom: h.logs_bloom,
        prev_randao: h.mix_hash,
        block_number: h.number,
        gas_limit: h.gas_limit,
        gas_used: h.gas_used,
        timestamp: h.timestamp,
        extra_data: h.extra_data,
        base_fee_per_gas: base_fee,
        block_hash: b.hash,
        transactions: b.block.body.transactions,
        withdrawals: if with_withdrawals {
            b.block.body.withdrawals
        } else {
            None
        },
        blob_gas_used: if with_blobs {
            h.blob_gas_used
        } else {
            None
        },
        excess_blob_gas: if with_blobs {
            h.excess_blob_gas
        } else {
            None
        },
    }
}

impl ScrollBuiltPayload {
    pub closed spec fn spec_id(&self) -> PayloadId {
        self.id
    }

    pub closed spec fn spec_block(&self) -> SealedBlock {
        self.block
    }

    pub closed spec fn spec_fees(&self) -> U256 {
        self.fees
    }

    pub fn new(id: PayloadId, block: SealedBlock, fees: U256) -> (r: ScrollBuiltPayload)
        ensures
            r.spec_id() == id,
            r.spec_block() == block,
            r.spec_fees() == fees,
    {
        ScrollBuiltPayload { id, block, fees }
    }

    pub fn id(&self) -> (r: PayloadId)
        ensures
            r == self.spec_id(),
    {
        self.id
    }

    pub fn block(&self) -> (r: &SealedBlock)
        ensures
            *r == self.spec_block(),
    {
        &self.block
    }

    pub fn fees(&self) -> (r: U256)
        ensures
            r == self.spec_fees(),
    {
        self.fees
    }

    /// The first-version payload: no withdrawals, no blob fields.
    pub fn into_payload_v1(self) -> (r: ExecutionPayload)
        ensures
            payload_of(r, self.spec_block(), false, false),
    {
        payload_from_block(self.block, false, false)
    }

    /// The second-version answer: the payload with its withdrawals, and the
    /// fees as the block's value.
    pub fn into_envelope_v2(self) -> (r: ExecutionPayloadEnvelopeV2)
        ensures
            payload_of(r.execution_payload, self.spec_block(), true, false),
            r.block_value == self.spec_fees(),
    {
        ExecutionPayloadEnvelopeV2 {
            execution_payload: payload_from_block(self.block, true, false),
            block_value: self.fees,
        }
    }

    /// The third-version answer: the full payload, the fees, no blobs, and
    /// no request to override the builder.
    pub fn into_envelope_v3(self) -> (r: ExecutionPayloadEnvelopeV3)
        ensures
            payload_of(r.execution_payload, self.spec_block(), true, true),
            r.block_value == self.spec_fees(),
            r.blobs_bundle.commitments@.len() == 0,
            r.blobs_bundle.proofs@.len() == 0,
            r.blobs_bundle.blobs@.len() == 0,
            !r.should_override_builder,
    {
        ExecutionPayloadEnvelopeV3 {
            execution_payload: payload_from_block(self.block, true, true),
            block_value: self.fees,
            blobs_bundle: BlobsBundleV1 { commitments: Vec::new(), proofs: Vec::new(), blobs: Vec::new() },
            should_override_builder: false,
        }
    }

    /// The fourth-version answer: the third-version one, with no requests.
    pub fn into_envelope_v4(self) -> (r: ExecutionPayloadEnvelopeV4)
        ensures
            payload_of(r.envelope_inner.execution_payload, self.spec_block(), true, true),
            r.envelope_inner.block_value == self.spec_fees(),
            r.envelope_inner.blobs_bundle.blobs@.len() == 0,
            r.execution_requests@.len() == 0,
    {
        ExecutionPayloadEnvelopeV4 {
            envelope_inner: self.into_envelope_v3(),
            execution_requests: Vec::new(),
        }
    }
}

} // verus!
