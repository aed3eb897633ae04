//! Payload validation under the base protocol's rules: the block is hashed
//! as it is, and the fields that forks introduced must appear exactly when
//! their fork is active.
use vstd::prelude::*;

use crate::block::{header_hash, Header, SealedBlock};
use crate::engine::with_difficulty;
use crate::hardfork::{time_fork_active, ScrollChainSpec};
use crate::payload::{
    body_from_payload, contains_tx_type, has_tx_type, header_from_payload, try_into_block,
    ExecutionPayload, ExecutionPayloadSidecar, PayloadError, MAXIMUM_EXTRA_DATA_SIZE, is_tx_envelope,
    payload_ok, txs_ok,
};
use crate::transaction::{EIP4844_TX_TYPE, EIP7702_TX_TYPE};

verus! {

/// The first fork rule that a payload breaks, checked in a fixed order:
/// blob fields against Cancun, withdrawals against Shanghai, set-code
/// transactions against Prague.
pub open spec fn fork_field_error(
    spec: ScrollChainSpec,
    p: ExecutionPayload,
    s: ExecutionPayloadSidecar,
) -> Option<PayloadError> {
    if time_fork_active(spec.cancun_time, p.timestamp) {
        if p.blob_gas_used.is_none() {
            Some(PayloadError::PostCancunBlockWithoutBlobGasUsed)
        } else if p.excess_blob_gas.is_none() {
            Some(PayloadError::PostCancunBlockWithoutExcessBlobGas)
        } else if s.cancun.is_none() {
            Some(PayloadError::PostCancunWithoutCancunFields)
        } else {
            later_fork_error(spec, p)
        }
    } else if has_tx_type(p.transactions.deep_view(), EIP4844_TX_TYPE) {
        Some(PayloadError::PreCancunBlockWithBlobTransactions)
    } else if p.blob_gas_used.is_some() {
        Some(PayloadError::PreCancunBlockWithBlobGasUsed)
    } else if p.excess_blob_gas.is_some() {
        Some(PayloadError::PreCancunBlockWithExcessBlobGas)
    } else if s.cancun.is_some() {
        Some(PayloadError::PreCancunWithCancunFields)
    } else {
        later_fork_error(spec, p)
    }
}

/// The withdrawal and set-code rules, in that order.
pub open spec fn later_fork_error(spec: ScrollChainSpec, p: ExecutionPayload) -> Option<
    PayloadError,
> {
    if !time_fork_active(spec.shanghai_time, p.timestamp) && p.withdrawals.is_some() {
        Some(PayloadError::PreShanghaiBlockWithWithdrawals)
    } else if !time_fork_active(spec.prague_time, p.timestamp) && has_tx_type(
        p.transactions.deep_view(),
        EIP7702_TX_TYPE,
    ) {
        Some(PayloadError::PrePragueBlockWithEip7702Transactions)
    } else {
        None
    }
}

/// Builds the base-protocol payload validator.
#[derive(Clone, Copy, Debug)]
pub struct ScrollEngineValidatorBuilder;

impl ScrollEngineValidatorBuilder {
    /// The validator for a chain with fork schedule `chainspec`.
    pub fn build(self, chainspec: ScrollChainSpec) -> (r: ScrollEngineValidator)
        ensures
            r.spec_chain() == chainspec,
    {
        ScrollEngineValidator { chainspec }
    }
}

/// Validates payloads under the base protocol's rules.
#[derive(Clone, Copy, Debug)]
pub struct ScrollEngineValidator {
    chainspec: ScrollChainSpec,
}

impl ScrollEngineValidator {
    pub closed spec fn spec_chain(&self) -> ScrollChainSpec {
        self.chainspec
    }

    /// Turns a payload into a sealed block: the block's own hash must be the
    /// claimed one, and then the first broken fork rule, if any, is the
    /// error.
    pub fn ensure_well_formed_payload(
        &self,
        payload: ExecutionPayload,
        sidecar: ExecutionPayloadSidecar,
    ) -> (r: Result<SealedBlock, PayloadError>)
        ensures
            payload.extra_data@.len() > MAXIMUM_EXTRA_DATA_SIZE ==> (r matches Err(
                PayloadError::ExtraData(d),
            ) && d@ == payload.extra_data@),
            payload.extra_data@.len() <= MAXIMUM_EXTRA_DATA_SIZE
                && payload.base_fee_per_gas.value() > u64::MAX ==> (r matches Err(
                PayloadError::BaseFee(f),
            ) && f == payload.base_fee_per_gas),
            payload.extra_data@.len() <= MAXIMUM_EXTRA_DATA_SIZE
                && payload.base_fee_per_gas.value() <= u64::MAX && !txs_ok(payload) ==> (r matches Err(
                PayloadError::Decode(i),
            ) && i < payload.transactions@.len() && !is_tx_envelope(
                payload.transactions.deep_view()[i as int],
            ) && forall|j: int|
                0 <= j < i ==> is_tx_envelope(#[trigger] payload.transactions.deep_view()[j])),
            payload_ok(payload) ==> exists|h: Header|
                #[trigger] header_from_payload(h, payload, sidecar) && {
                    let sealed = with_difficulty(h, 0);
                    if header_hash(sealed) != payload.block_hash@ {
                        r matches Err(PayloadError::BlockHash { execution, consensus })
                            && execution@ == header_hash(sealed) && consensus
                            == payload.block_hash
                    } else {
                        match fork_field_error(self.spec_chain(), payload, sidecar) {
                            Some(e) => r matches Err(e2) && e2 == e,
                            None => r matches Ok(sb) && sb.block.header == sealed && sb.hash@
                                == payload.block_hash@ && body_from_payload(
                                sb.block.body,
                                payload,
                            ),
                        }
                    }
                },
    {
        let expected_hash = payload.block_hash;
        let timestamp = payload.timestamp;
        let blob_gas_used = payload.blob_gas_used;
        let excess_blob_gas = payload.excess_blob_gas;
        let block = match try_into_block(payload, &sidecar) {
            Ok(b) => b,
            Err(e) => {
                return Err(e);
            },
        };
        let ghost h0 = block.header;
        assert(block.header == with_difficulty(h0, 0));
        let hash = block.header.hash_slow();
        if !hash.same(&expected_hash) {
            return Err(PayloadError::BlockHash { execution: hash, consensus: expected_hash });
        }
        if self.chainspec.is_cancun_active_at_timestamp(timestamp) {
            if blob_gas_used.is_none() {
                return Err(PayloadError::PostCancunBlockWithoutBlobGasUsed);
            }
            if excess_blob_gas.is_none() {
                return Err(PayloadError::PostCancunBlockWithoutExcessBlobGas);
            }
            if sidecar.cancun.is_none() {
                return Err(PayloadError::PostCancunWithoutCancunFields);
            }
        } else {
            if contains_tx_type(&block.body.transactions, EIP4844_TX_TYPE) {
                return Err(PayloadError::PreCancunBlockWithBlobTransactions);
            }
            if blob_gas_used.is_some() {
                return Err(PayloadError::PreCancunBlockWithBlobGasUsed);
            }
            if excess_blob_gas.is_some() {
                return Err(PayloadError::PreCancunBlockWithExcessBlobGas);
            }
            if sidecar.cancun.is_some() {
                return Err(PayloadError::PreCancunWithCancunFields);
            }
        }
        let shanghai_active = self.chainspec.is_shanghai_active_at_timestamp(timestamp);
        if !shanghai_active && block.body.withdrawals.is_some() {
            return Err(PayloadError::PreShanghaiBlockWithWithdrawals);
        }
        if !self.chainspec.is_prague_active_at_timestamp(timestamp) && contains_tx_type(
            &block.body.transactions,
            EIP7702_TX_TYPE,
        ) {
            return Err(PayloadError::PrePragueBlockWithEip7702Transactions);
        }
        Ok(SealedBlock { block, hash })
    }
}

} // verus!
