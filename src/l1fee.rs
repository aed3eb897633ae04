//! The L1 data fee: what a transaction pays for publishing its bytes on L1,
//! from the parameters held by the L1 gas price oracle contract.
use vstd::prelude::*;

use crate::hardfork::ScrollSpecId;
use crate::primitives::{min_nat, u256_max, U256};

verus! {

/// Fixed gas added to every transaction's data gas before Curie.
pub const TX_L1_COMMIT_EXTRA_COST: u64 = 64;

/// The oracle's scalars are fixed-point numbers with this many units per one.
pub const TX_L1_FEE_PRECISION: u64 = 1_000_000_000;

/// Gas charged for a zero byte of transaction data before Curie.
pub const ZERO_BYTE_GAS: u64 = 4;

/// Gas charged for a non-zero byte of transaction data before Curie.
pub const NON_ZERO_BYTE_GAS: u64 = 16;

/// The oracle parameters in force for one transaction. The Curie fields are
/// read only once Curie is active.
#[derive(Clone, Copy, Debug)]
pub struct L1BlockInfo {
    pub l1_base_fee: U256,
    pub l1_fee_overhead: U256,
    pub l1_base_fee_scalar: U256,
    pub l1_blob_base_fee: U256,
    pub l1_commit_scalar: U256,
    pub l1_blob_scalar: U256,
}

/// `a * b`, saturated at the largest 256-bit value.
pub open spec fn sat_mul(a: nat, b: nat) -> nat {
    min_nat(a * b, u256_max())
}

/// `a + b`, saturated at the largest 256-bit value.
pub open spec fn sat_add(a: nat, b: nat) -> nat {
    min_nat(a + b, u256_max())
}

/// Gas of the data bytes before Curie: 4 per zero byte, 16 per other byte.
pub open spec fn byte_gas(input: Seq<u8>) -> nat
    decreases input.len(),
{
    if input.len() == 0 {
        0
    } else {
        byte_gas(input.drop_last()) + if input.last() == 0 {
            ZERO_BYTE_GAS as nat
        } else {
            NON_ZERO_BYTE_GAS as nat
        }
    }
}

/// The L1 data fee of a transaction whose encoding is `input`, under rule
/// set `spec`.
///
/// Before Curie: `(byte_gas + overhead + 64) * base_fee * scalar / 10^9`.
/// From Curie on: `(commit_scalar * base_fee + len * blob_base_fee *
/// blob_scalar) / 10^9`. Every product and sum saturates at `2^256 - 1`.
pub open spec fn l1_fee_of(info: L1BlockInfo, input: Seq<u8>, spec: ScrollSpecId) -> nat {
    if spec.rank() < ScrollSpecId::CURIE.rank() {
        let gas = sat_add(
            sat_add(byte_gas(input), info.l1_fee_overhead.value()),
            TX_L1_COMMIT_EXTRA_COST as nat,
        );
        sat_mul(sat_mul(gas, info.l1_base_fee.value()), info.l1_base_fee_scalar.value())
            / (TX_L1_FEE_PRECISION as nat)
    } else {
        let calldata_gas = sat_mul(info.l1_commit_scalar.value(), info.l1_base_fee.value());
        let blob_gas = sat_mul(
            sat_mul(input.len(), info.l1_blob_base_fee.value()),
            info.l1_blob_scalar.value(),
        );
        sat_add(calldata_gas, blob_gas) / (TX_L1_FEE_PRECISION as nat)
    }
}

proof fn lemma_byte_gas_bound(input: Seq<u8>)
    ensures
        byte_gas(input) <= 16 * input.len(),
    decreases input.len(),
{
    if input.len() > 0 {
        lemma_byte_gas_bound(input.drop_last());
    }
}

/// Gas of the data bytes before Curie; see [`byte_gas`].
fn data_byte_gas(input: &[u8]) -> (r: u64)
    requires
        input@.len() <= u64::MAX / 16,
    ensures
        r == byte_gas(input@),
{
    let mut total: u64 = 0;
    let mut i: usize = 0;
    while i < input.len()
        invariant
            i <= input@.len(),
            input@.len() <= u64::MAX / 16,
            total == byte_gas(input@.take(i as int)),
        decreases input@.len() - i,
    {
        proof {
            lemma_byte_gas_bound(input@.take(i as int));
            assert(input@.take(i + 1).drop_last() =~= input@.take(i as int));
        }
        if input[i] == 0 {
            total = total + ZERO_BYTE_GAS;
        } else {
            total = total + NON_ZERO_BYTE_GAS;
        }
        i += 1;
    }
    assert(input@.take(input@.len() as int) =~= input@);
    total
}

impl L1BlockInfo {
    /// The L1 data fee of a transaction whose encoding is `input`.
    pub fn calculate_tx_l1_cost(&self, input: &[u8], spec: ScrollSpecId) -> (r: U256)
        requires
            input@.len() <= u64::MAX / 16,
        ensures
            r.value() == l1_fee_of(*self, input@, spec),
    {
        let precision = U256::from_u64(TX_L1_FEE_PRECISION);
        if !spec.is_enabled_in(ScrollSpecId::CURIE) {
            let gas = U256::from_u64(data_byte_gas(input)).saturating_add(
                self.l1_fee_overhead,
            ).saturating_add(U256::from_u64(TX_L1_COMMIT_EXTRA_COST));
            gas.saturating_mul(self.l1_base_fee).saturating_mul(self.l1_base_fee_scalar).div(
                precision,
            )
        } else {
            let calldata_gas = self.l1_commit_scalar.saturating_mul(self.l1_base_fee);
            let blob_gas = U256::from_u64(input.len() as u64).saturating_mul(
                self.l1_blob_base_fee,
            ).saturating_mul(self.l1_blob_scalar);
            calldata_gas.saturating_add(blob_gas).div(precision)
        }
    }
}

} // verus!
