//! Bit-level helpers on 32-byte words and 256-bit integers.
use vstd::prelude::*;

use crate::primitives::{B256, U256};

verus! {

/// The byte with its bit order reversed.
pub open spec fn reversed_byte(b: u8) -> u8 {
    ((b & 1) << 7u8) | ((b & 2) << 5u8) | ((b & 4) << 3u8) | ((b & 8) << 1u8) | ((b & 16) >> 1u8)
        | ((b & 32) >> 3u8) | ((b & 64) >> 5u8) | ((b & 128) >> 7u8)
}

/// Reverses the order of the bits within each byte of a word.
pub fn b256_reverse_bits(b256: B256) -> (r: B256)
    ensures
        forall|i: int| 0 <= i < 32 ==> #[trigger] r@[i] == reversed_byte(b256@[i]),
{
    let mut bytes = b256.bytes;
    let mut i: usize = 0;
    while i < 32
        invariant
            i <= 32,
            forall|j: int| 0 <= j < i ==> #[trigger] bytes@[j] == reversed_byte(b256@[j]),
            forall|j: int| i <= j < 32 ==> #[trigger] bytes@[j] == b256@[j],
        decreases 32 - i,
    {
        let b = bytes[i];
        bytes[i] = ((b & 1) << 7u8) | ((b & 2) << 5u8) | ((b & 4) << 3u8) | ((b & 8) << 1u8) | ((b
            & 16) >> 1u8) | ((b & 32) >> 3u8) | ((b & 64) >> 5u8) | ((b & 128) >> 7u8);
        i += 1;
    }
    B256 { bytes }
}

/// The word with its last byte set to zero.
pub fn b256_clear_last_byte(b256: B256) -> (r: B256)
    ensures
        r@ == b256@.update(31, 0u8),
{
    let mut bytes = b256.bytes;
    bytes[31] = 0;
    let r = B256 { bytes };
    assert(r@ =~= b256@.update(31, 0u8));
    r
}

/// The word with its first byte set to zero.
pub fn b256_clear_first_byte(b256: B256) -> (r: B256)
    ensures
        r@ == b256@.update(0, 0u8),
{
    let mut bytes = b256.bytes;
    bytes[0] = 0;
    let r = B256 { bytes };
    assert(r@ =~= b256@.update(0, 0u8));
    r
}

/// The integer with its most significant byte set to zero.
pub fn u256_clear_msb(balance: U256) -> (r: U256)
    ensures
        r.l0 == balance.l0,
        r.l1 == balance.l1,
        r.l2 == balance.l2,
        r.l3 == balance.l3 & 0x00ff_ffff_ffff_ffffu64,
        r.l3 < 0x0100_0000_0000_0000u64,
{
    let high = balance.l3;
    let l3 = high & 0x00ff_ffff_ffff_ffffu64;
    assert(high & 0x00ff_ffff_ffff_ffffu64 < 0x0100_0000_0000_0000u64) by (bit_vector);
    U256 { l0: balance.l0, l1: balance.l1, l2: balance.l2, l3 }
}

} // verus!
