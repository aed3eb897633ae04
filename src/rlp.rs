//! Recursive-length-prefix encoding, as far as block headers and
//! withdrawals need it: byte strings, unsigned integers and lists.
use vstd::prelude::*;

use crate::codec::{enc_u256, enc_u64, put_slice, put_u256, put_u64};
use crate::primitives::U256;

verus! {

/// `s` without its leading zero bytes.
pub open spec fn strip_zeros(s: Seq<u8>) -> Seq<u8>
    decreases s.len(),
{
    if s.len() > 0 && s[0] == 0 {
        strip_zeros(s.skip(1))
    } else {
        s
    }
}

/// The header of a string (`offset` 0x80) or list (`offset` 0xc0) of `len`
/// payload bytes.
pub open spec fn rlp_prefix(offset: u8, len: nat) -> Seq<u8> {
    if len <= 55 {
        seq![(offset + len) as u8]
    } else {
        let l = strip_zeros(enc_u64(len as u64));
        seq![(offset + 55 + l.len()) as u8] + l
    }
}

/// A byte string: a single byte below 0x80 stands for itself.
pub open spec fn rlp_string(b: Seq<u8>) -> Seq<u8> {
    if b.len() == 1 && b[0] < 0x80 {
        b
    } else {
        rlp_prefix(0x80, b.len()) + b
    }
}

/// An unsigned integer: its big-endian bytes without leading zeros.
pub open spec fn rlp_u64(x: u64) -> Seq<u8> {
    rlp_string(strip_zeros(enc_u64(x)))
}

/// A 256-bit unsigned integer: its big-endian bytes without leading zeros.
pub open spec fn rlp_u256(x: U256) -> Seq<u8> {
    rlp_string(strip_zeros(enc_u256(x)))
}

/// A list whose encoded items, concatenated, are `payload`.
pub open spec fn rlp_list(payload: Seq<u8>) -> Seq<u8> {
    rlp_prefix(0xc0, payload.len()) + payload
}

/// The bytes of `b` from its first non-zero byte on.
pub fn strip_leading_zeros(b: &[u8]) -> (r: Vec<u8>)
    ensures
        r@ == strip_zeros(b@),
{
    let mut i: usize = 0;
    assert(b@.skip(0) =~= b@);
    while i < b.len() && b[i] == 0
        invariant
            i <= b@.len(),
            strip_zeros(b@) == strip_zeros(b@.skip(i as int)),
        decreases b@.len() - i,
    {
        assert(b@.skip(i as int).skip(1) =~= b@.skip(i + 1));
        i += 1;
    }
    let mut r: Vec<u8> = Vec::new();
    let mut j: usize = i;
    while j < b.len()
        invariant
            i <= j <= b@.len(),
            r@ == b@.subrange(i as int, j as int),
        decreases b@.len() - j,
    {
        r.push(b[j]);
        j += 1;
        assert(r@ =~= b@.subrange(i as int, j as int));
    }
    assert(b@.skip(i as int) =~= b@.subrange(i as int, b@.len() as int));
    r
}

proof fn lemma_strip_zeros_len(s: Seq<u8>)
    ensures
        strip_zeros(s).len() <= s.len(),
    decreases s.len(),
{
    if s.len() > 0 && s[0] == 0 {
        lemma_strip_zeros_len(s.skip(1));
    }
}

/// Appends the header of a string or list of `len` payload bytes.
pub fn put_rlp_prefix(out: &mut Vec<u8>, offset: u8, len: usize)
    requires
        offset == 0x80 || offset == 0xc0,
    ensures
        final(out)@ == old(out)@ + rlp_prefix(offset, len as nat),
{
    if len <= 55 {
        out.push(offset + len as u8);
    } else {
        let mut be: Vec<u8> = Vec::new();
        put_u64(&mut be, len as u64);
        let l = strip_leading_zeros(be.as_slice());
        proof {
            lemma_strip_zeros_len(be@);
            crate::codec::lemma_enc_u64_len(len as u64);
        }
        out.push(offset + 55 + l.len() as u8);
        put_slice(out, l.as_slice());
    }
    assert(out@ =~= old(out)@ + rlp_prefix(offset, len as nat));
}

/// Appends a byte string.
pub fn put_rlp_string(out: &mut Vec<u8>, b: &[u8])
    ensures
        final(out)@ == old(out)@ + rlp_string(b@),
{
    if b.len() == 1 && b[0] < 0x80 {
        out.push(b[0]);
        assert(b@ =~= seq![b@[0]]);
    } else {
        put_rlp_prefix(out, 0x80, b.len());
        put_slice(out, b);
    }
    assert(out@ =~= old(out)@ + rlp_string(b@));
}

/// Appends an unsigned integer.
pub fn put_rlp_u64(out: &mut Vec<u8>, x: u64)
    ensures
        final(out)@ == old(out)@ + rlp_u64(x),
{
    let mut be: Vec<u8> = Vec::new();
    put_u64(&mut be, x);
    assert(be@ =~= enc_u64(x));
    let s = strip_leading_zeros(be.as_slice());
    put_rlp_string(out, s.as_slice());
}

/// Appends a 256-bit unsigned integer.
pub fn put_rlp_u256(out: &mut Vec<u8>, x: U256)
    ensures
        final(out)@ == old(out)@ + rlp_u256(x),
{
    let mut be: Vec<u8> = Vec::new();
    put_u256(&mut be, x);
    assert(be@ =~= enc_u256(x));
    let s = strip_leading_zeros(be.as_slice());
    put_rlp_string(out, s.as_slice());
}

/// The list whose encoded items, concatenated, are `payload`.
pub fn rlp_list_of(payload: &[u8]) -> (r: Vec<u8>)
    ensures
        r@ == rlp_list(payload@),
{
    let mut out: Vec<u8> = Vec::new();
    put_rlp_prefix(&mut out, 0xc0, payload.len());
    put_slice(&mut out, payload);
    assert(out@ =~= rlp_list(payload@));
    out
}

} // verus!
