//! Byte-level building blocks of the compact storage encoding: fixed-width
//! big-endian integers, flags, fixed-size byte strings and length-prefixed
//! byte strings.
//!
//! Every field has an encoder (`enc_*`), a parser (`parse_*`) that takes the
//! field off the front of a byte string and hands back what is left, and a
//! lemma that the parser undoes the encoder whatever follows.
use vstd::prelude::*;

use crate::primitives::{Address, B256, U256};

verus! {

/// The bytes of `buf` from `pos` on.
pub open spec fn rest_at(buf: Seq<u8>, pos: int) -> Seq<u8> {
    buf.subrange(pos, buf.len() as int)
}

/// Whether an exec reader's result `r`, taken at `pos` of `buf`, is what the
/// parser `p` gives on the bytes from `pos` on.
pub open spec fn took<T: DeepView>(
    r: Option<(T, usize)>,
    p: Option<(T::V, Seq<u8>)>,
    buf: Seq<u8>,
    pos: int,
) -> bool {
    match p {
        None => r.is_none(),
        Some((v, rest)) => r.is_some() && r.unwrap().0.deep_view() == v && pos <= r.unwrap().1 <= buf.len()
            && rest == rest_at(buf, r.unwrap().1 as int),
    }
}

/// Big-endian bytes of a 64-bit integer.
#[verifier::opaque]
pub open spec fn enc_u64(x: u64) -> Seq<u8> {
    seq![
        (x >> 56u64) as u8,
        (x >> 48u64) as u8,
        (x >> 40u64) as u8,
        (x >> 32u64) as u8,
        (x >> 24u64) as u8,
        (x >> 16u64) as u8,
        (x >> 8u64) as u8,
        x as u8,
    ]
}

/// The integer of eight big-endian bytes.
pub open spec fn be_u64(b0: u8, b1: u8, b2: u8, b3: u8, b4: u8, b5: u8, b6: u8, b7: u8) -> u64 {
    ((b0 as u64) << 56u64) | ((b1 as u64) << 48u64) | ((b2 as u64) << 40u64) | ((b3 as u64)
        << 32u64) | ((b4 as u64) << 24u64) | ((b5 as u64) << 16u64) | ((b6 as u64) << 8u64) | (
    b7 as u64)
}

#[verifier::opaque]
pub open spec fn parse_u64(s: Seq<u8>) -> Option<(u64, Seq<u8>)> {
    if s.len() >= 8 {
        Some((be_u64(s[0], s[1], s[2], s[3], s[4], s[5], s[6], s[7]), s.skip(8)))
    } else {
        None
    }
}

pub proof fn lemma_be_u64(x: u64)
    ensures
        be_u64(
            (x >> 56u64) as u8,
            (x >> 48u64) as u8,
            (x >> 40u64) as u8,
            (x >> 32u64) as u8,
            (x >> 24u64) as u8,
            (x >> 16u64) as u8,
            (x >> 8u64) as u8,
            x as u8,
        ) == x,
{
    assert(((((x >> 56u64) as u8) as u64) << 56u64) | ((((x >> 48u64) as u8) as u64) << 48u64)
        | ((((x >> 40u64) as u8) as u64) << 40u64) | ((((x >> 32u64) as u8) as u64) << 32u64) | ((
    ((x >> 24u64) as u8) as u64) << 24u64) | ((((x >> 16u64) as u8) as u64) << 16u64) | ((((x
        >> 8u64) as u8) as u64) << 8u64) | ((x as u8) as u64) == x) by (bit_vector);
}

pub proof fn lemma_parse_u64(x: u64, rest: Seq<u8>)
    ensures
        parse_u64(enc_u64(x) + rest) == Some((x, rest)),
{
    reveal(enc_u64);
    reveal(parse_u64);
    lemma_be_u64(x);
    let s = enc_u64(x) + rest;
    assert(s.skip(8) =~= rest);
}

pub proof fn lemma_enc_u64_len(x: u64)
    ensures
        enc_u64(x).len() == 8,
{
    reveal(enc_u64);
}

/// Appends the big-endian bytes of `x`.
pub fn put_u64(out: &mut Vec<u8>, x: u64)
    ensures
        final(out)@ == old(out)@ + enc_u64(x),
{
    proof {
        reveal(enc_u64);
    }
    out.push((x >> 56u64) as u8);
    out.push((x >> 48u64) as u8);
    out.push((x >> 40u64) as u8);
    out.push((x >> 32u64) as u8);
    out.push((x >> 24u64) as u8);
    out.push((x >> 16u64) as u8);
    out.push((x >> 8u64) as u8);
    out.push(x as u8);
    assert(out@ =~= old(out)@ + enc_u64(x));
}

/// Reads the integer at `pos`; see [`parse_u64`].
pub fn take_u64(buf: &[u8], pos: usize) -> (r: Option<(u64, usize)>)
    requires
        pos <= buf@.len(),
    ensures
        took(r, parse_u64(rest_at(buf@, pos as int)), buf@, pos as int),
{
    proof {
        reveal(parse_u64);
    }
    if buf.len() - pos < 8 {
        return None;
    }
    let v = ((buf[pos] as u64) << 56u64) | ((buf[pos + 1] as u64) << 48u64) | ((buf[pos + 2] as u64)
        << 40u64) | ((buf[pos + 3] as u64) << 32u64) | ((buf[pos + 4] as u64) << 24u64) | ((buf[pos
        + 5] as u64) << 16u64) | ((buf[pos + 6] as u64) << 8u64) | (buf[pos + 7] as u64);
    assert(rest_at(rest_at(buf@, pos as int), 8) =~= rest_at(buf@, pos + 8));
    Some((v, pos + 8))
}


/// A single byte.
pub open spec fn parse_u8(s: Seq<u8>) -> Option<(u8, Seq<u8>)> {
    if s.len() >= 1 {
        Some((s[0], s.skip(1)))
    } else {
        None
    }
}

pub proof fn lemma_parse_u8(x: u8, rest: Seq<u8>)
    ensures
        parse_u8(seq![x] + rest) == Some((x, rest)),
{
    assert((seq![x] + rest).skip(1) =~= rest);
}

pub fn take_u8(buf: &[u8], pos: usize) -> (r: Option<(u8, usize)>)
    requires
        pos <= buf@.len(),
    ensures
        took(r, parse_u8(rest_at(buf@, pos as int)), buf@, pos as int),
{
    if pos >= buf.len() {
        return None;
    }
    assert(rest_at(rest_at(buf@, pos as int), 1) =~= rest_at(buf@, pos + 1));
    Some((buf[pos], pos + 1))
}

/// `n` bytes taken as they are.
pub open spec fn parse_fixed(s: Seq<u8>, n: nat) -> Option<(Seq<u8>, Seq<u8>)> {
    if s.len() >= n {
        Some((s.take(n as int), s.skip(n as int)))
    } else {
        None
    }
}

pub proof fn lemma_parse_fixed(x: Seq<u8>, rest: Seq<u8>)
    ensures
        parse_fixed(x + rest, x.len()) == Some((x, rest)),
{
    assert((x + rest).take(x.len() as int) =~= x);
    assert((x + rest).skip(x.len() as int) =~= rest);
}

/// Reads `n` bytes at `pos`.
pub fn take_fixed(buf: &[u8], pos: usize, n: usize) -> (r: Option<(Vec<u8>, usize)>)
    requires
        pos <= buf@.len(),
    ensures
        took(r, parse_fixed(rest_at(buf@, pos as int), n as nat), buf@, pos as int),
{
    if buf.len() - pos < n {
        return None;
    }
    let mut v: Vec<u8> = Vec::new();
    let mut i: usize = 0;
    while i < n
        invariant
            pos + n <= buf@.len(),
            buf@.len() <= usize::MAX,
            i <= n,
            v@ == buf@.subrange(pos as int, pos + i),
        decreases n - i,
    {
        v.push(buf[pos + i]);
        i += 1;
        assert(v@ =~= buf@.subrange(pos as int, pos + i));
    }
    assert(rest_at(buf@, pos as int).take(n as int) =~= v@);
    assert(v.deep_view() =~= v@);
    assert(rest_at(buf@, pos as int).skip(n as int) =~= rest_at(buf@, pos + n));
    Some((v, pos + n))
}

/// Appends bytes as they are.
pub fn put_slice(out: &mut Vec<u8>, b: &[u8])
    ensures
        final(out)@ == old(out)@ + b@,
{
    let mut i: usize = 0;
    while i < b.len()
        invariant
            i <= b@.len(),
            out@ == old(out)@ + b@.take(i as int),
        decreases b@.len() - i,
    {
        out.push(b[i]);
        i += 1;
        assert(out@ =~= old(out)@ + b@.take(i as int));
    }
    assert(b@.take(b@.len() as int) =~= b@);
}

/// A 20-byte address, as its bytes.
pub fn take_address(buf: &[u8], pos: usize) -> (r: Option<(Address, usize)>)
    requires
        pos <= buf@.len(),
    ensures
        took(r, parse_fixed(rest_at(buf@, pos as int), 20), buf@, pos as int),
{
    if buf.len() - pos < 20 {
        return None;
    }
    let mut a = [0u8; 20];
    let mut i: usize = 0;
    while i < 20
        invariant
            pos + 20 <= buf@.len(),
            buf@.len() <= usize::MAX,
            i <= 20,
            forall|j: int| 0 <= j < i ==> a@[j] == buf@[pos + j],
        decreases 20 - i,
    {
        a[i] = buf[pos + i];
        i += 1;
    }
    assert(rest_at(buf@, pos as int).take(20) =~= a@);
    assert(rest_at(buf@, pos as int).skip(20) =~= rest_at(buf@, pos + 20));
    Some((Address { bytes: a }, pos + 20))
}

/// A 32-byte word, as its bytes.
pub fn take_b256(buf: &[u8], pos: usize) -> (r: Option<(B256, usize)>)
    requires
        pos <= buf@.len(),
    ensures
        took(r, parse_fixed(rest_at(buf@, pos as int), 32), buf@, pos as int),
{
    if buf.len() - pos < 32 {
        return None;
    }
    let mut a = [0u8; 32];
    let mut i: usize = 0;
    while i < 32
        invariant
            pos + 32 <= buf@.len(),
            buf@.len() <= usize::MAX,
            i <= 32,
            forall|j: int| 0 <= j < i ==> a@[j] == buf@[pos + j],
        decreases 32 - i,
    {
        a[i] = buf[pos + i];
        i += 1;
    }
    assert(rest_at(buf@, pos as int).take(32) =~= a@);
    assert(rest_at(buf@, pos as int).skip(32) =~= rest_at(buf@, pos + 32));
    Some((B256 { bytes: a }, pos + 32))
}

/// A 128-bit integer: its high half, then its low half.
#[verifier::opaque]
pub open spec fn enc_u128(x: u128) -> Seq<u8> {
    enc_u64((x >> 64u128) as u64) + enc_u64(x as u64)
}

pub open spec fn join_u128(hi: u64, lo: u64) -> u128 {
    ((hi as u128) << 64u128) | (lo as u128)
}

#[verifier::opaque]
pub open spec fn parse_u128(s: Seq<u8>) -> Option<(u128, Seq<u8>)> {
    match parse_u64(s) {
        Some((hi, s1)) => match parse_u64(s1) {
            Some((lo, s2)) => Some((join_u128(hi, lo), s2)),
            None => None,
        },
        None => None,
    }
}

pub proof fn lemma_parse_u128(x: u128, rest: Seq<u8>)
    ensures
        parse_u128(enc_u128(x) + rest) == Some((x, rest)),
{
    reveal(enc_u128);
    reveal(parse_u128);
    let hi = (x >> 64u128) as u64;
    let lo = x as u64;
    assert(enc_u128(x) + rest =~= enc_u64(hi) + (enc_u64(lo) + rest));
    lemma_parse_u64(hi, enc_u64(lo) + rest);
    lemma_parse_u64(lo, rest);
    assert((((x >> 64u128) as u64) as u128) << 64u128 | ((x as u64) as u128) == x) by (bit_vector);
}

pub fn put_u128(out: &mut Vec<u8>, x: u128)
    ensures
        final(out)@ == old(out)@ + enc_u128(x),
{
    proof {
        reveal(enc_u128);
    }
    put_u64(out, (x >> 64u128) as u64);
    put_u64(out, x as u64);
    assert(out@ =~= old(out)@ + enc_u128(x));
}

pub fn take_u128(buf: &[u8], pos: usize) -> (r: Option<(u128, usize)>)
    requires
        pos <= buf@.len(),
    ensures
        took(r, parse_u128(rest_at(buf@, pos as int)), buf@, pos as int),
{
    proof {
        reveal(parse_u128);
    }
    let (hi, at1) = match take_u64(buf, pos) {
        Some(x) => x,
        None => return None,
    };
    let (lo, at2) = match take_u64(buf, at1) {
        Some(x) => x,
        None => return None,
    };
    Some((((hi as u128) << 64u128) | (lo as u128), at2))
}

/// A 256-bit integer: its limbs from the most significant down.
#[verifier::opaque]
pub open spec fn enc_u256(x: U256) -> Seq<u8> {
    enc_u64(x.l3) + enc_u64(x.l2) + enc_u64(x.l1) + enc_u64(x.l0)
}

#[verifier::opaque]
pub open spec fn parse_u256(s: Seq<u8>) -> Option<(U256, Seq<u8>)> {
    match parse_u64(s) {
        Some((l3, s1)) => match parse_u64(s1) {
            Some((l2, s2)) => match parse_u64(s2) {
                Some((l1, s3)) => match parse_u64(s3) {
                    Some((l0, s4)) => Some((U256 { l0, l1, l2, l3 }, s4)),
                    None => None,
                },
                None => None,
            },
            None => None,
        },
        None => None,
    }
}

pub proof fn lemma_parse_u256(x: U256, rest: Seq<u8>)
    ensures
        parse_u256(enc_u256(x) + rest) == Some((x, rest)),
{
    reveal(enc_u256);
    reveal(parse_u256);
    assert(enc_u256(x) + rest =~= enc_u64(x.l3) + (enc_u64(x.l2) + (enc_u64(x.l1) + (enc_u64(x.l0)
        + rest))));
    lemma_parse_u64(x.l3, enc_u64(x.l2) + (enc_u64(x.l1) + (enc_u64(x.l0) + rest)));
    lemma_parse_u64(x.l2, enc_u64(x.l1) + (enc_u64(x.l0) + rest));
    lemma_parse_u64(x.l1, enc_u64(x.l0) + rest);
    lemma_parse_u64(x.l0, rest);
}

pub fn put_u256(out: &mut Vec<u8>, x: U256)
    ensures
        final(out)@ == old(out)@ + enc_u256(x),
{
    proof {
        reveal(enc_u256);
    }
    put_u64(out, x.l3);
    put_u64(out, x.l2);
    put_u64(out, x.l1);
    put_u64(out, x.l0);
    assert(out@ =~= old(out)@ + enc_u256(x));
}

pub fn take_u256(buf: &[u8], pos: usize) -> (r: Option<(U256, usize)>)
    requires
        pos <= buf@.len(),
    ensures
        took(r, parse_u256(rest_at(buf@, pos as int)), buf@, pos as int),
{
    proof {
        reveal(parse_u256);
    }
    let (l3, at1) = match take_u64(buf, pos) {
        Some(x) => x,
        None => return None,
    };
    let (l2, at2) = match take_u64(buf, at1) {
        Some(x) => x,
        None => return None,
    };
    let (l1, at3) = match take_u64(buf, at2) {
        Some(x) => x,
        None => return None,
    };
    let (l0, at4) = match take_u64(buf, at3) {
        Some(x) => x,
        None => return None,
    };
    Some((U256 { l0, l1, l2, l3 }, at4))
}

/// A byte string behind its length.
#[verifier::opaque]
pub open spec fn enc_bytes(b: Seq<u8>) -> Seq<u8> {
    enc_u64(b.len() as u64) + b
}

#[verifier::opaque]
pub open spec fn parse_bytes(s: Seq<u8>) -> Option<(Seq<u8>, Seq<u8>)> {
    match parse_u64(s) {
        Some((n, s1)) => parse_fixed(s1, n as nat),
        None => None,
    }
}

pub proof fn lemma_parse_bytes(b: Seq<u8>, rest: Seq<u8>)
    requires
        b.len() <= u64::MAX,
    ensures
        parse_bytes(enc_bytes(b) + rest) == Some((b, rest)),
{
    reveal(enc_bytes);
    reveal(parse_bytes);
    assert(enc_bytes(b) + rest =~= enc_u64(b.len() as u64) + (b + rest));
    lemma_parse_u64(b.len() as u64, b + rest);
    lemma_parse_fixed(b, rest);
}

pub fn put_bytes(out: &mut Vec<u8>, b: &[u8])
    ensures
        final(out)@ == old(out)@ + enc_bytes(b@),
{
    proof {
        reveal(enc_bytes);
    }
    put_u64(out, b.len() as u64);
    put_slice(out, b);
    assert(out@ =~= old(out)@ + enc_bytes(b@));
}

pub fn take_bytes(buf: &[u8], pos: usize) -> (r: Option<(Vec<u8>, usize)>)
    requires
        pos <= buf@.len(),
    ensures
        took(r, parse_bytes(rest_at(buf@, pos as int)), buf@, pos as int),
{
    proof {
        reveal(parse_bytes);
    }
    let (n, at1) = match take_u64(buf, pos) {
        Some(x) => x,
        None => return None,
    };
    if n > (buf.len() - at1) as u64 {
        return None;
    }
    take_fixed(buf, at1, n as usize)
}

/// An optional integer: a flag byte (0 absent, 1 present), then the integer.
#[verifier::opaque]
pub open spec fn enc_opt_u64(x: Option<u64>) -> Seq<u8> {
    match x {
        None => seq![0u8],
        Some(v) => seq![1u8] + enc_u64(v),
    }
}

#[verifier::opaque]
pub open spec fn parse_opt_u64(s: Seq<u8>) -> Option<(Option<u64>, Seq<u8>)> {
    match parse_u8(s) {
        Some((0u8, s1)) => Some((None, s1)),
        Some((1u8, s1)) => match parse_u64(s1) {
            Some((v, s2)) => Some((Some(v), s2)),
            None => None,
        },
        _ => None,
    }
}

pub proof fn lemma_parse_opt_u64(x: Option<u64>, rest: Seq<u8>)
    ensures
        parse_opt_u64(enc_opt_u64(x) + rest) == Some((x, rest)),
{
    reveal(enc_opt_u64);
    reveal(parse_opt_u64);
    match x {
        None => lemma_parse_u8(0u8, rest),
        Some(v) => {
            assert(enc_opt_u64(x) + rest =~= seq![1u8] + (enc_u64(v) + rest));
            lemma_parse_u8(1u8, enc_u64(v) + rest);
            lemma_parse_u64(v, rest);
        },
    }
}

pub fn put_opt_u64(out: &mut Vec<u8>, x: Option<u64>)
    ensures
        final(out)@ == old(out)@ + enc_opt_u64(x),
{
    proof {
        reveal(enc_opt_u64);
    }
    match x {
        None => {
            out.push(0u8);
        },
        Some(v) => {
            out.push(1u8);
            put_u64(out, v);
        },
    }
    assert(out@ =~= old(out)@ + enc_opt_u64(x));
}

pub fn take_opt_u64(buf: &[u8], pos: usize) -> (r: Option<(Option<u64>, usize)>)
    requires
        pos <= buf@.len(),
    ensures
        took(r, parse_opt_u64(rest_at(buf@, pos as int)), buf@, pos as int),
{
    proof {
        reveal(parse_opt_u64);
    }
    let (flag, at1) = match take_u8(buf, pos) {
        Some(x) => x,
        None => return None,
    };
    if flag == 0 {
        Some((None, at1))
    } else if flag == 1 {
        match take_u64(buf, at1) {
            Some((v, at2)) => Some((Some(v), at2)),
            None => None,
        }
    } else {
        None
    }
}

} // verus!
