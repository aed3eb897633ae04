//! The compact storage encoding of transactions: the type byte, then the
//! variant's fields in declaration order.
use vstd::prelude::*;

use crate::codec::{
    enc_bytes, enc_opt_u64, enc_u128, enc_u256, enc_u64, lemma_parse_bytes, lemma_parse_fixed,
    lemma_parse_opt_u64, lemma_parse_u128, lemma_parse_u256, lemma_parse_u64, lemma_parse_u8,
    parse_bytes, parse_fixed, parse_opt_u64, parse_u128, parse_u256, parse_u64, parse_u8,
    put_bytes, put_opt_u64, put_slice, put_u128, put_u256, put_u64, rest_at, take_address,
    take_b256, take_bytes, take_opt_u64, take_u128, take_u256, take_u64, take_u8, took,
};
use crate::primitives::B256;
use crate::transaction::{
    AccessItemModel, AccessListItem, ScrollTxType, ScrollTypedTransaction, TxEip1559,
    TxEip1559Model, TxEip2930, TxEip2930Model, TxKind, TxL1Message, TxL1MessageModel, TxLegacy,
    TxLegacyModel, TxModel,
};

verus! {

/// The callee: flag 0 for a creation, flag 1 and the address for a call.
#[verifier::opaque]
pub open spec fn enc_kind(k: Option<Seq<u8>>) -> Seq<u8> {
    match k {
        None => seq![0u8],
        Some(a) => seq![1u8] + a,
    }
}

#[verifier::opaque]
pub open spec fn parse_kind(s: Seq<u8>) -> Option<(Option<Seq<u8>>, Seq<u8>)> {
    match parse_u8(s) {
        Some((0u8, s1)) => Some((None, s1)),
        Some((1u8, s1)) => match parse_fixed(s1, 20) {
            Some((a, s2)) => Some((Some(a), s2)),
            None => None,
        },
        _ => None,
    }
}

pub proof fn lemma_parse_kind(k: Option<Seq<u8>>, rest: Seq<u8>)
    requires
        k.is_some() ==> k.unwrap().len() == 20,
    ensures
        parse_kind(enc_kind(k) + rest) == Some((k, rest)),
{
    reveal(enc_kind);
    reveal(parse_kind);
    match k {
        None => lemma_parse_u8(0u8, rest),
        Some(a) => {
            assert(enc_kind(k) + rest =~= seq![1u8] + (a + rest));
            lemma_parse_u8(1u8, a + rest);
            lemma_parse_fixed(a, rest);
        },
    }
}

pub fn put_kind(out: &mut Vec<u8>, k: &TxKind)
    ensures
        final(out)@ == old(out)@ + enc_kind(k.deep_view()),
{
    proof {
        reveal(enc_kind);
    }
    match k {
        TxKind::Create => {
            out.push(0u8);
        },
        TxKind::Call(a) => {
            out.push(1u8);
            put_slice(out, &a.bytes);
        },
    }
    assert(out@ =~= old(out)@ + enc_kind(k.deep_view()));
}

pub fn take_kind(buf: &[u8], pos: usize) -> (r: Option<(TxKind, usize)>)
    requires
        pos <= buf@.len(),
    ensures
        took(r, parse_kind(rest_at(buf@, pos as int)), buf@, pos as int),
{
    proof {
        reveal(parse_kind);
    }
    let (flag, at1) = match take_u8(buf, pos) {
        Some(x) => x,
        None => return None,
    };
    if flag == 0 {
        Some((TxKind::Create, at1))
    } else if flag == 1 {
        match take_address(buf, at1) {
            Some((a, at2)) => Some((TxKind::Call(a), at2)),
            None => None,
        }
    } else {
        None
    }
}

/// Storage keys, one after another.
pub open spec fn enc_keys(ks: Seq<Seq<u8>>) -> Seq<u8>
    decreases ks.len(),
{
    if ks.len() == 0 {
        Seq::empty()
    } else {
        ks[0] + enc_keys(ks.skip(1))
    }
}

pub open spec fn parse_keys(s: Seq<u8>, n: nat) -> Option<(Seq<Seq<u8>>, Seq<u8>)>
    decreases n,
{
    if n == 0 {
        Some((Seq::empty(), s))
    } else {
        match parse_fixed(s, 32) {
            Some((k, s1)) => match parse_keys(s1, (n - 1) as nat) {
                Some((ks, s2)) => Some((seq![k] + ks, s2)),
                None => None,
            },
            None => None,
        }
    }
}

pub proof fn lemma_enc_keys_push(ks: Seq<Seq<u8>>, k: Seq<u8>)
    ensures
        enc_keys(ks.push(k)) == enc_keys(ks) + k,
    decreases ks.len(),
{
    if ks.len() == 0 {
        assert(ks.push(k).skip(1) =~= Seq::<Seq<u8>>::empty());
        assert(enc_keys(ks.push(k).skip(1)) == Seq::<u8>::empty());
        assert(enc_keys(ks) == Seq::<u8>::empty());
        assert(enc_keys(ks.push(k)) =~= enc_keys(ks) + k);
    } else {
        assert(ks.push(k).skip(1) =~= ks.skip(1).push(k));
        lemma_enc_keys_push(ks.skip(1), k);
        assert(enc_keys(ks.push(k)) =~= enc_keys(ks) + k);
    }
}

pub proof fn lemma_parse_keys(ks: Seq<Seq<u8>>, rest: Seq<u8>)
    requires
        forall|i: int| 0 <= i < ks.len() ==> (#[trigger] ks[i]).len() == 32,
    ensures
        parse_keys(enc_keys(ks) + rest, ks.len()) == Some((ks, rest)),
    decreases ks.len(),
{
    if ks.len() == 0 {
        assert(enc_keys(ks) + rest =~= rest);
    } else {
        let tail = ks.skip(1);
        assert(enc_keys(ks) + rest =~= ks[0] + (enc_keys(tail) + rest));
        lemma_parse_fixed(ks[0], enc_keys(tail) + rest);
        lemma_parse_keys(tail, rest);
        assert(seq![ks[0]] + tail =~= ks);
    }
}

/// One access-list entry: the address, the key count and the keys.
#[verifier::opaque]
pub open spec fn enc_item(it: AccessItemModel) -> Seq<u8> {
    it.address + enc_u64(it.storage_keys.len() as u64) + enc_keys(it.storage_keys)
}

#[verifier::opaque]
pub open spec fn parse_item(s: Seq<u8>) -> Option<(AccessItemModel, Seq<u8>)> {
    match parse_fixed(s, 20) {
        Some((a, s1)) => match parse_u64(s1) {
            Some((n, s2)) => match parse_keys(s2, n as nat) {
                Some((ks, s3)) => Some((AccessItemModel { address: a, storage_keys: ks }, s3)),
                None => None,
            },
            None => None,
        },
        None => None,
    }
}

pub open spec fn item_wf(it: AccessItemModel) -> bool {
    &&& it.address.len() == 20
    &&& it.storage_keys.len() <= u64::MAX
    &&& forall|i: int| 0 <= i < it.storage_keys.len() ==> (#[trigger] it.storage_keys[i]).len() == 32
}

pub proof fn lemma_parse_item(it: AccessItemModel, rest: Seq<u8>)
    requires
        item_wf(it),
    ensures
        parse_item(enc_item(it) + rest) == Some((it, rest)),
{
    reveal(enc_item);
    reveal(parse_item);
    let n = it.storage_keys.len() as u64;
    assert(enc_item(it) + rest =~= it.address + (enc_u64(n) + (enc_keys(it.storage_keys) + rest)));
    lemma_parse_fixed(it.address, enc_u64(n) + (enc_keys(it.storage_keys) + rest));
    lemma_parse_u64(n, enc_keys(it.storage_keys) + rest);
    lemma_parse_keys(it.storage_keys, rest);
}

/// Access-list entries, one after another.
pub open spec fn enc_items(its: Seq<AccessItemModel>) -> Seq<u8>
    decreases its.len(),
{
    if its.len() == 0 {
        Seq::empty()
    } else {
        enc_item(its[0]) + enc_items(its.skip(1))
    }
}

pub open spec fn parse_items(s: Seq<u8>, n: nat) -> Option<(Seq<AccessItemModel>, Seq<u8>)>
    decreases n,
{
    if n == 0 {
        Some((Seq::empty(), s))
    } else {
        match parse_item(s) {
            Some((it, s1)) => match parse_items(s1, (n - 1) as nat) {
                Some((its, s2)) => Some((seq![it] + its, s2)),
                None => None,
            },
            None => None,
        }
    }
}

pub proof fn lemma_enc_items_push(its: Seq<AccessItemModel>, it: AccessItemModel)
    ensures
        enc_items(its.push(it)) == enc_items(its) + enc_item(it),
    decreases its.len(),
{
    if its.len() == 0 {
        assert(its.push(it).skip(1) =~= Seq::<AccessItemModel>::empty());
        assert(enc_items(its.push(it).skip(1)) == Seq::<u8>::empty());
        assert(enc_items(its) == Seq::<u8>::empty());
        assert(enc_items(its.push(it)) =~= enc_items(its) + enc_item(it));
    } else {
        assert(its.push(it).skip(1) =~= its.skip(1).push(it));
        lemma_enc_items_push(its.skip(1), it);
        assert(enc_items(its.push(it)) =~= enc_items(its) + enc_item(it));
    }
}

pub proof fn lemma_parse_items(its: Seq<AccessItemModel>, rest: Seq<u8>)
    requires
        forall|i: int| 0 <= i < its.len() ==> item_wf(#[trigger] its[i]),
    ensures
        parse_items(enc_items(its) + rest, its.len()) == Some((its, rest)),
    decreases its.len(),
{
    if its.len() == 0 {
        assert(enc_items(its) + rest =~= rest);
    } else {
        let tail = its.skip(1);
        assert(enc_items(its) + rest =~= enc_item(its[0]) + (enc_items(tail) + rest));
        lemma_parse_item(its[0], enc_items(tail) + rest);
        lemma_parse_items(tail, rest);
        assert(seq![its[0]] + tail =~= its);
    }
}

/// An access list: the entry count, then the entries.
#[verifier::opaque]
pub open spec fn enc_access_list(its: Seq<AccessItemModel>) -> Seq<u8> {
    enc_u64(its.len() as u64) + enc_items(its)
}

#[verifier::opaque]
pub open spec fn parse_access_list(s: Seq<u8>) -> Option<(Seq<AccessItemModel>, Seq<u8>)> {
    match parse_u64(s) {
        Some((n, s1)) => parse_items(s1, n as nat),
        None => None,
    }
}

pub open spec fn access_list_wf(its: Seq<AccessItemModel>) -> bool {
    &&& its.len() <= u64::MAX
    &&& forall|i: int| 0 <= i < its.len() ==> item_wf(#[trigger] its[i])
}

pub proof fn lemma_parse_access_list(its: Seq<AccessItemModel>, rest: Seq<u8>)
    requires
        access_list_wf(its),
    ensures
        parse_access_list(enc_access_list(its) + rest) == Some((its, rest)),
{
    reveal(enc_access_list);
    reveal(parse_access_list);
    assert(enc_access_list(its) + rest =~= enc_u64(its.len() as u64) + (enc_items(its) + rest));
    lemma_parse_u64(its.len() as u64, enc_items(its) + rest);
    lemma_parse_items(its, rest);
}

pub fn put_access_list(out: &mut Vec<u8>, its: &Vec<AccessListItem>)
    ensures
        final(out)@ == old(out)@ + enc_access_list(its.deep_view()),
{
    proof {
        reveal(enc_access_list);
        reveal(enc_item);
    }
    put_u64(out, its.len() as u64);
    let mut i: usize = 0;
    while i < its.len()
        invariant
            i <= its@.len(),
            out@ == old(out)@ + enc_u64(its@.len() as u64) + enc_items(its.deep_view().take(i as int)),
        decreases its@.len() - i,
    {
        let it = &its[i];
        let ghost before = out@;
        put_slice(out, &it.address.bytes);
        put_u64(out, it.storage_keys.len() as u64);
        let mut j: usize = 0;
        while j < it.storage_keys.len()
            invariant
                j <= it.storage_keys@.len(),
                out@ == before + it.address@ + enc_u64(it.storage_keys@.len() as u64) + enc_keys(
                    it.storage_keys.deep_view().take(j as int),
                ),
            decreases it.storage_keys@.len() - j,
        {
            let ghost prev = out@;
            put_slice(out, &it.storage_keys[j].bytes);
            proof {
                let ks = it.storage_keys.deep_view();
                assert(ks.take(j + 1) =~= ks.take(j as int).push(ks[j as int]));
                lemma_enc_keys_push(ks.take(j as int), ks[j as int]);
            }
            j += 1;
            assert(out@ =~= before + it.address@ + enc_u64(it.storage_keys@.len() as u64)
                + enc_keys(it.storage_keys.deep_view().take(j as int)));
        }
        proof {
            let ks = it.storage_keys.deep_view();
            assert(ks.take(ks.len() as int) =~= ks);
            let ms = its.deep_view();
            assert(ms[i as int] == it.deep_view());
            assert(ms.take(i + 1) =~= ms.take(i as int).push(ms[i as int]));
            lemma_enc_items_push(ms.take(i as int), ms[i as int]);
        }
        i += 1;
        proof {
            reveal(enc_item);
        }
        assert(out@ =~= old(out)@ + enc_u64(its@.len() as u64) + enc_items(
            its.deep_view().take(i as int),
        ));
    }
    assert(its.deep_view().take(its@.len() as int) =~= its.deep_view());
    assert(out@ =~= old(out)@ + enc_access_list(its.deep_view()));
}


pub fn take_keys(buf: &[u8], pos: usize, n: u64) -> (r: Option<(Vec<B256>, usize)>)
    requires
        pos <= buf@.len(),
    ensures
        took(r, parse_keys(rest_at(buf@, pos as int), n as nat), buf@, pos as int),
{
    let mut ks: Vec<B256> = Vec::new();
    let mut p = pos;
    let mut i: u64 = 0;
    while i < n
        invariant
            pos <= p <= buf@.len(),
            i <= n,
            parse_keys(rest_at(buf@, pos as int), n as nat) == match parse_keys(
                rest_at(buf@, p as int),
                (n - i) as nat,
            ) {
                Some((ks2, s2)) => Some((ks.deep_view() + ks2, s2)),
                None => None,
            },
        decreases n - i,
    {
        let ghost before = ks.deep_view();
        match take_b256(buf, p) {
            Some((k, at2)) => {
                ks.push(k);
                proof {
                    assert(ks.deep_view() =~= before.push(k@));
                    match parse_keys(rest_at(buf@, at2 as int), (n - i - 1) as nat) {
                        Some((ks2, s2)) => {
                            assert(before + (seq![k@] + ks2) =~= ks.deep_view() + ks2);
                        },
                        None => {},
                    }
                }
                p = at2;
                i += 1;
            },
            None => {
                return None;
            },
        }
    }
    assert(ks.deep_view() + Seq::<Seq<u8>>::empty() =~= ks.deep_view());
    Some((ks, p))
}

pub fn take_item(buf: &[u8], pos: usize) -> (r: Option<(AccessListItem, usize)>)
    requires
        pos <= buf@.len(),
    ensures
        took(r, parse_item(rest_at(buf@, pos as int)), buf@, pos as int),
{
    proof {
        reveal(parse_item);
    }
    let (address, at1) = match take_address(buf, pos) {
        Some(x) => x,
        None => return None,
    };
    let (n, at2) = match take_u64(buf, at1) {
        Some(x) => x,
        None => return None,
    };
    let (storage_keys, at3) = match take_keys(buf, at2, n) {
        Some(x) => x,
        None => return None,
    };
    Some((AccessListItem { address, storage_keys }, at3))
}

pub fn take_access_list(buf: &[u8], pos: usize) -> (r: Option<(Vec<AccessListItem>, usize)>)
    requires
        pos <= buf@.len(),
    ensures
        took(r, parse_access_list(rest_at(buf@, pos as int)), buf@, pos as int),
{
    proof {
        reveal(parse_access_list);
    }
    let (n, at1) = match take_u64(buf, pos) {
        Some(x) => x,
        None => return None,
    };
    let mut its: Vec<AccessListItem> = Vec::new();
    let mut p = at1;
    let mut i: u64 = 0;
    while i < n
        invariant
            at1 <= p <= buf@.len(),
            i <= n,
            parse_u64(rest_at(buf@, pos as int)) == Some((n, rest_at(buf@, at1 as int))),
            parse_items(rest_at(buf@, at1 as int), n as nat) == match parse_items(
                rest_at(buf@, p as int),
                (n - i) as nat,
            ) {
                Some((its2, s2)) => Some((its.deep_view() + its2, s2)),
                None => None,
            },
        decreases n - i,
    {
        let ghost before = its.deep_view();
        match take_item(buf, p) {
            Some((it, at2)) => {
                let ghost m = it.deep_view();
                its.push(it);
                proof {
                    assert(its.deep_view() =~= before.push(m));
                    match parse_items(rest_at(buf@, at2 as int), (n - i - 1) as nat) {
                        Some((its2, s2)) => {
                            assert(before + (seq![m] + its2) =~= its.deep_view() + its2);
                        },
                        None => {},
                    }
                }
                p = at2;
                i += 1;
            },
            None => {
                assert(parse_items(rest_at(buf@, p as int), (n - i) as nat).is_none());
                proof {
                    reveal(parse_access_list);
                }
                return None;
            },
        }
    }
    assert(its.deep_view() + Seq::<AccessItemModel>::empty() =~= its.deep_view());
    Some((its, p))
}


/// The fields of a legacy transaction.
#[verifier::opaque]
pub open spec fn enc_legacy(t: TxLegacyModel) -> Seq<u8> {
    enc_opt_u64(t.chain_id) + enc_u64(t.nonce) + enc_u128(t.gas_price) + enc_u64(t.gas_limit)
        + enc_kind(t.to) + enc_u256(t.value) + enc_bytes(t.input)
}

#[verifier::opaque]
pub open spec fn parse_legacy(s: Seq<u8>) -> Option<(TxLegacyModel, Seq<u8>)> {
    match parse_opt_u64(s) {
        None => None,
        Some((chain_id, s)) => match parse_u64(s) {
            None => None,
            Some((nonce, s)) => match parse_u128(s) {
                None => None,
                Some((gas_price, s)) => match parse_u64(s) {
                    None => None,
                    Some((gas_limit, s)) => match parse_kind(s) {
                        None => None,
                        Some((to, s)) => match parse_u256(s) {
                            None => None,
                            Some((value, s)) => match parse_bytes(s) {
                                None => None,
                                Some((input, s)) => Some(
                                    (
                                        TxLegacyModel {
                                            chain_id,
                                            nonce,
                                            gas_price,
                                            gas_limit,
                                            to,
                                            value,
                                            input,
                                        },
                                        s,
                                    ),
                                ),
                            },
                        },
                    },
                },
            },
        },
    }
}

pub open spec fn kind_wf(k: Option<Seq<u8>>) -> bool {
    k.is_some() ==> k.unwrap().len() == 20
}

pub open spec fn legacy_wf(t: TxLegacyModel) -> bool {
    kind_wf(t.to) && t.input.len() <= u64::MAX
}

pub proof fn lemma_parse_legacy(t: TxLegacyModel, rest: Seq<u8>)
    requires
        legacy_wf(t),
    ensures
        parse_legacy(enc_legacy(t) + rest) == Some((t, rest)),
{
    reveal(enc_legacy);
    reveal(parse_legacy);
    let r6 = enc_bytes(t.input) + rest;
    let r5 = enc_u256(t.value) + r6;
    let r4 = enc_kind(t.to) + r5;
    let r3 = enc_u64(t.gas_limit) + r4;
    let r2 = enc_u128(t.gas_price) + r3;
    let r1 = enc_u64(t.nonce) + r2;
    assert(enc_legacy(t) + rest =~= enc_opt_u64(t.chain_id) + r1);
    lemma_parse_opt_u64(t.chain_id, r1);
    lemma_parse_u64(t.nonce, r2);
    lemma_parse_u128(t.gas_price, r3);
    lemma_parse_u64(t.gas_limit, r4);
    lemma_parse_kind(t.to, r5);
    lemma_parse_u256(t.value, r6);
    lemma_parse_bytes(t.input, rest);
}

pub fn put_legacy(out: &mut Vec<u8>, t: &TxLegacy)
    ensures
        final(out)@ == old(out)@ + enc_legacy(t.deep_view()),
{
    proof {
        reveal(enc_legacy);
    }
    put_opt_u64(out, t.chain_id);
    put_u64(out, t.nonce);
    put_u128(out, t.gas_price);
    put_u64(out, t.gas_limit);
    put_kind(out, &t.to);
    put_u256(out, t.value);
    put_bytes(out, t.input.as_slice());
    assert(out@ =~= old(out)@ + enc_legacy(t.deep_view()));
}

pub fn take_legacy(buf: &[u8], pos: usize) -> (r: Option<(TxLegacy, usize)>)
    requires
        pos <= buf@.len(),
    ensures
        took(r, parse_legacy(rest_at(buf@, pos as int)), buf@, pos as int),
{
    proof {
        reveal(parse_legacy);
    }
    let (chain_id, p) = match take_opt_u64(buf, pos) {
        Some(x) => x,
        None => return None,
    };
    let (nonce, p) = match take_u64(buf, p) {
        Some(x) => x,
        None => return None,
    };
    let (gas_price, p) = match take_u128(buf, p) {
        Some(x) => x,
        None => return None,
    };
    let (gas_limit, p) = match take_u64(buf, p) {
        Some(x) => x,
        None => return None,
    };
    let (to, p) = match take_kind(buf, p) {
        Some(x) => x,
        None => return None,
    };
    let (value, p) = match take_u256(buf, p) {
        Some(x) => x,
        None => return None,
    };
    let (input, p) = match take_bytes(buf, p) {
        Some(x) => x,
        None => return None,
    };
    assert(input.deep_view() =~= input@);
    Some((TxLegacy { chain_id, nonce, gas_price, gas_limit, to, value, input }, p))
}


/// The fields of an EIP-2930 transaction.
#[verifier::opaque]
pub open spec fn enc_eip2930(t: TxEip2930Model) -> Seq<u8> {
    enc_u64(t.chain_id) + enc_u64(t.nonce) + enc_u128(t.gas_price) + enc_u64(t.gas_limit)
        + enc_kind(t.to) + enc_u256(t.value) + enc_access_list(t.access_list) + enc_bytes(t.input)
}

#[verifier::opaque]
pub open spec fn parse_eip2930(s: Seq<u8>) -> Option<(TxEip2930Model, Seq<u8>)> {
    match parse_u64(s) {
        None => None,
        Some((chain_id, s)) => match parse_u64(s) {
            None => None,
            Some((nonce, s)) => match parse_u128(s) {
                None => None,
                Some((gas_price, s)) => match parse_u64(s) {
                    None => None,
                    Some((gas_limit, s)) => match parse_kind(s) {
                        None => None,
                        Some((to, s)) => match parse_u256(s) {
                            None => None,
                            Some((value, s)) => match parse_access_list(s) {
                                None => None,
                                Some((access_list, s)) => match parse_bytes(s) {
                                    None => None,
                                    Some((input, s)) => Some(
                                        (
                                            TxEip2930Model {
                                                chain_id,
                                                nonce,
                                                gas_price,
                                                gas_limit,
                                                to,
                                                value,
                                                access_list,
                                                input,
                                            },
                                            s,
                                        ),
                                    ),
                                },
                            },
                        },
                    },
                },
            },
        },
    }
}

pub open spec fn eip2930_wf(t: TxEip2930Model) -> bool {
    kind_wf(t.to) && access_list_wf(t.access_list) && t.input.len() <= u64::MAX
}

pub proof fn lemma_parse_eip2930(t: TxEip2930Model, rest: Seq<u8>)
    requires
        eip2930_wf(t),
    ensures
        parse_eip2930(enc_eip2930(t) + rest) == Some((t, rest)),
{
    reveal(enc_eip2930);
    reveal(parse_eip2930);
    let r7 = enc_bytes(t.input) + rest;
    let r6 = enc_access_list(t.access_list) + r7;
    let r5 = enc_u256(t.value) + r6;
    let r4 = enc_kind(t.to) + r5;
    let r3 = enc_u64(t.gas_limit) + r4;
    let r2 = enc_u128(t.gas_price) + r3;
    let r1 = enc_u64(t.nonce) + r2;
    assert(enc_eip2930(t) + rest =~= enc_u64(t.chain_id) + r1);
    lemma_parse_u64(t.chain_id, r1);
    lemma_parse_u64(t.nonce, r2);
    lemma_parse_u128(t.gas_price, r3);
    lemma_parse_u64(t.gas_limit, r4);
    lemma_parse_kind(t.to, r5);
    lemma_parse_u256(t.value, r6);
    lemma_parse_access_list(t.access_list, r7);
    lemma_parse_bytes(t.input, rest);
}

pub fn put_eip2930(out: &mut Vec<u8>, t: &TxEip2930)
    ensures
        final(out)@ == old(out)@ + enc_eip2930(t.deep_view()),
{
    proof {
        reveal(enc_eip2930);
    }
    put_u64(out, t.chain_id);
    put_u64(out, t.nonce);
    put_u128(out, t.gas_price);
    put_u64(out, t.gas_limit);
    put_kind(out, &t.to);
    put_u256(out, t.value);
    put_access_list(out, &t.access_list);
    put_bytes(out, t.input.as_slice());
    assert(out@ =~= old(out)@ + enc_eip2930(t.deep_view()));
}

pub fn take_eip2930(buf: &[u8], pos: usize) -> (r: Option<(TxEip2930, usize)>)
    requires
        pos <= buf@.len(),
    ensures
        took(r, parse_eip2930(rest_at(buf@, pos as int)), buf@, pos as int),
{
    proof {
        reveal(parse_eip2930);
    }
    let (chain_id, p) = match take_u64(buf, pos) {
        Some(x) => x,
        None => return None,
    };
    let (nonce, p) = match take_u64(buf, p) {
        Some(x) => x,
        None => return None,
    };
    let (gas_price, p) = match take_u128(buf, p) {
        Some(x) => x,
        None => return None,
    };
    let (gas_limit, p) = match take_u64(buf, p) {
        Some(x) => x,
        None => return None,
    };
    let (to, p) = match take_kind(buf, p) {
        Some(x) => x,
        None => return None,
    };
    let (value, p) = match take_u256(buf, p) {
        Some(x) => x,
        None => return None,
    };
    let (access_list, p) = match take_access_list(buf, p) {
        Some(x) => x,
        None => return None,
    };
    let (input, p) = match take_bytes(buf, p) {
        Some(x) => x,
        None => return None,
    };
    assert(input.deep_view() =~= input@);
    Some((TxEip2930 { chain_id, nonce, gas_price, gas_limit, to, value, access_list, input }, p))
}

/// The fields of an EIP-1559 transaction.
#[verifier::opaque]
pub open spec fn enc_eip1559(t: TxEip1559Model) -> Seq<u8> {
    enc_u64(t.chain_id) + enc_u64(t.nonce) + enc_u64(t.gas_limit) + enc_u128(t.max_fee_per_gas)
        + enc_u128(t.max_priority_fee_per_gas) + enc_kind(t.to) + enc_u256(t.value)
        + enc_access_list(t.access_list) + enc_bytes(t.input)
}

#[verifier::opaque]
pub open spec fn parse_eip1559(s: Seq<u8>) -> Option<(TxEip1559Model, Seq<u8>)> {
    match parse_u64(s) {
        None => None,
        Some((chain_id, s)) => match parse_u64(s) {
            None => None,
            Some((nonce, s)) => match parse_u64(s) {
                None => None,
                Some((gas_limit, s)) => match parse_u128(s) {
                    None => None,
                    Some((max_fee_per_gas, s)) => match parse_u128(s) {
                        None => None,
                        Some((max_priority_fee_per_gas, s)) => match parse_kind(s) {
                            None => None,
                            Some((to, s)) => match parse_u256(s) {
                                None => None,
                                Some((value, s)) => match parse_access_list(s) {
                                    None => None,
                                    Some((access_list, s)) => match parse_bytes(s) {
                                        None => None,
                                        Some((input, s)) => Some(
                                            (
                                                TxEip1559Model {
                                                    chain_id,
                                                    nonce,
                                                    gas_limit,
                                                    max_fee_per_gas,
                                                    max_priority_fee_per_gas,
                                                    to,
                                                    value,
                                                    access_list,
                                                    input,
                                                },
                                                s,
                                            ),
                                        ),
                                    },
                                },
                            },
                        },
                    },
                },
            },
        },
    }
}

pub open spec fn eip1559_wf(t: TxEip1559Model) -> bool {
    kind_wf(t.to) && access_list_wf(t.access_list) && t.input.len() <= u64::MAX
}

pub proof fn lemma_parse_eip1559(t: TxEip1559Model, rest: Seq<u8>)
    requires
        eip1559_wf(t),
    ensures
        parse_eip1559(enc_eip1559(t) + rest) == Some((t, rest)),
{
    reveal(enc_eip1559);
    reveal(parse_eip1559);
    let r8 = enc_bytes(t.input) + rest;
    let r7 = enc_access_list(t.access_list) + r8;
    let r6 = enc_u256(t.value) + r7;
    let r5 = enc_kind(t.to) + r6;
    let r4 = enc_u128(t.max_priority_fee_per_gas) + r5;
    let r3 = enc_u128(t.max_fee_per_gas) + r4;
    let r2 = enc_u64(t.gas_limit) + r3;
    let r1 = enc_u64(t.nonce) + r2;
    assert(enc_eip1559(t) + rest =~= enc_u64(t.chain_id) + r1);
    lemma_parse_u64(t.chain_id, r1);
    lemma_parse_u64(t.nonce, r2);
    lemma_parse_u64(t.gas_limit, r3);
    lemma_parse_u128(t.max_fee_per_gas, r4);
    lemma_parse_u128(t.max_priority_fee_per_gas, r5);
    lemma_parse_kind(t.to, r6);
    lemma_parse_u256(t.value, r7);
    lemma_parse_access_list(t.access_list, r8);
    lemma_parse_bytes(t.input, rest);
}

pub fn put_eip1559(out: &mut Vec<u8>, t: &TxEip1559)
    ensures
        final(out)@ == old(out)@ + enc_eip1559(t.deep_view()),
{
    proof {
        reveal(enc_eip1559);
    }
    put_u64(out, t.chain_id);
    put_u64(out, t.nonce);
    put_u64(out, t.gas_limit);
    put_u128(out, t.max_fee_per_gas);
    put_u128(out, t.max_priority_fee_per_gas);
    put_kind(out, &t.to);
    put_u256(out, t.value);
    put_access_list(out, &t.access_list);
    put_bytes(out, t.input.as_slice());
    assert(out@ =~= old(out)@ + enc_eip1559(t.deep_view()));
}

pub fn take_eip1559(buf: &[u8], pos: usize) -> (r: Option<(TxEip1559, usize)>)
    requires
        pos <= buf@.len(),
    ensures
        took(r, parse_eip1559(rest_at(buf@, pos as int)), buf@, pos as int),
{
    proof {
        reveal(parse_eip1559);
    }
    let (chain_id, p) = match take_u64(buf, pos) {
        Some(x) => x,
        None => return None,
    };
    let (nonce, p) = match take_u64(buf, p) {
        Some(x) => x,
        None => return None,
    };
    let (gas_limit, p) = match take_u64(buf, p) {
        Some(x) => x,
        None => return None,
    };
    let (max_fee_per_gas, p) = match take_u128(buf, p) {
        Some(x) => x,
        None => return None,
    };
    let (max_priority_fee_per_gas, p) = match take_u128(buf, p) {
        Some(x) => x,
        None => return None,
    };
    let (to, p) = match take_kind(buf, p) {
        Some(x) => x,
        None => return None,
    };
    let (value, p) = match take_u256(buf, p) {
        Some(x) => x,
        None => return None,
    };
    let (access_list, p) = match take_access_list(buf, p) {
        Some(x) => x,
        None => return None,
    };
    let (input, p) = match take_bytes(buf, p) {
        Some(x) => x,
        None => return None,
    };
    assert(input.deep_view() =~= input@);
    Some(
        (
            TxEip1559 {
                chain_id,
                nonce,
                gas_limit,
                max_fee_per_gas,
                max_priority_fee_per_gas,
                to,
                value,
                access_list,
                input,
            },
            p,
        ),
    )
}

/// The fields of an L1 message.
#[verifier::opaque]
pub open spec fn enc_l1_message(t: TxL1MessageModel) -> Seq<u8> {
    enc_u64(t.queue_index) + enc_u64(t.gas_limit) + t.to + enc_u256(t.value) + t.sender
        + enc_bytes(t.input)
}

#[verifier::opaque]
pub open spec fn parse_l1_message(s: Seq<u8>) -> Option<(TxL1MessageModel, Seq<u8>)> {
    match parse_u64(s) {
        None => None,
        Some((queue_index, s)) => match parse_u64(s) {
            None => None,
            Some((gas_limit, s)) => match parse_fixed(s, 20) {
                None => None,
                Some((to, s)) => match parse_u256(s) {
                    None => None,
                    Some((value, s)) => match parse_fixed(s, 20) {
                        None => None,
                        Some((sender, s)) => match parse_bytes(s) {
                            None => None,
                            Some((input, s)) => Some(
                                (
                                    TxL1MessageModel {
                                        queue_index,
                                        gas_limit,
                                        to,
                                        value,
                                        sender,
                                        input,
                                    },
                                    s,
                                ),
                            ),
                        },
                    },
                },
            },
        },
    }
}

pub open spec fn l1_message_wf(t: TxL1MessageModel) -> bool {
    t.to.len() == 20 && t.sender.len() == 20 && t.input.len() <= u64::MAX
}

pub proof fn lemma_parse_l1_message(t: TxL1MessageModel, rest: Seq<u8>)
    requires
        l1_message_wf(t),
    ensures
        parse_l1_message(enc_l1_message(t) + rest) == Some((t, rest)),
{
    reveal(enc_l1_message);
    reveal(parse_l1_message);
    let r5 = enc_bytes(t.input) + rest;
    let r4 = t.sender + r5;
    let r3 = enc_u256(t.value) + r4;
    let r2 = t.to + r3;
    let r1 = enc_u64(t.gas_limit) + r2;
    assert(enc_l1_message(t) + rest =~= enc_u64(t.queue_index) + r1);
    lemma_parse_u64(t.queue_index, r1);
    lemma_parse_u64(t.gas_limit, r2);
    lemma_parse_fixed(t.to, r3);
    lemma_parse_u256(t.value, r4);
    lemma_parse_fixed(t.sender, r5);
    lemma_parse_bytes(t.input, rest);
}

pub fn put_l1_message(out: &mut Vec<u8>, t: &TxL1Message)
    ensures
        final(out)@ == old(out)@ + enc_l1_message(t.deep_view()),
{
    proof {
        reveal(enc_l1_message);
    }
    put_u64(out, t.queue_index);
    put_u64(out, t.gas_limit);
    put_slice(out, &t.to.bytes);
    put_u256(out, t.value);
    put_slice(out, &t.sender.bytes);
    put_bytes(out, t.input.as_slice());
    assert(out@ =~= old(out)@ + enc_l1_message(t.deep_view()));
}

pub fn take_l1_message(buf: &[u8], pos: usize) -> (r: Option<(TxL1Message, usize)>)
    requires
        pos <= buf@.len(),
    ensures
        took(r, parse_l1_message(rest_at(buf@, pos as int)), buf@, pos as int),
{
    proof {
        reveal(parse_l1_message);
    }
    let (queue_index, p) = match take_u64(buf, pos) {
        Some(x) => x,
        None => return None,
    };
    let (gas_limit, p) = match take_u64(buf, p) {
        Some(x) => x,
        None => return None,
    };
    let (to, p) = match take_address(buf, p) {
        Some(x) => x,
        None => return None,
    };
    let (value, p) = match take_u256(buf, p) {
        Some(x) => x,
        None => return None,
    };
    let (sender, p) = match take_address(buf, p) {
        Some(x) => x,
        None => return None,
    };
    let (input, p) = match take_bytes(buf, p) {
        Some(x) => x,
        None => return None,
    };
    assert(input.deep_view() =~= input@);
    Some((TxL1Message { queue_index, gas_limit, to, value, sender, input }, p))
}


/// A transaction: its type byte, then its fields.
#[verifier::opaque]
pub open spec fn enc_tx(t: TxModel) -> Seq<u8> {
    match t {
        TxModel::Legacy(x) => seq![ScrollTxType::Legacy.spec_byte()] + enc_legacy(x),
        TxModel::Eip2930(x) => seq![ScrollTxType::Eip2930.spec_byte()] + enc_eip2930(x),
        TxModel::Eip1559(x) => seq![ScrollTxType::Eip1559.spec_byte()] + enc_eip1559(x),
        TxModel::L1Message(x) => seq![ScrollTxType::L1Message.spec_byte()] + enc_l1_message(x),
    }
}

/// Reads a transaction; an unknown type byte, or bytes that end early, give
/// nothing.
#[verifier::opaque]
pub open spec fn parse_tx(s: Seq<u8>) -> Option<(TxModel, Seq<u8>)> {
    match parse_u8(s) {
        None => None,
        Some((ty, s1)) => if ty == ScrollTxType::Legacy.spec_byte() {
            match parse_legacy(s1) {
                Some((x, s2)) => Some((TxModel::Legacy(x), s2)),
                None => None,
            }
        } else if ty == ScrollTxType::Eip2930.spec_byte() {
            match parse_eip2930(s1) {
                Some((x, s2)) => Some((TxModel::Eip2930(x), s2)),
                None => None,
            }
        } else if ty == ScrollTxType::Eip1559.spec_byte() {
            match parse_eip1559(s1) {
                Some((x, s2)) => Some((TxModel::Eip1559(x), s2)),
                None => None,
            }
        } else if ty == ScrollTxType::L1Message.spec_byte() {
            match parse_l1_message(s1) {
                Some((x, s2)) => Some((TxModel::L1Message(x), s2)),
                None => None,
            }
        } else {
            None
        },
    }
}

/// What every transaction value satisfies: addresses of 20 bytes, keys of 32,
/// lengths that fit the length prefix.
pub open spec fn tx_wf(t: TxModel) -> bool {
    match t {
        TxModel::Legacy(x) => legacy_wf(x),
        TxModel::Eip2930(x) => eip2930_wf(x),
        TxModel::Eip1559(x) => eip1559_wf(x),
        TxModel::L1Message(x) => l1_message_wf(x),
    }
}

proof fn lemma_access_list_wf(its: Vec<AccessListItem>)
    ensures
        access_list_wf(its.deep_view()),
{
    assert(its.deep_view().len() == its.len());
    assert forall|i: int| 0 <= i < its.deep_view().len() implies item_wf(
        #[trigger] its.deep_view()[i],
    ) by {
        let it = its@[i];
        assert(its.deep_view()[i] == it.deep_view());
        assert(it.address@.len() == 20);
        assert(it.storage_keys.deep_view().len() == it.storage_keys.len());
        assert forall|j: int| 0 <= j < it.storage_keys.deep_view().len() implies (
        #[trigger] it.storage_keys.deep_view()[j]).len() == 32 by {
            assert(it.storage_keys.deep_view()[j] == it.storage_keys@[j]@);
        }
    }
}

proof fn lemma_kind_wf(k: TxKind)
    ensures
        kind_wf(k.deep_view()),
{
    match k {
        TxKind::Create => {},
        TxKind::Call(a) => assert(a@.len() == 20),
    }
}

/// Every transaction value is well formed.
pub proof fn lemma_tx_wf(tx: ScrollTypedTransaction)
    ensures
        tx_wf(tx.deep_view()),
{
    match tx {
        ScrollTypedTransaction::Legacy(x) => {
            assert(x.input@.len() == x.input.len());
            lemma_kind_wf(x.to);
        },
        ScrollTypedTransaction::Eip2930(x) => {
            assert(x.input@.len() == x.input.len());
            lemma_kind_wf(x.to);
            lemma_access_list_wf(x.access_list);
        },
        ScrollTypedTransaction::Eip1559(x) => {
            assert(x.input@.len() == x.input.len());
            lemma_kind_wf(x.to);
            lemma_access_list_wf(x.access_list);
        },
        ScrollTypedTransaction::L1Message(x) => {
            assert(x.input@.len() == x.input.len());
            assert(x.to@.len() == 20);
            assert(x.sender@.len() == 20);
        },
    }
}

/// Decoding undoes encoding: a well-formed transaction read back from its
/// compact bytes is the same transaction, and whatever follows those bytes is
/// left untouched.
pub proof fn lemma_compact_round_trip(t: TxModel, rest: Seq<u8>)
    requires
        tx_wf(t),
    ensures
        parse_tx(enc_tx(t) + rest) == Some((t, rest)),
{
    reveal(enc_tx);
    reveal(parse_tx);
    match t {
        TxModel::Legacy(x) => {
            assert(enc_tx(t) + rest =~= seq![ScrollTxType::Legacy.spec_byte()] + (enc_legacy(x)
                + rest));
            lemma_parse_u8(ScrollTxType::Legacy.spec_byte(), enc_legacy(x) + rest);
            lemma_parse_legacy(x, rest);
        },
        TxModel::Eip2930(x) => {
            assert(enc_tx(t) + rest =~= seq![ScrollTxType::Eip2930.spec_byte()] + (enc_eip2930(x)
                + rest));
            lemma_parse_u8(ScrollTxType::Eip2930.spec_byte(), enc_eip2930(x) + rest);
            lemma_parse_eip2930(x, rest);
        },
        TxModel::Eip1559(x) => {
            assert(enc_tx(t) + rest =~= seq![ScrollTxType::Eip1559.spec_byte()] + (enc_eip1559(x)
                + rest));
            lemma_parse_u8(ScrollTxType::Eip1559.spec_byte(), enc_eip1559(x) + rest);
            lemma_parse_eip1559(x, rest);
        },
        TxModel::L1Message(x) => {
            assert(enc_tx(t) + rest =~= seq![ScrollTxType::L1Message.spec_byte()] + (
            enc_l1_message(x) + rest));
            lemma_parse_u8(ScrollTxType::L1Message.spec_byte(), enc_l1_message(x) + rest);
            lemma_parse_l1_message(x, rest);
        },
    }
}

/// The round trip on transaction values: the compact bytes of any
/// transaction decode to that transaction, consuming exactly those bytes.
pub proof fn lemma_transaction_round_trip(tx: ScrollTypedTransaction)
    ensures
        parse_tx(enc_tx(tx.deep_view())) == Some((tx.deep_view(), Seq::<u8>::empty())),
{
    lemma_tx_wf(tx);
    lemma_compact_round_trip(tx.deep_view(), Seq::empty());
    assert(enc_tx(tx.deep_view()) + Seq::<u8>::empty() =~= enc_tx(tx.deep_view()));
}

impl ScrollTypedTransaction {
    /// Appends the compact encoding of the transaction and returns the
    /// identifier of its kind, which is also the first byte written.
    pub fn to_compact(&self, out: &mut Vec<u8>) -> (r: usize)
        ensures
            final(out)@ == old(out)@ + enc_tx(self.deep_view()),
            r == self.spec_tx_type().spec_byte() as usize,
            enc_tx(self.deep_view())[0] == self.spec_tx_type().spec_byte(),
    {
        proof {
            reveal(enc_tx);
        }
        let identifier = self.ty();
        out.push(identifier);
        match self {
            ScrollTypedTransaction::Legacy(t) => put_legacy(out, t),
            ScrollTypedTransaction::Eip2930(t) => put_eip2930(out, t),
            ScrollTypedTransaction::Eip1559(t) => put_eip1559(out, t),
            ScrollTypedTransaction::L1Message(t) => put_l1_message(out, t),
        }
        assert(out@ =~= old(out)@ + enc_tx(self.deep_view()));
        identifier as usize
    }

    /// Reads a transaction from the front of `buf`; gives it with the number
    /// of bytes it took, or nothing when the bytes are not a transaction.
    /// The identifier that [`Self::to_compact`] returns is not needed here:
    /// the encoding starts with that same byte, and the kind is read from it.
    pub fn from_compact(buf: &[u8]) -> (r: Option<(ScrollTypedTransaction, usize)>)
        ensures
            took(r, parse_tx(buf@), buf@, 0),
    {
        proof {
            reveal(parse_tx);
            assert(rest_at(buf@, 0) =~= buf@);
        }
        let (ty, p) = match take_u8(buf, 0) {
            Some(x) => x,
            None => return None,
        };
        if ty == ScrollTxType::Legacy.as_byte() {
            match take_legacy(buf, p) {
                Some((t, q)) => Some((ScrollTypedTransaction::Legacy(t), q)),
                None => None,
            }
        } else if ty == ScrollTxType::Eip2930.as_byte() {
            match take_eip2930(buf, p) {
                Some((t, q)) => Some((ScrollTypedTransaction::Eip2930(t), q)),
                None => None,
            }
        } else if ty == ScrollTxType::Eip1559.as_byte() {
            match take_eip1559(buf, p) {
                Some((t, q)) => Some((ScrollTypedTransaction::Eip1559(t), q)),
                None => None,
            }
        } else if ty == ScrollTxType::L1Message.as_byte() {
            match take_l1_message(buf, p) {
                Some((t, q)) => Some((ScrollTypedTransaction::L1Message(t), q)),
                None => None,
            }
        } else {
            None
        }
    }
}

} // verus!
