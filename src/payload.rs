//! Execution payloads as the consensus client sends them, and their
//! conversion into blocks.
use vstd::prelude::*;

use crate::block::{header_hash, header_payload, opt_rlp_b256, Block, BlockBody, Header, Withdrawal};
use crate::primitives::{keccak256, keccak_of, Address, B256, U256};
use crate::rlp::{put_rlp_string, put_rlp_u64, rlp_list, rlp_list_of, rlp_string, rlp_u64};

verus! {

/// Most bytes a header's extra data may have.
pub const MAXIMUM_EXTRA_DATA_SIZE: usize = 32;

/// An execution payload: the block's fields, its claimed hash, and its
/// transactions in canonical encoding.
#[derive(Clone, Debug)]
pub struct ExecutionPayload {
    pub parent_hash: B256,
    pub fee_recipient: Address,
    pub state_root: B256,
    pub receipts_root: B256,
    pub logs_bloom: Vec<u8>,
    pub prev_randao: B256,
    pub block_number: u64,
    pub gas_limit: u64,
    pub gas_used: u64,
    pub timestamp: u64,
    pub extra_data: Vec<u8>,
    pub base_fee_per_gas: U256,
    pub block_hash: B256,
    pub transactions: Vec<Vec<u8>>,
    pub withdrawals: Option<Vec<Withdrawal>>,
    pub blob_gas_used: Option<u64>,
    pub excess_blob_gas: Option<u64>,
}

/// The Cancun fields that travel beside a payload.
#[derive(Clone, Debug)]
pub struct CancunPayloadFields {
    pub parent_beacon_block_root: B256,
    pub versioned_hashes: Vec<B256>,
}

/// What travels beside a payload.
#[derive(Clone, Debug)]
pub struct ExecutionPayloadSidecar {
    pub cancun: Option<CancunPayloadFields>,
    pub requests_hash: Option<B256>,
}

/// Why a payload is refused.
#[derive(Clone, Debug)]
pub enum PayloadError {
    /// The extra data is longer than 32 bytes.
    ExtraData(Vec<u8>),
    /// The base fee does not fit 64 bits.
    BaseFee(U256),
    /// The transaction at this index is not a transaction envelope.
    Decode(usize),
    /// The block's hash is not the one the payload claims.
    BlockHash { execution: B256, consensus: B256 },
    PostCancunBlockWithoutBlobGasUsed,
    PostCancunBlockWithoutExcessBlobGas,
    PostCancunWithoutCancunFields,
    PreCancunBlockWithBlobTransactions,
    PreCancunBlockWithBlobGasUsed,
    PreCancunBlockWithExcessBlobGas,
    PreCancunWithCancunFields,
    PreShanghaiBlockWithWithdrawals,
    PrePragueBlockWithEip7702Transactions,
}

/// The root of the trie that maps each item's index to the item.
pub uninterp spec fn trie_root_of(items: Seq<Seq<u8>>) -> Seq<u8>;

/// Relies on `alloy_trie::root::ordered_trie_root_encoded`: the root of the
/// Merkle-Patricia trie keyed by each item's RLP-encoded index, holding the
/// item's bytes as they are; it depends on the items alone.
#[verifier::external_body]
pub(crate) fn ordered_trie_root(items: &Vec<Vec<u8>>) -> (r: B256)
    ensures
        r@ == trie_root_of(items.deep_view()),
{
    B256 { bytes: alloy_trie::root::ordered_trie_root_encoded(items.as_slice()).0 }
}

/// The encoding of a withdrawal.
pub open spec fn withdrawal_rlp(w: Withdrawal) -> Seq<u8> {
    rlp_list(rlp_u64(w.index) + rlp_u64(w.validator_index) + rlp_string(w.address@) + rlp_u64(
        w.amount,
    ))
}

/// The root of a block's withdrawals.
pub open spec fn withdrawals_root_of(ws: Seq<Withdrawal>) -> Seq<u8> {
    trie_root_of(Seq::new(ws.len(), |i: int| withdrawal_rlp(ws[i])))
}

/// The hash of an empty ommers list.
pub open spec fn empty_ommers_hash() -> Seq<u8> {
    keccak_of(seq![0xc0u8])
}

pub fn encode_withdrawal(w: &Withdrawal) -> (r: Vec<u8>)
    ensures
        r@ == withdrawal_rlp(*w),
{
    let mut p: Vec<u8> = Vec::new();
    put_rlp_u64(&mut p, w.index);
    put_rlp_u64(&mut p, w.validator_index);
    put_rlp_string(&mut p, &w.address.bytes);
    put_rlp_u64(&mut p, w.amount);
    assert(p@ =~= rlp_u64(w.index) + rlp_u64(w.validator_index) + rlp_string(w.address@)
        + rlp_u64(w.amount));
    rlp_list_of(p.as_slice())
}

/// The root of a block's withdrawals.
pub fn calculate_withdrawals_root(ws: &Vec<Withdrawal>) -> (r: B256)
    ensures
        r@ == withdrawals_root_of(ws@),
{
    let mut items: Vec<Vec<u8>> = Vec::new();
    let mut i: usize = 0;
    while i < ws.len()
        invariant
            i <= ws@.len(),
            items@.len() == i,
            forall|j: int| 0 <= j < i ==> (#[trigger] items@[j])@ == withdrawal_rlp(ws@[j]),
        decreases ws@.len() - i,
    {
        items.push(encode_withdrawal(&ws[i]));
        i += 1;
    }
    assert forall|j: int| 0 <= j < items@.len() implies #[trigger] items.deep_view()[j]
        == withdrawal_rlp(ws@[j]) by {
        assert(items@[j].deep_view() =~= items@[j]@);
    }
    assert(items.deep_view() =~= Seq::new(ws@.len(), |j: int| withdrawal_rlp(ws@[j])));
    ordered_trie_root(&items)
}

/// The hash of an empty ommers list.
pub fn empty_ommers_root() -> (r: B256)
    ensures
        r@ == empty_ommers_hash(),
{
    let b: [u8; 1] = [0xc0u8];
    assert(b@ =~= seq![0xc0u8]);
    keccak256(&b)
}

/// Whether `h` is the header that `p` and `s` describe, whatever its
/// difficulty: no ommers, zero nonce, roots over `p`'s transactions and
/// withdrawals.
pub open spec fn header_from_payload(h: Header, p: ExecutionPayload, s: ExecutionPayloadSidecar) -> bool {
    &&& h.parent_hash == p.parent_hash
    &&& h.ommers_hash@ == empty_ommers_hash()
    &&& h.beneficiary == p.fee_recipient
    &&& h.state_root == p.state_root
    &&& h.transactions_root@ == trie_root_of(p.transactions.deep_view())
    &&& h.receipts_root == p.receipts_root
    &&& h.logs_bloom@ == p.logs_bloom@
    &&& h.number == p.block_number
    &&& h.gas_limit == p.gas_limit
    &&& h.gas_used == p.gas_used
    &&& h.timestamp == p.timestamp
    &&& h.extra_data@ == p.extra_data@
    &&& h.mix_hash == p.prev_randao
    &&& h.nonce == 0
    &&& h.base_fee_per_gas == Some(p.base_fee_per_gas.l0)
    &&& (match p.withdrawals {
        Some(ws) => h.withdrawals_root.is_some() && h.withdrawals_root.unwrap()@
            == withdrawals_root_of(ws@),
        None => h.withdrawals_root.is_none(),
    })
    &&& h.blob_gas_used == p.blob_gas_used
    &&& h.excess_blob_gas == p.excess_blob_gas
    &&& h.parent_beacon_block_root == (match s.cancun {
        Some(c) => Some(c.parent_beacon_block_root),
        None => None,
    })
    &&& h.requests_hash == s.requests_hash
}

/// Whether `b` holds `p`'s transactions and withdrawals and no ommers.
pub open spec fn body_from_payload(b: BlockBody, p: ExecutionPayload) -> bool {
    &&& b.transactions.deep_view() == p.transactions.deep_view()
    &&& b.ommers@.len() == 0
    &&& b.withdrawals == p.withdrawals
}

/// Two headers that a payload describes, with the same difficulty, hash
/// alike.
pub proof fn lemma_payload_header_hash(
    h1: Header,
    h2: Header,
    p: ExecutionPayload,
    s: ExecutionPayloadSidecar,
)
    requires
        header_from_payload(h1, p, s),
        header_from_payload(h2, p, s),
        h1.difficulty == h2.difficulty,
    ensures
        header_hash(h1) == header_hash(h2),
{
    assert(h1.parent_hash@ == h2.parent_hash@);
    assert(h1.beneficiary@ == h2.beneficiary@);
    assert(h1.state_root@ == h2.state_root@);
    assert(h1.receipts_root@ == h2.receipts_root@);
    assert(h1.mix_hash@ == h2.mix_hash@);
    assert(opt_rlp_b256(h1.withdrawals_root) == opt_rlp_b256(h2.withdrawals_root));
    assert(header_payload(h1) == header_payload(h2));
}

/// Whether every transaction of `p` has the shape of an envelope.
pub open spec fn txs_ok(p: ExecutionPayload) -> bool {
    forall|j: int| 0 <= j < p.transactions@.len() ==> is_tx_envelope(#[trigger] p.transactions.deep_view()[j])
}

/// Whether `p` passes every check of the conversion to a block.
pub open spec fn payload_ok(p: ExecutionPayload) -> bool {
    &&& p.extra_data@.len() <= MAXIMUM_EXTRA_DATA_SIZE
    &&& p.base_fee_per_gas.value() <= u64::MAX
    &&& txs_ok(p)
}

/// Builds the block a payload describes. Fails, in this order of checks,
/// if the extra data is longer than 32 bytes, if the base fee does not fit
/// 64 bits, or at the first transaction that is not an envelope.
pub fn try_into_block(payload: ExecutionPayload, sidecar: &ExecutionPayloadSidecar) -> (r: Result<
    Block,
    PayloadError,
>)
    ensures
        payload.extra_data@.len() > MAXIMUM_EXTRA_DATA_SIZE ==> (r matches Err(
            PayloadError::ExtraData(d),
        ) && d@ == payload.extra_data@),
        payload.extra_data@.len() <= MAXIMUM_EXTRA_DATA_SIZE && payload.base_fee_per_gas.value()
            > u64::MAX ==> (r matches Err(PayloadError::BaseFee(f)) && f
            == payload.base_fee_per_gas),
        payload.extra_data@.len() <= MAXIMUM_EXTRA_DATA_SIZE && payload.base_fee_per_gas.value()
            <= u64::MAX && !txs_ok(payload) ==> (r matches Err(PayloadError::Decode(i)) && i
            < payload.transactions@.len() && !is_tx_envelope(payload.transactions.deep_view()[i as int])
            && forall|j: int| 0 <= j < i ==> is_tx_envelope(#[trigger] payload.transactions.deep_view()[j])),
        payload_ok(payload) ==> (r matches Ok(b) && header_from_payload(b.header, payload, *sidecar)
            && b.header.difficulty.value() == 0 && body_from_payload(b.body, payload)),
{
    if payload.extra_data.len() > MAXIMUM_EXTRA_DATA_SIZE {
        return Err(PayloadError::ExtraData(payload.extra_data));
    }
    let fee = payload.base_fee_per_gas;
    proof {
        crate::primitives::lemma_value_zero(U256 { l0: 0, l1: fee.l1, l2: fee.l2, l3: fee.l3 });
        crate::primitives::lemma_high_limbs(fee);
    }
    if fee.l1 != 0 || fee.l2 != 0 || fee.l3 != 0 {
        return Err(PayloadError::BaseFee(fee));
    }
    match find_bad_tx(&payload.transactions) {
        Some(i) => {
            return Err(PayloadError::Decode(i));
        },
        None => {},
    }
    let transactions_root = ordered_trie_root(&payload.transactions);
    let withdrawals_root = match &payload.withdrawals {
        Some(ws) => Some(calculate_withdrawals_root(ws)),
        None => None,
    };
    let parent_beacon_block_root = match &sidecar.cancun {
        Some(c) => Some(c.parent_beacon_block_root),
        None => None,
    };
    let header = Header {
        parent_hash: payload.parent_hash,
        ommers_hash: empty_ommers_root(),
        beneficiary: payload.fee_recipient,
        state_root: payload.state_root,
        transactions_root,
        receipts_root: payload.receipts_root,
        logs_bloom: payload.logs_bloom,
        difficulty: U256::zero(),
        number: payload.block_number,
        gas_limit: payload.gas_limit,
        gas_used: payload.gas_used,
        timestamp: payload.timestamp,
        extra_data: payload.extra_data,
        mix_hash: payload.prev_randao,
        nonce: 0,
        base_fee_per_gas: Some(fee.l0),
        withdrawals_root,
        blob_gas_used: payload.blob_gas_used,
        excess_blob_gas: payload.excess_blob_gas,
        parent_beacon_block_root,
        requests_hash: sidecar.requests_hash,
    };
    Ok(
        Block {
            header,
            body: BlockBody {
                transactions: payload.transactions,
                ommers: Vec::new(),
                withdrawals: payload.withdrawals,
            },
        },
    )
}

/// The number that big-endian bytes stand for.
pub open spec fn be_value(s: Seq<u8>) -> nat
    decreases s.len(),
{
    if s.len() == 0 {
        0
    } else {
        be_value(s.drop_last()) * 256 + s.last() as nat
    }
}

/// Whether `s` is exactly one RLP list.
pub open spec fn is_rlp_list(s: Seq<u8>) -> bool {
    &&& s.len() > 0
    &&& s[0] >= 0xc0
    &&& if s[0] <= 0xf7 {
        s.len() == 1 + (s[0] - 0xc0)
    } else {
        let n = (s[0] - 0xf7) as int;
        s.len() >= 1 + n && s.len() == 1 + n + be_value(s.subrange(1, 1 + n))
    }
}

/// Whether `s` has the shape of a transaction envelope: one RLP list, after
/// a type byte below 0x80 for typed transactions.
pub open spec fn is_tx_envelope(s: Seq<u8>) -> bool {
    s.len() > 0 && if s[0] >= 0xc0 {
        is_rlp_list(s)
    } else {
        s[0] < 0x80 && is_rlp_list(s.skip(1))
    }
}

proof fn lemma_be_value_prefix(s: Seq<u8>, k: int)
    requires
        0 <= k <= s.len(),
    ensures
        be_value(s.take(k)) <= be_value(s),
    decreases s.len(),
{
    if k < s.len() {
        assert(s.drop_last().take(k) =~= s.take(k));
        lemma_be_value_prefix(s.drop_last(), k);
    } else {
        assert(s.take(k) =~= s);
    }
}

/// Whether the bytes of `s` from `start` are exactly one RLP list.
fn rlp_list_at(s: &[u8], start: usize) -> (r: bool)
    requires
        start <= s@.len(),
    ensures
        r == is_rlp_list(s@.skip(start as int)),
{
    let ghost t = s@.skip(start as int);
    if start >= s.len() {
        return false;
    }
    let first = s[start];
    let rest = s.len() - start;
    if first < 0xc0 {
        return false;
    }
    if first <= 0xf7 {
        return rest == 1 + (first - 0xc0) as usize;
    }
    let n = (first - 0xf7) as usize;
    if rest < 1 + n {
        return false;
    }
    let mut acc: u128 = 0;
    let mut i: usize = 0;
    while i < n
        invariant
            t == s@.skip(start as int),
            start < s@.len(),
            s@.len() <= usize::MAX,
            t[0] == first,
            first > 0xf7,
            n == (first - 0xf7) as usize,
            rest == s@.len() - start,
            rest == t.len(),
            1 + n <= rest,
            i <= n,
            acc == be_value(t.subrange(1, 1 + i as int)),
            acc <= rest,
            rest <= usize::MAX,
        decreases n - i,
    {
        assert(t.subrange(1, 2 + i as int).drop_last() =~= t.subrange(1, 1 + i as int));
        let idx = start + 1 + i;
        let b = s[idx] as u128;
        assert(acc * 256 <= 0xffff_ffff_ffff_ffffu128 * 256) by (nonlinear_arith)
            requires
                acc <= 0xffff_ffff_ffff_ffffu128,
        ;
        let m = acc * 256;
        acc = m + b;
        i += 1;
        if acc > rest as u128 {
            proof {
                assert(t.subrange(1, 1 + n as int).take(i as int) =~= t.subrange(1, 1 + i as int));
                lemma_be_value_prefix(t.subrange(1, 1 + n as int), i as int);
            }
            return false;
        }
    }
    rest as u128 == 1 + n as u128 + acc
}

/// Whether `s` has the shape of a transaction envelope.
pub fn tx_envelope_ok(s: &[u8]) -> (r: bool)
    ensures
        r == is_tx_envelope(s@),
{
    if s.len() == 0 {
        return false;
    }
    assert(s@.skip(0) =~= s@);
    if s[0] >= 0xc0 {
        rlp_list_at(s, 0)
    } else {
        s[0] < 0x80 && rlp_list_at(s, 1)
    }
}

/// The index of the first of `txs` that is not a transaction envelope.
pub fn find_bad_tx(txs: &Vec<Vec<u8>>) -> (r: Option<usize>)
    ensures
        match r {
            Some(i) => i < txs@.len() && !is_tx_envelope(txs.deep_view()[i as int]) && forall|j: int|
                0 <= j < i ==> is_tx_envelope(#[trigger] txs.deep_view()[j]),
            None => forall|j: int| 0 <= j < txs@.len() ==> is_tx_envelope(#[trigger] txs.deep_view()[j]),
        },
{
    let mut i: usize = 0;
    while i < txs.len()
        invariant
            i <= txs@.len(),
            forall|j: int| 0 <= j < i ==> is_tx_envelope(#[trigger] txs.deep_view()[j]),
        decreases txs@.len() - i,
    {
        assert(txs.deep_view()[i as int] =~= txs@[i as int]@);
        if !tx_envelope_ok(txs[i].as_slice()) {
            return Some(i);
        }
        i += 1;
    }
    None
}

/// Whether any of the encoded transactions has type byte `ty`.
pub open spec fn has_tx_type(txs: Seq<Seq<u8>>, ty: u8) -> bool {
    exists|i: int| 0 <= i < txs.len() && txs[i].len() > 0 && (#[trigger] txs[i])[0] == ty
}

/// Whether any of the encoded transactions has type byte `ty`.
pub fn contains_tx_type(txs: &Vec<Vec<u8>>, ty: u8) -> (r: bool)
    ensures
        r == has_tx_type(txs.deep_view(), ty),
{
    let mut i: usize = 0;
    while i < txs.len()
        invariant
            i <= txs@.len(),
            forall|j: int|
                0 <= j < i ==> !(txs.deep_view()[j].len() > 0 && (#[trigger] txs.deep_view()[j])[0]
                    == ty),
        decreases txs@.len() - i,
    {
        assert(txs.deep_view()[i as int] == txs@[i as int]@);
        if txs[i].len() > 0 && txs[i][0] == ty {
            return true;
        }
        i += 1;
    }
    false
}

} // verus!
