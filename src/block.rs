//! Block headers and bodies.
use vstd::prelude::*;

use crate::codec::{enc_u64, put_u64};
use crate::primitives::{keccak256, keccak_of, Address, B256, U256};
use crate::rlp::{
    put_rlp_string, put_rlp_u256, put_rlp_u64, rlp_list, rlp_list_of, rlp_string, rlp_u256,
    rlp_u64,
};

verus! {

/// A block header. The fields after `base_fee_per_gas` were added by later
/// forks and are absent on this chain's own blocks.
#[derive(Clone, Debug)]
pub struct Header {
    pub parent_hash: B256,
    pub ommers_hash: B256,
    pub beneficiary: Address,
    pub state_root: B256,
    pub transactions_root: B256,
    pub receipts_root: B256,
    /// The 256-byte log bloom.
    pub logs_bloom: Vec<u8>,
    pub difficulty: U256,
    pub number: u64,
    pub gas_limit: u64,
    pub gas_used: u64,
    pub timestamp: u64,
    pub extra_data: Vec<u8>,
    pub mix_hash: B256,
    pub nonce: u64,
    pub base_fee_per_gas: Option<u64>,
    pub withdrawals_root: Option<B256>,
    pub blob_gas_used: Option<u64>,
    pub excess_blob_gas: Option<u64>,
    pub parent_beacon_block_root: Option<B256>,
    pub requests_hash: Option<B256>,
}

/// A withdrawal from the beacon chain.
#[derive(Clone, Copy, Debug)]
pub struct Withdrawal {
    pub index: u64,
    pub validator_index: u64,
    pub address: Address,
    pub amount: u64,
}

/// A block body: the signed transactions in their canonical encoding, the
/// (always empty on this chain) ommers, and withdrawals if the block has them.
#[derive(Clone, Debug)]
pub struct BlockBody {
    pub transactions: Vec<Vec<u8>>,
    pub ommers: Vec<Header>,
    pub withdrawals: Option<Vec<Withdrawal>>,
}

/// A header with its body.
#[derive(Clone, Debug)]
pub struct Block {
    pub header: Header,
    pub body: BlockBody,
}

/// A block together with its hash.
#[derive(Clone, Debug)]
pub struct SealedBlock {
    pub block: Block,
    pub hash: B256,
}

impl Default for Header {
    /// A header with every field zero, empty or absent.
    fn default() -> (r: Header)
        ensures
            r.number == 0,
            r.timestamp == 0,
            r.gas_limit == 0,
            r.gas_used == 0,
            r.difficulty.value() == 0,
            r.base_fee_per_gas.is_none(),
            r.withdrawals_root.is_none(),
            r.blob_gas_used.is_none(),
            r.excess_blob_gas.is_none(),
            r.parent_beacon_block_root.is_none(),
            r.requests_hash.is_none(),
            r.extra_data@.len() == 0,
            r.logs_bloom@ == Seq::new(256, |i: int| 0u8),
    {
        Header {
            parent_hash: B256::zero(),
            ommers_hash: B256::zero(),
            beneficiary: Address::zero(),
            state_root: B256::zero(),
            transactions_root: B256::zero(),
            receipts_root: B256::zero(),
            logs_bloom: zero_bloom(),
            difficulty: U256::zero(),
            number: 0,
            gas_limit: 0,
            gas_used: 0,
            timestamp: 0,
            extra_data: Vec::new(),
            mix_hash: B256::zero(),
            nonce: 0,
            base_fee_per_gas: None,
            withdrawals_root: None,
            blob_gas_used: None,
            excess_blob_gas: None,
            parent_beacon_block_root: None,
            requests_hash: None,
        }
    }
}

/// Size of a log bloom in bytes.
pub const BLOOM_BYTES: usize = 256;

/// An empty log bloom.
pub fn zero_bloom() -> (r: Vec<u8>)
    ensures
        r@ == Seq::new(256, |i: int| 0u8),
{
    let mut r: Vec<u8> = Vec::new();
    let mut i: usize = 0;
    while i < BLOOM_BYTES
        invariant
            i <= 256,
            r@ == Seq::new(i as nat, |j: int| 0u8),
        decreases 256 - i,
    {
        r.push(0u8);
        i += 1;
        assert(r@ =~= Seq::new(i as nat, |j: int| 0u8));
    }
    r
}


/// An optional integer field: encoded when present, left out when absent.
pub open spec fn opt_rlp_u64(o: Option<u64>) -> Seq<u8> {
    match o {
        Some(x) => rlp_u64(x),
        None => Seq::empty(),
    }
}

/// An optional 32-byte field: encoded when present, left out when absent.
pub open spec fn opt_rlp_b256(o: Option<B256>) -> Seq<u8> {
    match o {
        Some(x) => rlp_string(x@),
        None => Seq::empty(),
    }
}

/// The header's fields, each encoded, in order; the optional trailing fields
/// appear only when present.
pub open spec fn header_payload(h: Header) -> Seq<u8> {
    rlp_string(h.parent_hash@) + rlp_string(h.ommers_hash@) + rlp_string(h.beneficiary@)
        + rlp_string(h.state_root@) + rlp_string(h.transactions_root@) + rlp_string(
        h.receipts_root@,
    ) + rlp_string(h.logs_bloom@) + rlp_u256(h.difficulty) + rlp_u64(h.number) + rlp_u64(
        h.gas_limit,
    ) + rlp_u64(h.gas_used) + rlp_u64(h.timestamp) + rlp_string(h.extra_data@) + rlp_string(
        h.mix_hash@,
    ) + rlp_string(enc_u64(h.nonce)) + opt_rlp_u64(h.base_fee_per_gas) + opt_rlp_b256(
        h.withdrawals_root,
    ) + opt_rlp_u64(h.blob_gas_used) + opt_rlp_u64(h.excess_blob_gas) + opt_rlp_b256(
        h.parent_beacon_block_root,
    ) + opt_rlp_b256(h.requests_hash)
}

/// The encoded header, whose Keccak-256 digest is the block hash.
pub open spec fn header_rlp(h: Header) -> Seq<u8> {
    rlp_list(header_payload(h))
}

/// The hash of a block with header `h`.
pub open spec fn header_hash(h: Header) -> Seq<u8> {
    keccak_of(header_rlp(h))
}

fn put_opt_rlp_u64(out: &mut Vec<u8>, o: Option<u64>)
    ensures
        final(out)@ == old(out)@ + opt_rlp_u64(o),
{
    match o {
        Some(x) => put_rlp_u64(out, x),
        None => {},
    }
    assert(out@ =~= old(out)@ + opt_rlp_u64(o));
}

fn put_opt_rlp_b256(out: &mut Vec<u8>, o: Option<B256>)
    ensures
        final(out)@ == old(out)@ + opt_rlp_b256(o),
{
    match o {
        Some(x) => put_rlp_string(out, &x.bytes),
        None => {},
    }
    assert(out@ =~= old(out)@ + opt_rlp_b256(o));
}

impl Header {
    /// The encoded header.
    pub fn encode(&self) -> (r: Vec<u8>)
        ensures
            r@ == header_rlp(*self),
    {
        let mut p: Vec<u8> = Vec::new();
        put_rlp_string(&mut p, &self.parent_hash.bytes);
        put_rlp_string(&mut p, &self.ommers_hash.bytes);
        put_rlp_string(&mut p, &self.beneficiary.bytes);
        put_rlp_string(&mut p, &self.state_root.bytes);
        put_rlp_string(&mut p, &self.transactions_root.bytes);
        put_rlp_string(&mut p, &self.receipts_root.bytes);
        put_rlp_string(&mut p, self.logs_bloom.as_slice());
        put_rlp_u256(&mut p, self.difficulty);
        put_rlp_u64(&mut p, self.number);
        put_rlp_u64(&mut p, self.gas_limit);
        put_rlp_u64(&mut p, self.gas_used);
        put_rlp_u64(&mut p, self.timestamp);
        put_rlp_string(&mut p, self.extra_data.as_slice());
        put_rlp_string(&mut p, &self.mix_hash.bytes);
        let mut nonce: Vec<u8> = Vec::new();
        put_u64(&mut nonce, self.nonce);
        assert(nonce@ =~= enc_u64(self.nonce));
        put_rlp_string(&mut p, nonce.as_slice());
        put_opt_rlp_u64(&mut p, self.base_fee_per_gas);
        put_opt_rlp_b256(&mut p, self.withdrawals_root);
        put_opt_rlp_u64(&mut p, self.blob_gas_used);
        put_opt_rlp_u64(&mut p, self.excess_blob_gas);
        put_opt_rlp_b256(&mut p, self.parent_beacon_block_root);
        put_opt_rlp_b256(&mut p, self.requests_hash);
        assert(p@ =~= header_payload(*self));
        rlp_list_of(p.as_slice())
    }

    /// The block hash: the Keccak-256 digest of the encoded header.
    pub fn hash_slow(&self) -> (r: B256)
        ensures
            r@ == header_hash(*self),
    {
        let e = self.encode();
        keccak256(e.as_slice())
    }
}

} // verus!
