//! Block assembly: the header and body of a block from its execution result.
use vstd::prelude::*;

use crate::block::{Block, BlockBody, Header};
use crate::config::BlockEnv;
use crate::executor::BlockExecutionResult;
use crate::hardfork::ScrollChainSpec;
use crate::payload::{empty_ommers_hash, empty_ommers_root, ordered_trie_root, trie_root_of};
use crate::primitives::B256;
use crate::receipt::{Log, ScrollReceipt};
use crate::rlp::{put_rlp_string, put_rlp_u64, rlp_list, rlp_list_of, rlp_string, rlp_u64};
use crate::transaction::ScrollTxType;

verus! {

/// The 2048-bit log bloom of a sequence of logs, each given as its address,
/// topics and data.
pub uninterp spec fn bloom_of(logs: Seq<(Seq<u8>, Seq<Seq<u8>>, Seq<u8>)>) -> Seq<u8>;

/// Relies on `alloy_primitives::logs_bloom`: the bloom that accrues each
/// log's address and topics, a function of the logs alone; a `Bloom` holds
/// 256 bytes.
#[verifier::external_body]
fn alloy_logs_bloom(logs: &Vec<Log>) -> (r: Vec<u8>)
    ensures
        r@ == bloom_of(logs.deep_view()),
        r@.len() == 256,
{
    let logs: Vec<alloy_primitives::Log> = logs.iter().map(|l| alloy_primitives::Log::new_unchecked(
        l.address.bytes.into(),
        l.topics.iter().map(|t| t.bytes.into()).collect(),
        l.data.clone().into(),
    )).collect();
    alloy_primitives::logs_bloom(logs.iter()).0.0.to_vec()
}

/// The bloom of a receipt's logs.
pub open spec fn receipt_bloom(r: ScrollReceipt) -> Seq<u8> {
    bloom_of(r.spec_inner().logs.deep_view())
}

/// Every log of every receipt, in order.
pub open spec fn all_logs(rs: Seq<ScrollReceipt>) -> Seq<(Seq<u8>, Seq<Seq<u8>>, Seq<u8>)>
    decreases rs.len(),
{
    if rs.len() == 0 {
        Seq::empty()
    } else {
        all_logs(rs.drop_last()) + rs.last().spec_inner().logs.deep_view()
    }
}

/// The bloom of a block: every log of every receipt accrued.
pub open spec fn block_bloom(rs: Seq<ScrollReceipt>) -> Seq<u8> {
    bloom_of(all_logs(rs))
}

/// The bloom of a block's receipts.
pub fn logs_bloom(receipts: &Vec<ScrollReceipt>) -> (r: Vec<u8>)
    ensures
        r@ == block_bloom(receipts@),
        r@.len() == 256,
{
    let mut logs: Vec<Log> = Vec::new();
    let mut i: usize = 0;
    while i < receipts.len()
        invariant
            i <= receipts@.len(),
            logs.deep_view() == all_logs(receipts@.take(i as int)),
        decreases receipts@.len() - i,
    {
        let rl = &receipts[i].inner().logs;
        let ghost before = logs.deep_view();
        let mut j: usize = 0;
        while j < rl.len()
            invariant
                j <= rl@.len(),
                logs.deep_view() == before + rl.deep_view().take(j as int),
            decreases rl@.len() - j,
        {
            let ghost prev = logs.deep_view();
            logs.push(clone_log(&rl[j]));
            assert(logs.deep_view() =~= prev.push(rl@[j as int].deep_view()));
            assert(rl.deep_view().take(j + 1) =~= rl.deep_view().take(j as int).push(
                rl.deep_view()[j as int],
            ));
            assert(logs.deep_view() =~= before + rl.deep_view().take(j + 1));
            j += 1;
        }
        assert(rl.deep_view().take(rl@.len() as int) =~= rl.deep_view());
        assert(receipts@.take(i + 1).drop_last() =~= receipts@.take(i as int));
        i += 1;
    }
    assert(receipts@.take(receipts@.len() as int) =~= receipts@);
    alloy_logs_bloom(&logs)
}

/// A copy of a log.
pub fn clone_log(l: &Log) -> (r: Log)
    ensures
        r.deep_view() == l.deep_view(),
{
    let mut topics: Vec<B256> = Vec::new();
    let mut k: usize = 0;
    while k < l.topics.len()
        invariant
            k <= l.topics@.len(),
            topics@ == l.topics@.take(k as int),
        decreases l.topics@.len() - k,
    {
        topics.push(l.topics[k]);
        k += 1;
        assert(topics@ =~= l.topics@.take(k as int));
    }
    assert(l.topics@.take(l.topics@.len() as int) =~= l.topics@);
    let data = crate::state::copy_bytes(&l.data);
    let r = Log { address: l.address, topics, data };
    assert(r.topics.deep_view() =~= l.topics.deep_view());
    assert(r.data.deep_view() =~= l.data.deep_view());
    r
}

/// The encoded topics of a log, one after another.
pub open spec fn topics_rlp(ts: Seq<B256>) -> Seq<u8>
    decreases ts.len(),
{
    if ts.len() == 0 {
        Seq::empty()
    } else {
        topics_rlp(ts.drop_last()) + rlp_string(ts.last()@)
    }
}

/// The encoding of a log: address, topics, data.
pub open spec fn log_rlp(l: Log) -> Seq<u8> {
    rlp_list(rlp_string(l.address@) + rlp_list(topics_rlp(l.topics@)) + rlp_string(l.data@))
}

/// Encoded logs, one after another.
pub open spec fn logs_rlp(ls: Seq<Log>) -> Seq<u8>
    decreases ls.len(),
{
    if ls.len() == 0 {
        Seq::empty()
    } else {
        logs_rlp(ls.drop_last()) + log_rlp(ls.last())
    }
}

/// The consensus encoding of a receipt: the type byte (none for legacy),
/// then the status, the cumulative gas, the bloom and the logs. The L1 data
/// fee is not part of it.
pub open spec fn receipt_rlp(r: ScrollReceipt) -> Seq<u8> {
    let inner = r.spec_inner();
    let body = rlp_list(
        rlp_u64(if inner.status { 1 } else { 0 }) + rlp_u64(inner.cumulative_gas_used)
            + rlp_string(receipt_bloom(r)) + rlp_list(logs_rlp(inner.logs@)),
    );
    if r.spec_tx_type() == ScrollTxType::Legacy {
        body
    } else {
        seq![r.spec_tx_type().spec_byte()] + body
    }
}

fn encode_log(l: &Log) -> (r: Vec<u8>)
    ensures
        r@ == log_rlp(*l),
{
    let mut topics: Vec<u8> = Vec::new();
    let mut k: usize = 0;
    while k < l.topics.len()
        invariant
            k <= l.topics@.len(),
            topics@ == topics_rlp(l.topics@.take(k as int)),
        decreases l.topics@.len() - k,
    {
        put_rlp_string(&mut topics, &l.topics[k].bytes);
        assert(l.topics@.take(k + 1).drop_last() =~= l.topics@.take(k as int));
        k += 1;
    }
    assert(l.topics@.take(l.topics@.len() as int) =~= l.topics@);
    let mut p: Vec<u8> = Vec::new();
    put_rlp_string(&mut p, &l.address.bytes);
    let t = rlp_list_of(topics.as_slice());
    crate::codec::put_slice(&mut p, t.as_slice());
    put_rlp_string(&mut p, l.data.as_slice());
    assert(p@ =~= rlp_string(l.address@) + rlp_list(topics_rlp(l.topics@)) + rlp_string(l.data@));
    rlp_list_of(p.as_slice())
}

/// The consensus encoding of a receipt.
pub fn encode_receipt(r: &ScrollReceipt) -> (out: Vec<u8>)
    ensures
        out@ == receipt_rlp(*r),
{
    let inner = r.inner();
    let mut logs: Vec<u8> = Vec::new();
    let mut j: usize = 0;
    while j < inner.logs.len()
        invariant
            j <= inner.logs@.len(),
            logs@ == logs_rlp(inner.logs@.take(j as int)),
        decreases inner.logs@.len() - j,
    {
        let e = encode_log(&inner.logs[j]);
        crate::codec::put_slice(&mut logs, e.as_slice());
        assert(inner.logs@.take(j + 1).drop_last() =~= inner.logs@.take(j as int));
        j += 1;
    }
    assert(inner.logs@.take(inner.logs@.len() as int) =~= inner.logs@);
    let bloom = alloy_logs_bloom(&inner.logs);
    let mut p: Vec<u8> = Vec::new();
    put_rlp_u64(&mut p, if inner.status { 1 } else { 0 });
    put_rlp_u64(&mut p, inner.cumulative_gas_used);
    put_rlp_string(&mut p, bloom.as_slice());
    let l = rlp_list_of(logs.as_slice());
    crate::codec::put_slice(&mut p, l.as_slice());
    let body = rlp_list_of(p.as_slice());
    let ty = r.tx_type();
    if ty == ScrollTxType::Legacy {
        body
    } else {
        let mut out: Vec<u8> = Vec::new();
        out.push(ty.as_byte());
        crate::codec::put_slice(&mut out, body.as_slice());
        assert(out@ =~= seq![ty.spec_byte()] + body@);
        out
    }
}


/// The root of a block's receipts.
pub open spec fn receipts_root_of(rs: Seq<ScrollReceipt>) -> Seq<u8> {
    trie_root_of(Seq::new(rs.len(), |i: int| receipt_rlp(rs[i])))
}

/// The root of a block's receipts.
pub fn calculate_receipts_root(receipts: &Vec<ScrollReceipt>) -> (r: B256)
    ensures
        r@ == receipts_root_of(receipts@),
{
    let mut items: Vec<Vec<u8>> = Vec::new();
    let mut i: usize = 0;
    while i < receipts.len()
        invariant
            i <= receipts@.len(),
            items@.len() == i,
            forall|j: int| 0 <= j < i ==> (#[trigger] items@[j])@ == receipt_rlp(receipts@[j]),
        decreases receipts@.len() - i,
    {
        items.push(encode_receipt(&receipts[i]));
        i += 1;
    }
    assert forall|j: int| 0 <= j < items@.len() implies #[trigger] items.deep_view()[j]
        == receipt_rlp(receipts@[j]) by {
        assert(items@[j].deep_view() =~= items@[j]@);
    }
    assert(items.deep_view() =~= Seq::new(receipts@.len(), |j: int| receipt_rlp(receipts@[j])));
    ordered_trie_root(&items)
}

/// Assembles blocks from their execution results.
#[derive(Clone, Copy, Debug)]
pub struct ScrollBlockAssembler {
    chain_spec: ScrollChainSpec,
}

impl ScrollBlockAssembler {
    pub closed spec fn spec_chain(&self) -> ScrollChainSpec {
        self.chain_spec
    }

    pub fn new(chain_spec: ScrollChainSpec) -> (r: ScrollBlockAssembler)
        ensures
            r.spec_chain() == chain_spec,
    {
        ScrollBlockAssembler { chain_spec }
    }

    /// The block whose transactions (in canonical encoding) are
    /// `transactions`, executed in the environment `env` with result
    /// `result`, on top of the block `parent_hash`, leaving state root
    /// `state_root`. The roots and the bloom are derived; withdrawals, blob
    /// fields and the beacon root are absent; there are no ommers.
    pub fn assemble_block(
        &self,
        parent_hash: B256,
        env: &BlockEnv,
        transactions: Vec<Vec<u8>>,
        result: &BlockExecutionResult,
        state_root: B256,
        extra_data: Vec<u8>,
    ) -> (r: Block)
        requires
            transactions@.len() == result.receipts@.len(),
        ensures
            r.header.parent_hash == parent_hash,
            r.header.ommers_hash@ == empty_ommers_hash(),
            r.header.beneficiary == env.beneficiary,
            r.header.state_root == state_root,
            r.header.transactions_root@ == trie_root_of(transactions.deep_view()),
            r.header.receipts_root@ == receipts_root_of(result.receipts@),
            r.header.logs_bloom@ == block_bloom(result.receipts@),
            r.header.difficulty == env.difficulty,
            r.header.number == env.number,
            r.header.gas_limit == env.gas_limit,
            r.header.gas_used == result.gas_used,
            r.header.timestamp == env.timestamp,
            r.header.extra_data@ == extra_data@,
            r.header.mix_hash@ == match env.prevrandao {
                Some(h) => h@,
                None => Seq::new(32, |i: int| 0u8),
            },
            r.header.nonce == 0,
            r.header.base_fee_per_gas == Some(env.basefee),
            r.header.withdrawals_root.is_none(),
            r.header.blob_gas_used.is_none(),
            r.header.excess_blob_gas.is_none(),
            r.header.parent_beacon_block_root.is_none(),
            r.header.requests_hash.is_none(),
            r.body.transactions.deep_view() == transactions.deep_view(),
            r.body.ommers@.len() == 0,
            r.body.withdrawals.is_none(),
    {
        let transactions_root = ordered_trie_root(&transactions);
        let receipts_root = calculate_receipts_root(&result.receipts);
        let logs_bloom = logs_bloom(&result.receipts);
        let mix_hash = match env.prevrandao {
            Some(h) => h,
            None => B256::zero(),
        };
        let header = Header {
            parent_hash,
            ommers_hash: empty_ommers_root(),
            beneficiary: env.beneficiary,
            state_root,
            transactions_root,
            receipts_root,
            logs_bloom,
            difficulty: env.difficulty,
            number: env.number,
            gas_limit: env.gas_limit,
            gas_used: result.gas_used,
            timestamp: env.timestamp,
            extra_data,
            mix_hash,
            nonce: 0,
            base_fee_per_gas: Some(env.basefee),
            withdrawals_root: None,
            blob_gas_used: None,
            excess_blob_gas: None,
            parent_beacon_block_root: None,
            requests_hash: None,
        };
        Block { header, body: BlockBody { transactions, ommers: Vec::new(), withdrawals: None } }
    }
}

} // verus!
