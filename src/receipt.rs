//! Receipts: the outcome of each executed transaction, in the shape that
//! matches its kind.
use vstd::prelude::*;

use crate::primitives::{Address, B256, U256};
use crate::transaction::ScrollTxType;

verus! {

/// An event emitted during execution.
#[derive(Clone, Debug)]
pub struct Log {
    pub address: Address,
    pub topics: Vec<B256>,
    pub data: Vec<u8>,
}

impl DeepView for Log {
    /// The address, the topics and the data.
    type V = (Seq<u8>, Seq<Seq<u8>>, Seq<u8>);

    open spec fn deep_view(&self) -> (Seq<u8>, Seq<Seq<u8>>, Seq<u8>) {
        (self.address@, self.topics.deep_view(), self.data.deep_view())
    }
}

/// The fields every receipt has.
#[derive(Clone, Debug)]
pub struct Receipt {
    pub status: bool,
    pub cumulative_gas_used: u64,
    pub logs: Vec<Log>,
}

/// A receipt of a transaction that pays an L1 data fee.
#[derive(Clone, Debug)]
pub struct ScrollTransactionReceipt {
    pub inner: Receipt,
    pub l1_fee: U256,
}

/// A receipt, by the kind of its transaction. L1 messages pay no L1 data fee
/// and so carry the plain shape.
#[derive(Clone, Debug)]
pub enum ScrollReceipt {
    Legacy(ScrollTransactionReceipt),
    Eip2930(ScrollTransactionReceipt),
    Eip1559(ScrollTransactionReceipt),
    L1Message(Receipt),
}

impl ScrollReceipt {
    /// The fields every receipt has.
    pub open spec fn spec_inner(&self) -> Receipt {
        match self {
            ScrollReceipt::Legacy(r) => r.inner,
            ScrollReceipt::Eip2930(r) => r.inner,
            ScrollReceipt::Eip1559(r) => r.inner,
            ScrollReceipt::L1Message(r) => *r,
        }
    }

    /// The kind of the transaction.
    pub open spec fn spec_tx_type(&self) -> ScrollTxType {
        match self {
            ScrollReceipt::Legacy(_) => ScrollTxType::Legacy,
            ScrollReceipt::Eip2930(_) => ScrollTxType::Eip2930,
            ScrollReceipt::Eip1559(_) => ScrollTxType::Eip1559,
            ScrollReceipt::L1Message(_) => ScrollTxType::L1Message,
        }
    }

    /// The L1 data fee, zero for L1 messages.
    pub open spec fn spec_l1_fee(&self) -> nat {
        match self {
            ScrollReceipt::Legacy(r) => r.l1_fee.value(),
            ScrollReceipt::Eip2930(r) => r.l1_fee.value(),
            ScrollReceipt::Eip1559(r) => r.l1_fee.value(),
            ScrollReceipt::L1Message(_) => 0,
        }
    }

    /// The fields every receipt has.
    pub fn inner(&self) -> (r: &Receipt)
        ensures
            *r == self.spec_inner(),
    {
        match self {
            ScrollReceipt::Legacy(r) => &r.inner,
            ScrollReceipt::Eip2930(r) => &r.inner,
            ScrollReceipt::Eip1559(r) => &r.inner,
            ScrollReceipt::L1Message(r) => r,
        }
    }

    /// The kind of the transaction.
    pub fn tx_type(&self) -> (r: ScrollTxType)
        ensures
            r == self.spec_tx_type(),
    {
        match self {
            ScrollReceipt::Legacy(_) => ScrollTxType::Legacy,
            ScrollReceipt::Eip2930(_) => ScrollTxType::Eip2930,
            ScrollReceipt::Eip1559(_) => ScrollTxType::Eip1559,
            ScrollReceipt::L1Message(_) => ScrollTxType::L1Message,
        }
    }

    /// Whether the transaction succeeded.
    pub fn status(&self) -> (r: bool)
        ensures
            r == self.spec_inner().status,
    {
        self.inner().status
    }

    /// Gas used by this and every earlier transaction of the block.
    pub fn cumulative_gas_used(&self) -> (r: u64)
        ensures
            r == self.spec_inner().cumulative_gas_used,
    {
        self.inner().cumulative_gas_used
    }

    /// The L1 data fee, zero for L1 messages.
    pub fn l1_fee(&self) -> (r: U256)
        ensures
            r.value() == self.spec_l1_fee(),
    {
        match self {
            ScrollReceipt::Legacy(r) => r.l1_fee,
            ScrollReceipt::Eip2930(r) => r.l1_fee,
            ScrollReceipt::Eip1559(r) => r.l1_fee,
            ScrollReceipt::L1Message(_) => U256::zero(),
        }
    }
}

/// Builds the receipt of one transaction: the shape follows the kind, and the
/// L1 data fee is kept for every kind but L1 messages.
pub fn build_receipt(
    tx_type: ScrollTxType,
    status: bool,
    cumulative_gas_used: u64,
    logs: Vec<Log>,
    l1_fee: U256,
) -> (r: ScrollReceipt)
    ensures
        r.spec_tx_type() == tx_type,
        r.spec_inner().status == status,
        r.spec_inner().cumulative_gas_used == cumulative_gas_used,
        r.spec_inner().logs == logs,
        tx_type != ScrollTxType::L1Message ==> r.spec_l1_fee() == l1_fee.value(),
        tx_type == ScrollTxType::L1Message ==> r.spec_l1_fee() == 0,
{
    let inner = Receipt { status, cumulative_gas_used, logs };
    match tx_type {
        ScrollTxType::Legacy => ScrollReceipt::Legacy(ScrollTransactionReceipt { inner, l1_fee }),
        ScrollTxType::Eip2930 => ScrollReceipt::Eip2930(ScrollTransactionReceipt { inner, l1_fee }),
        ScrollTxType::Eip1559 => ScrollReceipt::Eip1559(ScrollTransactionReceipt { inner, l1_fee }),
        ScrollTxType::L1Message => ScrollReceipt::L1Message(inner),
    }
}

} // verus!
