//! The transaction model: the four transaction variants this chain accepts,
//! behind one sum type.
use vstd::prelude::*;

use crate::primitives::{Address, B256, U256};

verus! {

/// Type byte of legacy transactions.
pub const LEGACY_TX_TYPE: u8 = 0x00;

/// Type byte of EIP-2930 transactions.
pub const EIP2930_TX_TYPE: u8 = 0x01;

/// Type byte of EIP-1559 transactions.
pub const EIP1559_TX_TYPE: u8 = 0x02;

/// Type byte of EIP-4844 (blob) transactions, which this chain never accepts.
pub const EIP4844_TX_TYPE: u8 = 0x03;

/// Type byte of EIP-7702 (set-code) transactions, which this chain never accepts.
pub const EIP7702_TX_TYPE: u8 = 0x04;

/// Type byte of L1 message transactions.
pub const L1_MESSAGE_TX_TYPE: u8 = 0x7e;

/// The kind of a transaction.
#[derive(Clone, Copy, Debug, PartialEq, Eq, Structural)]
pub enum ScrollTxType {
    Legacy,
    Eip2930,
    Eip1559,
    L1Message,
}

impl ScrollTxType {
    /// The type byte of this kind.
    pub open spec fn spec_byte(self) -> u8 {
        match self {
            ScrollTxType::Legacy => LEGACY_TX_TYPE,
            ScrollTxType::Eip2930 => EIP2930_TX_TYPE,
            ScrollTxType::Eip1559 => EIP1559_TX_TYPE,
            ScrollTxType::L1Message => L1_MESSAGE_TX_TYPE,
        }
    }

    /// The type byte of this kind.
    pub fn as_byte(self) -> (r: u8)
        ensures
            r == self.spec_byte(),
    {
        match self {
            ScrollTxType::Legacy => LEGACY_TX_TYPE,
            ScrollTxType::Eip2930 => EIP2930_TX_TYPE,
            ScrollTxType::Eip1559 => EIP1559_TX_TYPE,
            ScrollTxType::L1Message => L1_MESSAGE_TX_TYPE,
        }
    }

    /// The kind with this type byte, if any.
    pub fn from_byte(b: u8) -> (r: Option<ScrollTxType>)
        ensures
            match r {
                Some(t) => t.spec_byte() == b,
                None => forall|t: ScrollTxType| t.spec_byte() != b,
            },
    {
        if b == LEGACY_TX_TYPE {
            Some(ScrollTxType::Legacy)
        } else if b == EIP2930_TX_TYPE {
            Some(ScrollTxType::Eip2930)
        } else if b == EIP1559_TX_TYPE {
            Some(ScrollTxType::Eip1559)
        } else if b == L1_MESSAGE_TX_TYPE {
            Some(ScrollTxType::L1Message)
        } else {
            None
        }
    }
}

/// The `"type"` tag of a transaction kind in JSON: two lowercase hex digits.
pub open spec fn json_tag(t: ScrollTxType) -> Seq<u8> {
    match t {
        ScrollTxType::Legacy => seq![0x30u8, 0x78u8, 0x30u8, 0x30u8],
        ScrollTxType::Eip2930 => seq![0x30u8, 0x78u8, 0x30u8, 0x31u8],
        ScrollTxType::Eip1559 => seq![0x30u8, 0x78u8, 0x30u8, 0x32u8],
        ScrollTxType::L1Message => seq![0x30u8, 0x78u8, 0x37u8, 0x65u8],
    }
}

/// The short and upper-case forms a decoder also accepts: `0x0`, `0x1`,
/// `0x2`, `0x7E`.
pub open spec fn json_tag_alias(t: ScrollTxType) -> Seq<u8> {
    match t {
        ScrollTxType::Legacy => seq![0x30u8, 0x78u8, 0x30u8],
        ScrollTxType::Eip2930 => seq![0x30u8, 0x78u8, 0x31u8],
        ScrollTxType::Eip1559 => seq![0x30u8, 0x78u8, 0x32u8],
        ScrollTxType::L1Message => seq![0x30u8, 0x78u8, 0x37u8, 0x45u8],
    }
}

impl ScrollTxType {
    /// The `"type"` tag this kind is written with in JSON.
    pub fn json_type_tag(self) -> (r: [u8; 4])
        ensures
            r@ == json_tag(self),
    {
        let r: [u8; 4] = match self {
            ScrollTxType::Legacy => [0x30u8, 0x78u8, 0x30u8, 0x30u8],
            ScrollTxType::Eip2930 => [0x30u8, 0x78u8, 0x30u8, 0x31u8],
            ScrollTxType::Eip1559 => [0x30u8, 0x78u8, 0x30u8, 0x32u8],
            ScrollTxType::L1Message => [0x30u8, 0x78u8, 0x37u8, 0x65u8],
        };
        assert(r@ =~= json_tag(self));
        r
    }

    /// The kind a JSON `"type"` tag names, in its written or its alias form;
    /// nothing for any other tag.
    pub fn from_json_type_tag(tag: &[u8]) -> (r: Option<ScrollTxType>)
        ensures
            match r {
                Some(t) => tag@ == json_tag(t) || tag@ == json_tag_alias(t),
                None => forall|t: ScrollTxType| tag@ != json_tag(t) && tag@ != json_tag_alias(t),
            },
    {
        let n = tag.len();
        if n < 3 || n > 4 || tag[0] != 0x30u8 || tag[1] != 0x78u8 {
            proof {
                assert forall|t: ScrollTxType| tag@ != json_tag(t) && tag@ != json_tag_alias(t) by {
                    if tag@ == json_tag(t) || tag@ == json_tag_alias(t) {
                        assert(tag@[0] == 0x30u8 && tag@[1] == 0x78u8);
                    }
                }
            }
            return None;
        }
        let r = if n == 3 {
            if tag[2] == 0x30u8 {
                Some(ScrollTxType::Legacy)
            } else if tag[2] == 0x31u8 {
                Some(ScrollTxType::Eip2930)
            } else if tag[2] == 0x32u8 {
                Some(ScrollTxType::Eip1559)
            } else {
                None
            }
        } else if tag[2] == 0x30u8 && tag[3] == 0x30u8 {
            Some(ScrollTxType::Legacy)
        } else if tag[2] == 0x30u8 && tag[3] == 0x31u8 {
            Some(ScrollTxType::Eip2930)
        } else if tag[2] == 0x30u8 && tag[3] == 0x32u8 {
            Some(ScrollTxType::Eip1559)
        } else if tag[2] == 0x37u8 && (tag[3] == 0x65u8 || tag[3] == 0x45u8) {
            Some(ScrollTxType::L1Message)
        } else {
            None
        };
        proof {
            match r {
                Some(t) => {
                    if n == 3 {
                        assert(tag@ =~= json_tag_alias(t));
                    } else if tag@ =~= json_tag(t) {
                    } else {
                        assert(tag@ =~= json_tag_alias(t));
                    }
                },
                None => {
                    assert forall|t: ScrollTxType| tag@ != json_tag(t) && tag@ != json_tag_alias(
                        t,
                    ) by {
                        if tag@ == json_tag(t) || tag@ == json_tag_alias(t) {
                            assert(tag@[2] == json_tag(t)[2] || tag@[2] == json_tag_alias(t)[2]);
                        }
                    }
                },
            }
        }
        r
    }
}

/// A kind read back from the tag it is written with is the same kind.
pub proof fn lemma_json_tag_round_trip(t: ScrollTxType, u: ScrollTxType)
    requires
        json_tag(t) == json_tag(u) || json_tag(t) == json_tag_alias(u),
    ensures
        t == u,
{
    if t != u {
        let a = json_tag(t);
        let b = json_tag(u);
        let c = json_tag_alias(u);
        assert(a.len() == 4 && b.len() == 4);
        assert(a[2] != b[2] || a[3] != b[3]);
        assert(c.len() != 4 || a[2] != c[2] || a[3] != c[3]);
    }
}

/// Where a transaction goes: a new contract, or a call to an address.
#[derive(Clone, Copy, Debug)]
pub enum TxKind {
    Create,
    Call(Address),
}

impl DeepView for TxKind {
    /// The callee's bytes, or nothing for a creation.
    type V = Option<Seq<u8>>;

    open spec fn deep_view(&self) -> Option<Seq<u8>> {
        match self {
            TxKind::Create => None,
            TxKind::Call(a) => Some(a@),
        }
    }
}

/// An address and the storage keys a transaction declares it will touch.
#[derive(Clone, Debug)]
pub struct AccessListItem {
    pub address: Address,
    pub storage_keys: Vec<B256>,
}

pub struct AccessItemModel {
    pub address: Seq<u8>,
    pub storage_keys: Seq<Seq<u8>>,
}

impl DeepView for AccessListItem {
    type V = AccessItemModel;

    open spec fn deep_view(&self) -> AccessItemModel {
        AccessItemModel { address: self.address@, storage_keys: self.storage_keys.deep_view() }
    }
}

/// A transaction from before typed envelopes.
#[derive(Clone, Debug)]
pub struct TxLegacy {
    pub chain_id: Option<u64>,
    pub nonce: u64,
    pub gas_price: u128,
    pub gas_limit: u64,
    pub to: TxKind,
    pub value: U256,
    pub input: Vec<u8>,
}

pub struct TxLegacyModel {
    pub chain_id: Option<u64>,
    pub nonce: u64,
    pub gas_price: u128,
    pub gas_limit: u64,
    pub to: Option<Seq<u8>>,
    pub value: U256,
    pub input: Seq<u8>,
}

impl DeepView for TxLegacy {
    type V = TxLegacyModel;

    open spec fn deep_view(&self) -> TxLegacyModel {
        TxLegacyModel {
            chain_id: self.chain_id,
            nonce: self.nonce,
            gas_price: self.gas_price,
            gas_limit: self.gas_limit,
            to: self.to.deep_view(),
            value: self.value,
            input: self.input@,
        }
    }
}

/// A transaction with an access list (EIP-2930).
#[derive(Clone, Debug)]
pub struct TxEip2930 {
    pub chain_id: u64,
    pub nonce: u64,
    pub gas_price: u128,
    pub gas_limit: u64,
    pub to: TxKind,
    pub value: U256,
    pub access_list: Vec<AccessListItem>,
    pub input: Vec<u8>,
}

pub struct TxEip2930Model {
    pub chain_id: u64,
    pub nonce: u64,
    pub gas_price: u128,
    pub gas_limit: u64,
    pub to: Option<Seq<u8>>,
    pub value: U256,
    pub access_list: Seq<AccessItemModel>,
    pub input: Seq<u8>,
}

impl DeepView for TxEip2930 {
    type V = TxEip2930Model;

    open spec fn deep_view(&self) -> TxEip2930Model {
        TxEip2930Model {
            chain_id: self.chain_id,
            nonce: self.nonce,
            gas_price: self.gas_price,
            gas_limit: self.gas_limit,
            to: self.to.deep_view(),
            value: self.value,
            access_list: self.access_list.deep_view(),
            input: self.input@,
        }
    }
}

/// A transaction with a fee cap and a priority fee (EIP-1559).
#[derive(Clone, Debug)]
pub struct TxEip1559 {
    pub chain_id: u64,
    pub nonce: u64,
    pub gas_limit: u64,
    pub max_fee_per_gas: u128,
    pub max_priority_fee_per_gas: u128,
    pub to: TxKind,
    pub value: U256,
    pub access_list: Vec<AccessListItem>,
    pub input: Vec<u8>,
}

pub struct TxEip1559Model {
    pub chain_id: u64,
    pub nonce: u64,
    pub gas_limit: u64,
    pub max_fee_per_gas: u128,
    pub max_priority_fee_per_gas: u128,
    pub to: Option<Seq<u8>>,
    pub value: U256,
    pub access_list: Seq<AccessItemModel>,
    pub input: Seq<u8>,
}

impl DeepView for TxEip1559 {
    type V = TxEip1559Model;

    open spec fn deep_view(&self) -> TxEip1559Model {
        TxEip1559Model {
            chain_id: self.chain_id,
            nonce: self.nonce,
            gas_limit: self.gas_limit,
            max_fee_per_gas: self.max_fee_per_gas,
            max_priority_fee_per_gas: self.max_priority_fee_per_gas,
            to: self.to.deep_view(),
            value: self.value,
            access_list: self.access_list.deep_view(),
            input: self.input@,
        }
    }
}

/// A message bridged from L1, identified by its place in the L1 queue.
#[derive(Clone, Debug)]
pub struct TxL1Message {
    pub queue_index: u64,
    pub gas_limit: u64,
    pub to: Address,
    pub value: U256,
    pub sender: Address,
    pub input: Vec<u8>,
}

pub struct TxL1MessageModel {
    pub queue_index: u64,
    pub gas_limit: u64,
    pub to: Seq<u8>,
    pub value: U256,
    pub sender: Seq<u8>,
    pub input: Seq<u8>,
}

impl DeepView for TxL1Message {
    type V = TxL1MessageModel;

    open spec fn deep_view(&self) -> TxL1MessageModel {
        TxL1MessageModel {
            queue_index: self.queue_index,
            gas_limit: self.gas_limit,
            to: self.to@,
            value: self.value,
            sender: self.sender@,
            input: self.input@,
        }
    }
}

/// Any transaction this chain accepts.
#[derive(Clone, Debug)]
pub enum ScrollTypedTransaction {
    Legacy(TxLegacy),
    Eip2930(TxEip2930),
    Eip1559(TxEip1559),
    L1Message(TxL1Message),
}

pub enum TxModel {
    Legacy(TxLegacyModel),
    Eip2930(TxEip2930Model),
    Eip1559(TxEip1559Model),
    L1Message(TxL1MessageModel),
}

impl DeepView for ScrollTypedTransaction {
    type V = TxModel;

    open spec fn deep_view(&self) -> TxModel {
        match self {
            ScrollTypedTransaction::Legacy(t) => TxModel::Legacy(t.deep_view()),
            ScrollTypedTransaction::Eip2930(t) => TxModel::Eip2930(t.deep_view()),
            ScrollTypedTransaction::Eip1559(t) => TxModel::Eip1559(t.deep_view()),
            ScrollTypedTransaction::L1Message(t) => TxModel::L1Message(t.deep_view()),
        }
    }
}

impl ScrollTypedTransaction {
    /// The kind of the transaction.
    pub open spec fn spec_tx_type(&self) -> ScrollTxType {
        match self {
            ScrollTypedTransaction::Legacy(_) => ScrollTxType::Legacy,
            ScrollTypedTransaction::Eip2930(_) => ScrollTxType::Eip2930,
            ScrollTypedTransaction::Eip1559(_) => ScrollTxType::Eip1559,
            ScrollTypedTransaction::L1Message(_) => ScrollTxType::L1Message,
        }
    }

    /// The gas limit of the transaction.
    pub open spec fn spec_gas_limit(&self) -> u64 {
        match self {
            ScrollTypedTransaction::Legacy(t) => t.gas_limit,
            ScrollTypedTransaction::Eip2930(t) => t.gas_limit,
            ScrollTypedTransaction::Eip1559(t) => t.gas_limit,
            ScrollTypedTransaction::L1Message(t) => t.gas_limit,
        }
    }

    /// The kind of the transaction.
    pub fn tx_type(&self) -> (r: ScrollTxType)
        ensures
            r == self.spec_tx_type(),
    {
        match self {
            ScrollTypedTransaction::Legacy(_) => ScrollTxType::Legacy,
            ScrollTypedTransaction::Eip2930(_) => ScrollTxType::Eip2930,
            ScrollTypedTransaction::Eip1559(_) => ScrollTxType::Eip1559,
            ScrollTypedTransaction::L1Message(_) => ScrollTxType::L1Message,
        }
    }

    /// The type byte of the transaction.
    pub fn ty(&self) -> (r: u8)
        ensures
            r == self.spec_tx_type().spec_byte(),
    {
        self.tx_type().as_byte()
    }

    /// The inner legacy transaction, if it is one.
    pub fn legacy(&self) -> (r: Option<&TxLegacy>)
        ensures
            match self {
                ScrollTypedTransaction::Legacy(t) => r == Some(t),
                _ => r.is_none(),
            },
    {
        match self {
            ScrollTypedTransaction::Legacy(t) => Some(t),
            _ => None,
        }
    }

    /// The inner EIP-2930 transaction, if it is one.
    pub fn eip2930(&self) -> (r: Option<&TxEip2930>)
        ensures
            match self {
                ScrollTypedTransaction::Eip2930(t) => r == Some(t),
                _ => r.is_none(),
            },
    {
        match self {
            ScrollTypedTransaction::Eip2930(t) => Some(t),
            _ => None,
        }
    }

    /// The inner EIP-1559 transaction, if it is one.
    pub fn eip1559(&self) -> (r: Option<&TxEip1559>)
        ensures
            match self {
                ScrollTypedTransaction::Eip1559(t) => r == Some(t),
                _ => r.is_none(),
            },
    {
        match self {
            ScrollTypedTransaction::Eip1559(t) => Some(t),
            _ => None,
        }
    }

    /// The inner L1 message, if it is one.
    pub fn l1_message(&self) -> (r: Option<&TxL1Message>)
        ensures
            match self {
                ScrollTypedTransaction::L1Message(t) => r == Some(t),
                _ => r.is_none(),
            },
    {
        match self {
            ScrollTypedTransaction::L1Message(t) => Some(t),
            _ => None,
        }
    }

    /// The gas limit of the transaction.
    pub fn gas_limit(&self) -> (r: u64)
        ensures
            r == self.spec_gas_limit(),
    {
        match self {
            ScrollTypedTransaction::Legacy(t) => t.gas_limit,
            ScrollTypedTransaction::Eip2930(t) => t.gas_limit,
            ScrollTypedTransaction::Eip1559(t) => t.gas_limit,
            ScrollTypedTransaction::L1Message(t) => t.gas_limit,
        }
    }

    /// The chain the transaction is bound to; L1 messages carry none.
    pub fn chain_id(&self) -> (r: Option<u64>)
        ensures
            r == match self {
                ScrollTypedTransaction::Legacy(t) => t.chain_id,
                ScrollTypedTransaction::Eip2930(t) => Some(t.chain_id),
                ScrollTypedTransaction::Eip1559(t) => Some(t.chain_id),
                ScrollTypedTransaction::L1Message(_) => None,
            },
    {
        match self {
            ScrollTypedTransaction::Legacy(t) => t.chain_id,
            ScrollTypedTransaction::Eip2930(t) => Some(t.chain_id),
            ScrollTypedTransaction::Eip1559(t) => Some(t.chain_id),
            ScrollTypedTransaction::L1Message(_) => None,
        }
    }

    /// The sender's nonce; an L1 message carries none and reports zero.
    pub fn nonce(&self) -> (r: u64)
        ensures
            r == match self {
                ScrollTypedTransaction::Legacy(t) => t.nonce,
                ScrollTypedTransaction::Eip2930(t) => t.nonce,
                ScrollTypedTransaction::Eip1559(t) => t.nonce,
                ScrollTypedTransaction::L1Message(_) => 0,
            },
    {
        match self {
            ScrollTypedTransaction::Legacy(t) => t.nonce,
            ScrollTypedTransaction::Eip2930(t) => t.nonce,
            ScrollTypedTransaction::Eip1559(t) => t.nonce,
            ScrollTypedTransaction::L1Message(_) => 0,
        }
    }

    /// The fixed gas price, for the kinds that have one; an L1 message pays
    /// nothing per gas.
    pub fn gas_price(&self) -> (r: Option<u128>)
        ensures
            r == match self {
                ScrollTypedTransaction::Legacy(t) => Some(t.gas_price),
                ScrollTypedTransaction::Eip2930(t) => Some(t.gas_price),
                ScrollTypedTransaction::Eip1559(_) => None,
                ScrollTypedTransaction::L1Message(_) => Some(0u128),
            },
    {
        match self {
            ScrollTypedTransaction::Legacy(t) => Some(t.gas_price),
            ScrollTypedTransaction::Eip2930(t) => Some(t.gas_price),
            ScrollTypedTransaction::Eip1559(_) => None,
            ScrollTypedTransaction::L1Message(_) => Some(0),
        }
    }

    /// The most the sender pays per gas.
    pub fn max_fee_per_gas(&self) -> (r: u128)
        ensures
            r == match self {
                ScrollTypedTransaction::Legacy(t) => t.gas_price,
                ScrollTypedTransaction::Eip2930(t) => t.gas_price,
                ScrollTypedTransaction::Eip1559(t) => t.max_fee_per_gas,
                ScrollTypedTransaction::L1Message(_) => 0,
            },
    {
        match self {
            ScrollTypedTransaction::Legacy(t) => t.gas_price,
            ScrollTypedTransaction::Eip2930(t) => t.gas_price,
            ScrollTypedTransaction::Eip1559(t) => t.max_fee_per_gas,
            ScrollTypedTransaction::L1Message(_) => 0,
        }
    }

    /// The priority fee cap, for the kinds that have one.
    pub fn max_priority_fee_per_gas(&self) -> (r: Option<u128>)
        ensures
            r == match self {
                ScrollTypedTransaction::Eip1559(t) => Some(t.max_priority_fee_per_gas),
                _ => None,
            },
    {
        match self {
            ScrollTypedTransaction::Eip1559(t) => Some(t.max_priority_fee_per_gas),
            _ => None,
        }
    }

    /// Whether the fee is set by a cap and a priority fee rather than a fixed
    /// price.
    pub fn is_dynamic_fee(&self) -> (r: bool)
        ensures
            r == (self.spec_tx_type() == ScrollTxType::Eip1559),
    {
        match self {
            ScrollTypedTransaction::Eip1559(_) => true,
            _ => false,
        }
    }

    /// The priority fee for dynamic-fee transactions, else the gas price.
    pub fn priority_fee_or_price(&self) -> (r: u128)
        ensures
            r == match self {
                ScrollTypedTransaction::Legacy(t) => t.gas_price,
                ScrollTypedTransaction::Eip2930(t) => t.gas_price,
                ScrollTypedTransaction::Eip1559(t) => t.max_priority_fee_per_gas,
                ScrollTypedTransaction::L1Message(_) => 0,
            },
    {
        match self {
            ScrollTypedTransaction::Legacy(t) => t.gas_price,
            ScrollTypedTransaction::Eip2930(t) => t.gas_price,
            ScrollTypedTransaction::Eip1559(t) => t.max_priority_fee_per_gas,
            ScrollTypedTransaction::L1Message(_) => 0,
        }
    }

    /// What the sender pays per gas under `base_fee`: for a dynamic-fee
    /// transaction, the base fee plus the priority fee, never above the cap.
    pub fn effective_gas_price(&self, base_fee: Option<u64>) -> (r: u128)
        ensures
            r == match self {
                ScrollTypedTransaction::Eip1559(t) => match base_fee {
                    None => t.max_fee_per_gas,
                    Some(b) => if t.max_fee_per_gas <= b || t.max_priority_fee_per_gas
                        >= t.max_fee_per_gas - b {
                        t.max_fee_per_gas
                    } else {
                        (b + t.max_priority_fee_per_gas) as u128
                    },
                },
                ScrollTypedTransaction::Legacy(t) => t.gas_price,
                ScrollTypedTransaction::Eip2930(t) => t.gas_price,
                ScrollTypedTransaction::L1Message(_) => 0,
            },
    {
        match self {
            ScrollTypedTransaction::Eip1559(t) => match base_fee {
                None => t.max_fee_per_gas,
                Some(b) => {
                    let b = b as u128;
                    if t.max_fee_per_gas <= b || t.max_priority_fee_per_gas >= t.max_fee_per_gas
                        - b {
                        t.max_fee_per_gas
                    } else {
                        b + t.max_priority_fee_per_gas
                    }
                },
            },
            ScrollTypedTransaction::Legacy(t) => t.gas_price,
            ScrollTypedTransaction::Eip2930(t) => t.gas_price,
            ScrollTypedTransaction::L1Message(_) => 0,
        }
    }

    /// Where the transaction goes.
    pub fn kind(&self) -> (r: TxKind)
        ensures
            r.deep_view() == match self {
                ScrollTypedTransaction::Legacy(t) => t.to.deep_view(),
                ScrollTypedTransaction::Eip2930(t) => t.to.deep_view(),
                ScrollTypedTransaction::Eip1559(t) => t.to.deep_view(),
                ScrollTypedTransaction::L1Message(t) => Some(t.to@),
            },
    {
        match self {
            ScrollTypedTransaction::Legacy(t) => t.to,
            ScrollTypedTransaction::Eip2930(t) => t.to,
            ScrollTypedTransaction::Eip1559(t) => t.to,
            ScrollTypedTransaction::L1Message(t) => TxKind::Call(t.to),
        }
    }

    /// The callee, unless the transaction creates a contract.
    pub fn to(&self) -> (r: Option<Address>)
        ensures
            r.deep_view() == self.kind_view(),
    {
        match self.kind() {
            TxKind::Create => None,
            TxKind::Call(a) => Some(a),
        }
    }

    /// Where the transaction goes, as the callee's bytes.
    pub open spec fn kind_view(&self) -> Option<Seq<u8>> {
        match self {
            ScrollTypedTransaction::Legacy(t) => t.to.deep_view(),
            ScrollTypedTransaction::Eip2930(t) => t.to.deep_view(),
            ScrollTypedTransaction::Eip1559(t) => t.to.deep_view(),
            ScrollTypedTransaction::L1Message(t) => Some(t.to@),
        }
    }

    /// Whether the transaction creates a contract.
    pub fn is_create(&self) -> (r: bool)
        ensures
            r == self.kind_view().is_none(),
    {
        match self.kind() {
            TxKind::Create => true,
            TxKind::Call(_) => false,
        }
    }

    /// The value transferred.
    pub fn value(&self) -> (r: U256)
        ensures
            r == match self {
                ScrollTypedTransaction::Legacy(t) => t.value,
                ScrollTypedTransaction::Eip2930(t) => t.value,
                ScrollTypedTransaction::Eip1559(t) => t.value,
                ScrollTypedTransaction::L1Message(t) => t.value,
            },
    {
        match self {
            ScrollTypedTransaction::Legacy(t) => t.value,
            ScrollTypedTransaction::Eip2930(t) => t.value,
            ScrollTypedTransaction::Eip1559(t) => t.value,
            ScrollTypedTransaction::L1Message(t) => t.value,
        }
    }

    /// The call data.
    pub fn input(&self) -> (r: &Vec<u8>)
        ensures
            r@ == match self {
                ScrollTypedTransaction::Legacy(t) => t.input@,
                ScrollTypedTransaction::Eip2930(t) => t.input@,
                ScrollTypedTransaction::Eip1559(t) => t.input@,
                ScrollTypedTransaction::L1Message(t) => t.input@,
            },
    {
        match self {
            ScrollTypedTransaction::Legacy(t) => &t.input,
            ScrollTypedTransaction::Eip2930(t) => &t.input,
            ScrollTypedTransaction::Eip1559(t) => &t.input,
            ScrollTypedTransaction::L1Message(t) => &t.input,
        }
    }

    /// The access list, for the kinds that carry one.
    pub fn access_list(&self) -> (r: Option<&Vec<AccessListItem>>)
        ensures
            match self {
                ScrollTypedTransaction::Eip2930(t) => r == Some(&t.access_list),
                ScrollTypedTransaction::Eip1559(t) => r == Some(&t.access_list),
                _ => r.is_none(),
            },
    {
        match self {
            ScrollTypedTransaction::Eip2930(t) => Some(&t.access_list),
            ScrollTypedTransaction::Eip1559(t) => Some(&t.access_list),
            _ => None,
        }
    }

    /// The blob fee cap: none of these kinds carries blobs.
    pub fn max_fee_per_blob_gas(&self) -> (r: Option<u128>)
        ensures
            r.is_none(),
    {
        None
    }
}

} // verus!
