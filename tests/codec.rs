use scroll_exec::primitives::{Address, B256, U256};
use scroll_exec::transaction::{
    AccessListItem, ScrollTxType, ScrollTypedTransaction, TxEip1559, TxEip2930, TxKind,
    TxL1Message, TxLegacy,
};

fn u256(l0: u64, l3: u64) -> U256 {
    U256 { l0, l1: 0x1111, l2: 0, l3 }
}

fn access_list() -> Vec<AccessListItem> {
    vec![
        AccessListItem {
            address: Address { bytes: [1u8; 20] },
            storage_keys: vec![B256 { bytes: [2u8; 32] }, B256 { bytes: [3u8; 32] }],
        },
        AccessListItem { address: Address { bytes: [4u8; 20] }, storage_keys: vec![] },
    ]
}

fn samples() -> Vec<ScrollTypedTransaction> {
    vec![
        ScrollTypedTransaction::Legacy(TxLegacy {
            chain_id: Some(534352),
            nonce: 7,
            gas_price: 0x0102_0304_0506_0708_090a_0b0c_0d0e_0f10,
            gas_limit: 21000,
            to: TxKind::Call(Address { bytes: [9u8; 20] }),
            value: u256(5, 0xffff_0000_0000_0001),
            input: vec![0, 1, 2, 0xff],
        }),
        ScrollTypedTransaction::Legacy(TxLegacy {
            chain_id: None,
            nonce: 0,
            gas_price: 0,
            gas_limit: 0,
            to: TxKind::Create,
            value: U256::zero(),
            input: vec![],
        }),
        ScrollTypedTransaction::Eip2930(TxEip2930 {
            chain_id: 534352,
            nonce: u64::MAX,
            gas_price: 3,
            gas_limit: 100_000,
            to: TxKind::Create,
            value: u256(1, 2),
            access_list: access_list(),
            input: vec![0x60; 70],
        }),
        ScrollTypedTransaction::Eip1559(TxEip1559 {
            chain_id: 1,
            nonce: 2,
            gas_limit: 3,
            max_fee_per_gas: u128::MAX,
            max_priority_fee_per_gas: 5,
            to: TxKind::Call(Address { bytes: [6u8; 20] }),
            value: U256::zero(),
            access_list: access_list(),
            input: vec![7],
        }),
        ScrollTypedTransaction::L1Message(TxL1Message {
            queue_index: 42,
            gas_limit: 1_000_000,
            to: Address { bytes: [0x53u8; 20] },
            value: u256(0, 0),
            sender: Address { bytes: [0xaau8; 20] },
            input: vec![1, 2, 3],
        }),
    ]
}

fn same(a: &ScrollTypedTransaction, b: &ScrollTypedTransaction) -> bool {
    format!("{:?}", a) == format!("{:?}", b)
}

#[test]
fn compact_round_trip_every_variant() {
    for tx in samples() {
        let mut out = Vec::new();
        let identifier = tx.to_compact(&mut out);
        assert_eq!(identifier, tx.ty() as usize);
        assert_eq!(out[0], tx.ty());
        let (back, used) = ScrollTypedTransaction::from_compact(&out).unwrap();
        assert_eq!(used, out.len());
        assert!(same(&tx, &back));
    }
}

#[test]
fn compact_decoding_leaves_what_follows() {
    let txs = samples();
    let mut out = Vec::new();
    txs[0].to_compact(&mut out);
    let first_len = out.len();
    txs[2].to_compact(&mut out);
    let (a, used) = ScrollTypedTransaction::from_compact(&out).unwrap();
    assert_eq!(used, first_len);
    assert!(same(&a, &txs[0]));
    let (b, used2) = ScrollTypedTransaction::from_compact(&out[first_len..]).unwrap();
    assert_eq!(used2, out.len() - first_len);
    assert!(same(&b, &txs[2]));
}

#[test]
fn compact_unknown_type_fails() {
    let mut out = Vec::new();
    samples()[0].to_compact(&mut out);
    out[0] = 0x05;
    assert!(ScrollTypedTransaction::from_compact(&out).is_none());
    assert!(ScrollTypedTransaction::from_compact(&[]).is_none());
}

#[test]
fn compact_truncated_fails() {
    for tx in samples() {
        let mut out = Vec::new();
        tx.to_compact(&mut out);
        out.pop();
        assert!(ScrollTypedTransaction::from_compact(&out).is_none());
    }
}

#[test]
fn compact_legacy_layout() {
    let tx = ScrollTypedTransaction::Legacy(TxLegacy {
        chain_id: None,
        nonce: 1,
        gas_price: 2,
        gas_limit: 3,
        to: TxKind::Create,
        value: U256::from_u64(4),
        input: vec![0xee],
    });
    let mut out = Vec::new();
    assert_eq!(tx.to_compact(&mut out), 0);
    let mut expected = vec![0x00, 0x00];
    expected.extend([0, 0, 0, 0, 0, 0, 0, 1]);
    expected.extend([0u8; 15]);
    expected.push(2);
    expected.extend([0, 0, 0, 0, 0, 0, 0, 3]);
    expected.push(0);
    expected.extend([0u8; 31]);
    expected.push(4);
    expected.extend([0, 0, 0, 0, 0, 0, 0, 1, 0xee]);
    assert_eq!(out, expected);
}

#[test]
fn json_tags_are_two_lowercase_hex_digits() {
    assert_eq!(&ScrollTxType::Legacy.json_type_tag(), b"0x00");
    assert_eq!(&ScrollTxType::Eip2930.json_type_tag(), b"0x01");
    assert_eq!(&ScrollTxType::Eip1559.json_type_tag(), b"0x02");
    assert_eq!(&ScrollTxType::L1Message.json_type_tag(), b"0x7e");
}

#[test]
fn json_tags_round_trip_and_accept_aliases() {
    for t in [ScrollTxType::Legacy, ScrollTxType::Eip2930, ScrollTxType::Eip1559, ScrollTxType::L1Message] {
        assert_eq!(ScrollTxType::from_json_type_tag(&t.json_type_tag()), Some(t));
    }
    assert_eq!(ScrollTxType::from_json_type_tag(b"0x0"), Some(ScrollTxType::Legacy));
    assert_eq!(ScrollTxType::from_json_type_tag(b"0x1"), Some(ScrollTxType::Eip2930));
    assert_eq!(ScrollTxType::from_json_type_tag(b"0x2"), Some(ScrollTxType::Eip1559));
    assert_eq!(ScrollTxType::from_json_type_tag(b"0x7E"), Some(ScrollTxType::L1Message));
    assert_eq!(ScrollTxType::from_json_type_tag(b"0x03"), None);
    assert_eq!(ScrollTxType::from_json_type_tag(b"0x7f"), None);
    assert_eq!(ScrollTxType::from_json_type_tag(b""), None);
}

#[test]
fn transaction_accessors() {
    let txs = samples();
    assert_eq!(txs[0].tx_type(), ScrollTxType::Legacy);
    assert_eq!(txs[0].chain_id(), Some(534352));
    assert_eq!(txs[4].chain_id(), None);
    assert_eq!(txs[4].nonce(), 0);
    assert_eq!(txs[4].ty(), 0x7e);
    assert!(txs[1].is_create());
    assert!(!txs[0].is_create());
    assert!(txs[3].is_dynamic_fee());
    assert_eq!(txs[3].effective_gas_price(Some(10)), 15);
    assert_eq!(txs[3].effective_gas_price(None), u128::MAX);
    assert!(txs[4].l1_message().is_some());
    assert!(txs[4].legacy().is_none());
    assert_eq!(txs[2].access_list().unwrap().len(), 2);
    assert_eq!(txs[4].to(), Some(Address { bytes: [0x53u8; 20] }));
}

#[test]
fn compact_identifier_is_the_type_byte() {
    let txs = samples();
    let ids: Vec<usize> = txs.iter().map(|t| t.to_compact(&mut Vec::new())).collect();
    assert_eq!(ids, vec![0, 0, 1, 2, 0x7e]);
}
