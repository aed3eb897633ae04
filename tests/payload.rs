use scroll_exec::assembler::ScrollBlockAssembler;
use scroll_exec::block::{Header, Withdrawal};
use scroll_exec::config::ScrollEvmConfig;
use scroll_exec::engine::ScrollEngineValidator;
use scroll_exec::eth_engine::ScrollEngineValidatorBuilder as EthValidatorBuilder;
use scroll_exec::executor::BlockExecutionResult;
use scroll_exec::hardfork::ScrollChainSpec;
use scroll_exec::payload::{try_into_block, ExecutionPayload, ExecutionPayloadSidecar, PayloadError};
use scroll_exec::primitives::{Address, B256, U256};
use scroll_exec::receipt::{build_receipt, Log};
use scroll_exec::transaction::ScrollTxType;

fn hex(s: &str) -> Vec<u8> {
    (0..s.len()).step_by(2).map(|i| u8::from_str_radix(&s[i..i + 2], 16).unwrap()).collect()
}

fn b256(s: &str) -> B256 {
    let v = hex(s);
    let mut bytes = [0u8; 32];
    bytes.copy_from_slice(&v);
    B256 { bytes }
}

fn payload() -> ExecutionPayload {
    ExecutionPayload {
        parent_hash: B256 { bytes: [1u8; 32] },
        fee_recipient: Address { bytes: [2u8; 20] },
        state_root: B256 { bytes: [3u8; 32] },
        receipts_root: B256 { bytes: [4u8; 32] },
        logs_bloom: vec![0u8; 256],
        prev_randao: B256 { bytes: [5u8; 32] },
        block_number: 100,
        gas_limit: 10_000_000,
        gas_used: 42_000,
        timestamp: 1_700_000_000,
        extra_data: vec![],
        base_fee_per_gas: U256::from_u64(7),
        block_hash: B256::zero(),
        transactions: vec![vec![0x02, 0xc1, 0x05], vec![0xc2, 0x01, 0x02]],
        withdrawals: None,
        blob_gas_used: None,
        excess_blob_gas: None,
    }
}

fn no_sidecar() -> ExecutionPayloadSidecar {
    ExecutionPayloadSidecar { cancun: None, requests_hash: None }
}

fn hash_with(p: &ExecutionPayload, difficulty: u64) -> B256 {
    let mut b = try_into_block(p.clone(), &no_sidecar()).ok().unwrap();
    b.header.difficulty = U256::from_u64(difficulty);
    b.header.hash_slow()
}

#[test]
fn genesis_header_hash() {
    let mut h = Header::default();
    h.ommers_hash = b256("1dcc4de8dec75d7aab85b567b6ccd41ad312451b948a7413f0a142fd40d49347");
    h.state_root = b256("d7f8974fb5ac78d9ac099b9ad5018bedc2ce0a72dad1827a1709da30580f0544");
    h.transactions_root = b256("56e81f171bcc55a6ff8345e692c0f86e5b48e01b996cadc001622fb5e363b421");
    h.receipts_root = b256("56e81f171bcc55a6ff8345e692c0f86e5b48e01b996cadc001622fb5e363b421");
    h.difficulty = U256::from_u64(0x4_0000_0000);
    h.gas_limit = 5000;
    h.extra_data = hex("11bbe8db4e347b4e8c937c1c8370e4b5ed33adb3db69cbdb7a38e1e50b1b82fa");
    h.nonce = 0x42;
    assert_eq!(
        h.hash_slow(),
        b256("d4e56740f876aef8c010b86a40d5f56745a118d0906a34e69aec8c0db1cb8fa3")
    );
}

#[test]
fn in_turn_difficulty_is_tried_first() {
    let mut p = payload();
    p.block_hash = hash_with(&p, 2);
    let validator = ScrollEngineValidator::new(ScrollChainSpec::mainnet());
    let sealed = validator.ensure_well_formed_payload(p.clone(), no_sidecar()).ok().unwrap();
    assert_eq!(sealed.hash, p.block_hash);
    assert_eq!(sealed.block.header.difficulty, U256::from_u64(2));
    assert_eq!(sealed.block.body.transactions, p.transactions);
    assert!(sealed.block.body.ommers.is_empty());
}

#[test]
fn no_turn_difficulty_is_tried_second() {
    let mut p = payload();
    p.block_hash = hash_with(&p, 1);
    assert_ne!(p.block_hash, hash_with(&p, 2));
    let validator = ScrollEngineValidator::new(ScrollChainSpec::mainnet());
    let sealed = validator.ensure_well_formed_payload(p.clone(), no_sidecar()).ok().unwrap();
    assert_eq!(sealed.hash, p.block_hash);
    assert_eq!(sealed.block.header.difficulty, U256::from_u64(1));
}

#[test]
fn hash_matching_neither_difficulty_is_refused_with_both_hashes() {
    let mut p = payload();
    p.block_hash = B256 { bytes: [0x55u8; 32] };
    let validator = ScrollEngineValidator::new(ScrollChainSpec::mainnet());
    match validator.ensure_well_formed_payload(p.clone(), no_sidecar()) {
        Err(PayloadError::BlockHash { execution, consensus }) => {
            assert_eq!(execution, hash_with(&p, 1));
            assert_eq!(consensus, p.block_hash);
        }
        _ => panic!("expected a hash mismatch"),
    }
}

#[test]
fn payload_validation_conversion() {
    let mut valid = payload();
    valid.extra_data = vec![0u8; 32];
    assert!(try_into_block(valid, &no_sidecar()).is_ok());

    let mut invalid = payload();
    let block_with_invalid_extra_data = vec![0u8; 33];
    invalid.extra_data = block_with_invalid_extra_data.clone();
    match try_into_block(invalid, &no_sidecar()) {
        Err(PayloadError::ExtraData(data)) => assert_eq!(data, block_with_invalid_extra_data),
        _ => panic!("expected an extra data error"),
    }

    let mut payload_with_invalid_txs = payload();
    payload_with_invalid_txs.transactions.iter_mut().for_each(|tx| {
        *tx = vec![];
    });
    assert!(matches!(
        try_into_block(payload_with_invalid_txs, &no_sidecar()),
        Err(PayloadError::Decode(0))
    ));
}

#[test]
fn transaction_envelope_shapes() {
    let mut long = vec![0xf8u8, 56];
    long.extend(vec![0x01u8; 56]);
    let mut p = payload();
    p.transactions = vec![long.clone(), vec![0x7e, 0xc0]];
    assert!(try_into_block(p, &no_sidecar()).is_ok());
    let mut short = long.clone();
    short.pop();
    for (bad, at) in [(short, 1usize), (vec![0x80], 1), (vec![0x02, 0xc1], 1), (vec![0xc0, 0x00], 1)] {
        let mut p = payload();
        p.transactions = vec![long.clone(), bad];
        assert!(matches!(try_into_block(p, &no_sidecar()), Err(PayloadError::Decode(i)) if i == at));
    }
}

#[test]
fn base_fee_over_64_bits_is_refused() {
    let mut p = payload();
    p.base_fee_per_gas = U256 { l0: 0, l1: 1, l2: 0, l3: 0 };
    match try_into_block(p, &no_sidecar()) {
        Err(PayloadError::BaseFee(f)) => assert_eq!(f, U256 { l0: 0, l1: 1, l2: 0, l3: 0 }),
        _ => panic!("expected a base fee error"),
    }
}

#[test]
fn converted_block_has_empty_roots_where_nothing_is() {
    let mut p = payload();
    p.transactions = vec![];
    p.withdrawals = Some(vec![]);
    let b = try_into_block(p, &no_sidecar()).ok().unwrap();
    let empty_root = b256("56e81f171bcc55a6ff8345e692c0f86e5b48e01b996cadc001622fb5e363b421");
    assert_eq!(b.header.transactions_root, empty_root);
    assert_eq!(b.header.withdrawals_root, Some(empty_root));
    assert_eq!(
        b.header.ommers_hash,
        b256("1dcc4de8dec75d7aab85b567b6ccd41ad312451b948a7413f0a142fd40d49347")
    );
    assert_eq!(b.header.base_fee_per_gas, Some(7));
}

fn eth_validator(spec: ScrollChainSpec) -> scroll_exec::eth_engine::ScrollEngineValidator {
    EthValidatorBuilder.build(spec)
}

fn sealed_as_is(mut p: ExecutionPayload) -> ExecutionPayload {
    p.block_hash = hash_with(&p, 0);
    p
}

#[test]
fn base_validator_accepts_a_well_formed_payload() {
    let p = sealed_as_is(payload());
    let sealed = eth_validator(ScrollChainSpec::mainnet())
        .ensure_well_formed_payload(p.clone(), no_sidecar())
        .ok()
        .unwrap();
    assert_eq!(sealed.hash, p.block_hash);
}

#[test]
fn base_validator_refuses_wrong_hash() {
    let mut p = payload();
    p.block_hash = B256 { bytes: [9u8; 32] };
    match eth_validator(ScrollChainSpec::mainnet()).ensure_well_formed_payload(p.clone(), no_sidecar()) {
        Err(PayloadError::BlockHash { execution, consensus }) => {
            assert_eq!(execution, hash_with(&p, 0));
            assert_eq!(consensus, p.block_hash);
        }
        _ => panic!("expected a hash mismatch"),
    }
}

#[test]
fn base_validator_fork_rules() {
    let mainnet = ScrollChainSpec::mainnet();
    let mut p = payload();
    p.transactions.push(vec![0x03, 0xc0]);
    assert!(matches!(
        eth_validator(mainnet).ensure_well_formed_payload(sealed_as_is(p), no_sidecar()),
        Err(PayloadError::PreCancunBlockWithBlobTransactions)
    ));
    let mut p = payload();
    p.blob_gas_used = Some(0);
    assert!(matches!(
        eth_validator(mainnet).ensure_well_formed_payload(sealed_as_is(p), no_sidecar()),
        Err(PayloadError::PreCancunBlockWithBlobGasUsed)
    ));
    let mut p = payload();
    p.transactions.push(vec![0x04, 0xc0]);
    assert!(matches!(
        eth_validator(mainnet).ensure_well_formed_payload(sealed_as_is(p), no_sidecar()),
        Err(PayloadError::PrePragueBlockWithEip7702Transactions)
    ));
    let mut no_shanghai = mainnet;
    no_shanghai.shanghai_time = None;
    let mut p = payload();
    p.withdrawals = Some(vec![Withdrawal {
        index: 0,
        validator_index: 1,
        address: Address { bytes: [3u8; 20] },
        amount: 4,
    }]);
    assert!(matches!(
        eth_validator(no_shanghai).ensure_well_formed_payload(sealed_as_is(p), no_sidecar()),
        Err(PayloadError::PreShanghaiBlockWithWithdrawals)
    ));
    let mut cancun = mainnet;
    cancun.cancun_time = Some(0);
    assert!(matches!(
        eth_validator(cancun).ensure_well_formed_payload(sealed_as_is(payload()), no_sidecar()),
        Err(PayloadError::PostCancunBlockWithoutBlobGasUsed)
    ));
}

#[test]
fn assembled_block_derives_roots_and_bloom() {
    let spec = ScrollChainSpec::mainnet();
    let mut parent = Header::default();
    parent.number = 7;
    parent.gas_limit = 10_000_000;
    let env = ScrollEvmConfig::new(spec).evm_env(&parent).block_env;
    let assembler = ScrollBlockAssembler::new(spec);
    let empty = BlockExecutionResult { receipts: vec![], gas_used: 0 };
    let block = assembler.assemble_block(B256::zero(), &env, vec![], &empty, B256::zero(), vec![]);
    let empty_root = b256("56e81f171bcc55a6ff8345e692c0f86e5b48e01b996cadc001622fb5e363b421");
    assert_eq!(block.header.transactions_root, empty_root);
    assert_eq!(block.header.receipts_root, empty_root);
    assert_eq!(block.header.logs_bloom, vec![0u8; 256]);
    assert!(block.header.withdrawals_root.is_none());
    assert!(block.body.ommers.is_empty());

    let log = Log { address: Address { bytes: [1u8; 20] }, topics: vec![B256 { bytes: [2u8; 32] }], data: vec![] };
    let receipt = build_receipt(ScrollTxType::Legacy, true, 21_000, vec![log], U256::from_u64(3));
    let result = BlockExecutionResult { receipts: vec![receipt], gas_used: 21_000 };
    let block = assembler.assemble_block(B256::zero(), &env, vec![vec![0xf8, 0x00]], &result, B256::zero(), vec![]);
    assert_eq!(block.header.gas_used, 21_000);
    assert_ne!(block.header.receipts_root, empty_root);
    assert_ne!(block.header.transactions_root, empty_root);
    let set_bits: u32 = block.header.logs_bloom.iter().map(|b| b.count_ones()).sum();
    assert!(set_bits >= 1 && set_bits <= 6);
    let expected = alloy_primitives::logs_bloom(&[alloy_primitives::Log::new_unchecked(
        [1u8; 20].into(),
        vec![[2u8; 32].into()],
        Vec::<u8>::new().into(),
    )]);
    assert_eq!(block.header.logs_bloom, expected.0.0.to_vec());
}
