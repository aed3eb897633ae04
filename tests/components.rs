use scroll_exec::bits::{b256_clear_first_byte, b256_clear_last_byte, b256_reverse_bits, u256_clear_msb};
use scroll_exec::block::{Block, BlockBody, Header, SealedBlock, Withdrawal};
use scroll_exec::built::{PayloadId, ScrollBuiltPayload};
use scroll_exec::config::{ScrollBlockExecutionInput, ScrollEvmConfig};
use scroll_exec::executor::ScrollBlockExecutorFactory;
use scroll_exec::hardfork::ScrollChainSpec;
use scroll_exec::node::{ScrollExecutorProvider, ScrollNode};
use scroll_exec::payload::{try_into_block, ExecutionPayloadSidecar};
use scroll_exec::primitives::{Address, B256, U256};
use scroll_exec::rpc::{ScrollEthApi, ScrollEthApiBuilder, ScrollNodeCore};
use scroll_exec::state::{AccountInfo, AccountReader, State};

#[test]
fn reverse_bits_of_each_byte() {
    let mut bytes = [0u8; 32];
    bytes[0] = 0b0000_0001;
    bytes[1] = 0b1100_1010;
    bytes[31] = 0xff;
    let r = b256_reverse_bits(B256 { bytes });
    assert_eq!(r.bytes[0], 0b1000_0000);
    assert_eq!(r.bytes[1], 0b0101_0011);
    assert_eq!(r.bytes[2], 0);
    assert_eq!(r.bytes[31], 0xff);
}

#[test]
fn clear_first_and_last_byte() {
    let w = B256 { bytes: [0xaau8; 32] };
    let first = b256_clear_first_byte(w);
    assert_eq!(first.bytes[0], 0);
    assert_eq!(first.bytes[1], 0xaa);
    assert_eq!(first.bytes[31], 0xaa);
    let last = b256_clear_last_byte(w);
    assert_eq!(last.bytes[31], 0);
    assert_eq!(last.bytes[30], 0xaa);
    assert_eq!(last.bytes[0], 0xaa);
}

#[test]
fn clear_most_significant_byte() {
    let v = U256 { l0: 1, l1: 2, l2: 3, l3: u64::MAX };
    assert_eq!(u256_clear_msb(v), U256 { l0: 1, l1: 2, l2: 3, l3: 0x00ff_ffff_ffff_ffff });
}

fn sealed_block() -> SealedBlock {
    let mut header = Header::default();
    header.number = 12;
    header.gas_limit = 30_000_000;
    header.gas_used = 21_000;
    header.timestamp = 1_700_000_012;
    header.base_fee_per_gas = Some(9);
    header.blob_gas_used = Some(0);
    header.excess_blob_gas = Some(0);
    header.mix_hash = B256 { bytes: [7u8; 32] };
    let withdrawals = vec![Withdrawal {
        index: 1,
        validator_index: 2,
        address: Address { bytes: [3u8; 20] },
        amount: 4,
    }];
    SealedBlock {
        block: Block {
            header,
            body: BlockBody { transactions: vec![vec![0x02, 0xc0]], ommers: vec![], withdrawals: Some(withdrawals) },
        },
        hash: B256 { bytes: [0x99u8; 32] },
    }
}

#[test]
fn built_payload_shapes() {
    let id = PayloadId { bytes: [1u8; 8] };
    let fees = U256::from_u64(1234);
    let built = ScrollBuiltPayload::new(id, sealed_block(), fees);
    assert_eq!(built.id().bytes, [1u8; 8]);
    assert_eq!(built.fees(), fees);
    assert_eq!(built.block().hash, B256 { bytes: [0x99u8; 32] });

    let v1 = built.clone().into_payload_v1();
    assert!(v1.withdrawals.is_none());
    assert!(v1.blob_gas_used.is_none());
    assert_eq!(v1.block_number, 12);
    assert_eq!(v1.base_fee_per_gas, U256::from_u64(9));
    assert_eq!(v1.prev_randao, B256 { bytes: [7u8; 32] });
    assert_eq!(v1.block_hash, B256 { bytes: [0x99u8; 32] });

    let v2 = built.clone().into_envelope_v2();
    assert_eq!(v2.block_value, fees);
    assert_eq!(v2.execution_payload.withdrawals.as_ref().map(|w| w.len()), Some(1));
    assert!(v2.execution_payload.excess_blob_gas.is_none());

    let v3 = built.clone().into_envelope_v3();
    assert_eq!(v3.execution_payload.blob_gas_used, Some(0));
    assert!(!v3.should_override_builder);
    assert!(v3.blobs_bundle.blobs.is_empty());

    let v4 = built.into_envelope_v4();
    assert!(v4.execution_requests.is_empty());
    assert_eq!(v4.envelope_inner.block_value, fees);
}

#[test]
fn payload_of_a_built_block_converts_back() {
    let built = ScrollBuiltPayload::new(PayloadId { bytes: [0u8; 8] }, sealed_block(), U256::zero());
    let payload = built.into_envelope_v3().execution_payload;
    let sidecar = ExecutionPayloadSidecar { cancun: None, requests_hash: None };
    let block = try_into_block(payload, &sidecar).ok().unwrap();
    assert_eq!(block.header.number, 12);
    assert_eq!(block.header.gas_used, 21_000);
    assert_eq!(block.header.base_fee_per_gas, Some(9));
    assert_eq!(block.body.transactions, vec![vec![0x02, 0xc0]]);
    assert_eq!(block.body.withdrawals.as_ref().map(|w| w[0].amount), Some(4));
    assert!(block.header.withdrawals_root.is_some());
}

#[test]
fn pending_block_attributes() {
    let api: ScrollEthApi = ScrollEthApiBuilder::new().build(ScrollEvmConfig::new(ScrollChainSpec::mainnet()));
    let mut parent = Header::default();
    parent.timestamp = 100;
    parent.gas_limit = 77;
    parent.beneficiary = Address { bytes: [5u8; 20] };
    let randao = B256 { bytes: [6u8; 32] };
    let a = api.next_env_attributes(&parent, randao);
    assert_eq!(a.timestamp, 112);
    assert_eq!(a.gas_limit, 77);
    assert_eq!(a.suggested_fee_recipient, parent.beneficiary);
    assert_eq!(a.prev_randao, randao);
    parent.timestamp = u64::MAX - 3;
    assert_eq!(api.next_env_attributes(&parent, randao).timestamp, u64::MAX);
    assert_eq!(api.evm_config().chain_spec().chain_id, 534352);
    let _builder = ScrollEthApi::builder();
}

#[test]
fn node_components_share_the_fork_schedule() {
    let spec = ScrollChainSpec::mainnet();
    let components = ScrollNode::components(spec);
    assert_eq!(components.evm_config.chain_spec().curie_block, spec.curie_block);
    let config = ScrollExecutorProvider::scroll(spec);
    assert_eq!(config.chain_spec().bernoulli_block, spec.bernoulli_block);
}

#[test]
fn factory_creates_fresh_executors() {
    let spec = ScrollChainSpec::mainnet();
    let factory = ScrollBlockExecutorFactory::new(spec);
    let mut header = Header::default();
    header.number = 7_096_836;
    header.gas_limit = 1_000;
    let env = ScrollEvmConfig::new(spec).evm_env(&header).block_env;
    let executor = factory.create_executor(env, State::new(), vec![1, 2, 3]);
    assert_eq!(executor.gas_used(), 0);
    assert!(executor.receipts().is_empty());
    assert_eq!(factory.spec().curie_block, 7_096_836);
}

#[test]
fn execution_input_of_a_block() {
    let b = sealed_block();
    let input = ScrollBlockExecutionInput::from_block(&b);
    assert_eq!(input.number, 12);
    assert_eq!(input.timestamp, 1_700_000_012);
    assert_eq!(input.gas_limit, 30_000_000);
    assert_eq!(input.parent_hash, b.block.header.parent_hash);
    assert_eq!(input.beneficiary, b.block.header.beneficiary);
}

#[test]
fn account_reader_over_the_overlay() {
    let mut state = State::new();
    let a = Address { bytes: [8u8; 20] };
    assert!(state.basic_account(&a).is_none());
    state.set_account(a, AccountInfo { balance: U256::from_u64(3), nonce: 4, code: None });
    state.set_code(a, vec![0xfe]);
    let info = state.basic_account(&a).unwrap();
    assert_eq!(info.balance, U256::from_u64(3));
    assert_eq!(info.nonce, 4);
    assert_eq!(info.code, Some(vec![0xfe]));
    assert!(state.basic_account(&Address::zero()).is_none());
}
