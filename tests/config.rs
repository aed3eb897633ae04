use scroll_exec::block::Header;
use scroll_exec::config::{NextBlockEnvAttributes, ScrollEvmConfig};
use scroll_exec::hardfork::{ScrollChainSpec, ScrollSpecId, SCROLL_MAINNET_CHAIN_ID};
use scroll_exec::primitives::{Address, B256, U256};

fn config() -> ScrollEvmConfig {
    ScrollEvmConfig::new(ScrollChainSpec::mainnet())
}

fn header(number: u64) -> Header {
    let mut h = Header::default();
    h.number = number;
    h
}

#[test]
fn test_spec_at_head() {
    let config = config();
    let curie_head = header(7096836);
    let bernouilli_head = header(5220340);
    let pre_bernouilli_head = header(0);
    assert_eq!(
        config.spec_id_at_timestamp_and_number(curie_head.timestamp, curie_head.number),
        ScrollSpecId::CURIE
    );
    assert_eq!(
        config.spec_id_at_timestamp_and_number(bernouilli_head.timestamp, bernouilli_head.number),
        ScrollSpecId::BERNOULLI
    );
    assert_eq!(
        config.spec_id_at_timestamp_and_number(
            pre_bernouilli_head.timestamp,
            pre_bernouilli_head.number
        ),
        ScrollSpecId::SHANGHAI
    );
}

#[test]
fn test_fill_cfg_env() {
    let config = config();
    let env = config.evm_env(&header(7096836));
    assert_eq!(env.cfg_env.chain_id, SCROLL_MAINNET_CHAIN_ID);
    assert_eq!(env.cfg_env.spec, ScrollSpecId::CURIE);
    let env = config.evm_env(&header(5220340));
    assert_eq!(env.cfg_env.chain_id, SCROLL_MAINNET_CHAIN_ID);
    assert_eq!(env.cfg_env.spec, ScrollSpecId::BERNOULLI);
    let env = config.evm_env(&header(0));
    assert_eq!(env.cfg_env.chain_id, SCROLL_MAINNET_CHAIN_ID);
    assert_eq!(env.cfg_env.spec, ScrollSpecId::SHANGHAI);
}

#[test]
fn test_fill_block_env() {
    let config = config();
    let mut h = header(7096836);
    h.beneficiary = Address { bytes: [0x11u8; 20] };
    h.timestamp = 1719994277;
    h.mix_hash = B256 { bytes: [0x22u8; 32] };
    h.base_fee_per_gas = Some(155157341);
    h.gas_limit = 10000000;
    let env = config.evm_env(&h);
    let b = env.block_env;
    assert_eq!(b.number, h.number);
    assert_eq!(b.beneficiary, config.chain_spec().fee_vault_address.unwrap());
    assert_eq!(b.timestamp, h.timestamp);
    assert_eq!(b.prevrandao, Some(h.mix_hash));
    assert_eq!(b.difficulty, U256::zero());
    assert_eq!(b.basefee, 155157341);
    assert_eq!(b.gas_limit, h.gas_limit);
}

#[test]
fn test_next_cfg_and_block_env() {
    let config = config();
    let mut h = header(7096835);
    h.beneficiary = Address { bytes: [0x11u8; 20] };
    h.timestamp = 1719994274;
    h.mix_hash = B256 { bytes: [0x22u8; 32] };
    h.base_fee_per_gas = None;
    h.gas_limit = 10000000;
    let attributes = NextBlockEnvAttributes {
        timestamp: 1719994277,
        suggested_fee_recipient: Address { bytes: [0x33u8; 20] },
        prev_randao: B256 { bytes: [0x44u8; 32] },
        gas_limit: 10000000,
    };
    let env = config.next_evm_env(&h, &attributes);
    assert_eq!(env.cfg_env.chain_id, SCROLL_MAINNET_CHAIN_ID);
    assert_eq!(env.cfg_env.spec, ScrollSpecId::CURIE);
    let b = env.block_env;
    assert_eq!(b.number, h.number + 1);
    assert_eq!(b.beneficiary, config.chain_spec().fee_vault_address.unwrap());
    assert_eq!(b.timestamp, attributes.timestamp);
    assert_eq!(b.prevrandao, Some(attributes.prev_randao));
    assert_eq!(b.difficulty, U256::zero());
    assert_eq!(b.basefee, 0);
    assert_eq!(b.gas_limit, h.gas_limit);
}

#[test]
fn beneficiary_without_fee_vault_is_the_header_one() {
    let mut spec = ScrollChainSpec::mainnet();
    spec.fee_vault_address = None;
    let config = ScrollEvmConfig::new(spec);
    let mut h = header(1);
    h.beneficiary = Address { bytes: [0x11u8; 20] };
    assert_eq!(config.evm_env(&h).block_env.beneficiary, h.beneficiary);
}

#[test]
fn darwin_is_keyed_by_timestamp() {
    let spec = ScrollChainSpec::mainnet();
    assert_eq!(spec.spec_id_at_timestamp_and_number(1724227199, 8_000_000), ScrollSpecId::CURIE);
    assert_eq!(spec.spec_id_at_timestamp_and_number(1724227200, 8_000_000), ScrollSpecId::DARWIN);
    assert!(spec.curie_transitions_at_block(7096836));
    assert!(!spec.curie_transitions_at_block(7096837));
    assert!(!spec.is_curie_active_at_block(7096835));
}

#[test]
fn fee_vault_is_the_mainnet_one() {
    let vault = ScrollChainSpec::mainnet().fee_vault_address.unwrap();
    let mut expected = [0u8; 20];
    expected[0] = 0x53;
    expected[19] = 0x05;
    assert_eq!(vault.bytes, expected);
}
