use scroll_exec::block::Header;
use scroll_exec::config::ScrollEvmConfig;
use scroll_exec::executor::{
    evm_flags, l1_gas_price_oracle_address, BlockExecutionError, EvmError, ExecutionOutcome,
    InvalidTransaction, ScrollBlockExecutor, BLOB_SCALAR_SLOT, COMMIT_SCALAR_SLOT,
    CURIE_BLOB_SCALAR, CURIE_COMMIT_SCALAR, CURIE_L1_BLOB_BASE_FEE, IS_CURIE_SLOT,
    L1_BASE_FEE_SLOT, L1_BLOB_BASE_FEE_SLOT, OVERHEAD_SLOT, SCALAR_SLOT,
};
use scroll_exec::hardfork::ScrollChainSpec;
use scroll_exec::primitives::{Address, B256, U256};
use scroll_exec::receipt::ScrollReceipt;
use scroll_exec::state::{AccountChange, AccountInfo, State};
use scroll_exec::transaction::{
    ScrollTxType, ScrollTypedTransaction, TxEip1559, TxEip2930, TxKind, TxL1Message, TxLegacy,
    EIP4844_TX_TYPE, EIP7702_TX_TYPE, L1_MESSAGE_TX_TYPE,
};

const BLOCK_GAS_LIMIT: u64 = 10_000_000;
const SCROLL_CHAIN_ID: u64 = 534352;
const NOT_CURIE_BLOCK_NUMBER: u64 = 7096835;
const CURIE_BLOCK_NUMBER: u64 = 7096837;
const MIN_TRANSACTION_GAS: u64 = 21_000;

fn oracle_code() -> Vec<u8> {
    vec![0x60, 0x80, 0x60, 0x40, 0x52, 0x34, 0x80, 0x15]
}

fn executor(number: u64) -> ScrollBlockExecutor {
    let spec = ScrollChainSpec::mainnet();
    let config = ScrollEvmConfig::new(spec);
    let mut header = Header::default();
    header.number = number;
    header.gas_limit = BLOCK_GAS_LIMIT;
    let env = config.evm_env(&header);
    ScrollBlockExecutor::new(spec, env.block_env, State::new(), oracle_code())
}

fn transaction(typ: ScrollTxType, gas_limit: u64) -> ScrollTypedTransaction {
    let to = TxKind::Call(Address::zero());
    match typ {
        ScrollTxType::Legacy => ScrollTypedTransaction::Legacy(TxLegacy {
            chain_id: Some(SCROLL_CHAIN_ID),
            nonce: 0,
            gas_price: 0,
            gas_limit,
            to,
            value: U256::zero(),
            input: vec![],
        }),
        ScrollTxType::Eip2930 => ScrollTypedTransaction::Eip2930(TxEip2930 {
            chain_id: SCROLL_CHAIN_ID,
            nonce: 0,
            gas_price: 0,
            gas_limit,
            to,
            value: U256::zero(),
            access_list: vec![],
            input: vec![],
        }),
        ScrollTxType::Eip1559 => ScrollTypedTransaction::Eip1559(TxEip1559 {
            chain_id: SCROLL_CHAIN_ID,
            nonce: 0,
            gas_limit,
            max_fee_per_gas: 0,
            max_priority_fee_per_gas: 0,
            to,
            value: U256::zero(),
            access_list: vec![],
            input: vec![],
        }),
        ScrollTxType::L1Message => ScrollTypedTransaction::L1Message(TxL1Message {
            queue_index: 0,
            gas_limit,
            to: Address::zero(),
            value: U256::zero(),
            sender: Address { bytes: [7u8; 20] },
            input: vec![],
        }),
    }
}

/// A signed transaction of 105 bytes: 60 non-zero, 45 zero.
fn encoded_tx() -> Vec<u8> {
    let mut v = vec![0xf8u8; 60];
    v.extend(vec![0u8; 45]);
    v
}

fn tx_hash() -> B256 {
    B256 { bytes: [0xabu8; 32] }
}

fn success(gas_used: u64) -> Result<ExecutionOutcome, EvmError> {
    Ok(ExecutionOutcome { success: true, gas_used, logs: vec![], changes: vec![] })
}

fn oracle_state(curie: bool) -> State {
    let oracle = l1_gas_price_oracle_address();
    let mut state = State::new();
    let storage: Vec<(u64, u64)> = if curie {
        vec![
            (L1_BLOB_BASE_FEE_SLOT, 1000),
            (OVERHEAD_SLOT, 1000),
            (SCALAR_SLOT, 1000),
            (L1_BLOB_BASE_FEE_SLOT, 10000),
            (COMMIT_SCALAR_SLOT, 1000),
            (BLOB_SCALAR_SLOT, 10000),
            (IS_CURIE_SLOT, 1),
        ]
    } else {
        vec![(L1_BASE_FEE_SLOT, 1000), (OVERHEAD_SLOT, 1000), (SCALAR_SLOT, 1000)]
    };
    for (slot, value) in storage {
        state.set_storage(oracle, U256::from_u64(slot), U256::from_u64(value));
    }
    state
}

fn executor_with_oracle(number: u64) -> ScrollBlockExecutor {
    let spec = ScrollChainSpec::mainnet();
    let curie = spec.is_curie_active_at_block(number);
    let config = ScrollEvmConfig::new(spec);
    let mut header = Header::default();
    header.number = number;
    header.gas_limit = BLOCK_GAS_LIMIT;
    ScrollBlockExecutor::new(spec, config.evm_env(&header).block_env, oracle_state(curie), oracle_code())
}

fn execute_transaction(
    tx_type: ScrollTxType,
    block_number: u64,
    expected_l1_fee: U256,
    expected_error: Option<&str>,
) {
    let transaction = transaction(tx_type, MIN_TRANSACTION_GAS);
    let mut strategy = executor_with_oracle(block_number);
    let res = strategy.execute_transaction(
        &transaction,
        &encoded_tx(),
        success(MIN_TRANSACTION_GAS),
    );
    let (_, output) = strategy.finish();
    if let Some(error) = expected_error {
        assert!(res.unwrap_err().message().contains(error));
        assert!(output.receipts.is_empty());
    } else {
        assert_eq!(res.unwrap(), MIN_TRANSACTION_GAS);
        assert_eq!(output.receipts.len(), 1);
        let receipt = &output.receipts[0];
        assert_eq!(receipt.tx_type(), tx_type);
        assert!(receipt.status());
        assert_eq!(receipt.cumulative_gas_used(), MIN_TRANSACTION_GAS);
        assert!(receipt.inner().logs.is_empty());
        assert_eq!(receipt.l1_fee(), expected_l1_fee);
        assert_eq!(matches!(receipt, ScrollReceipt::L1Message(_)), tx_type == ScrollTxType::L1Message);
    }
}

#[test]
fn test_apply_pre_execution_changes_curie_block() {
    let mut strategy = executor(7096836);
    assert!(strategy.apply_pre_execution_changes().is_ok());
    let oracle = l1_gas_price_oracle_address();
    let state = strategy.state();
    let info = state.account(&oracle).unwrap();
    assert_eq!(info.code, Some(oracle_code()));
    let expected = [
        (L1_BLOB_BASE_FEE_SLOT, CURIE_L1_BLOB_BASE_FEE),
        (COMMIT_SCALAR_SLOT, CURIE_COMMIT_SCALAR),
        (BLOB_SCALAR_SLOT, CURIE_BLOB_SCALAR),
        (IS_CURIE_SLOT, 1),
    ];
    for (slot, value) in expected {
        assert_eq!(state.storage(&oracle, U256::from_u64(slot)), U256::from_u64(value));
    }
    assert_eq!(state.storage(&oracle, U256::from_u64(L1_BASE_FEE_SLOT)), U256::zero());
    assert!(state.account(&Address::zero()).is_none());
}

#[test]
fn test_apply_pre_execution_changes_not_curie_block() {
    let mut strategy = executor(7096837);
    assert!(strategy.apply_pre_execution_changes().is_ok());
    let oracle = l1_gas_price_oracle_address();
    assert!(strategy.state().account(&oracle).is_none());
}

#[test]
fn pre_execution_changes_block_before_curie_leave_state_alone() {
    let mut strategy = executor(7096835);
    assert!(strategy.apply_pre_execution_changes().is_ok());
    let oracle = l1_gas_price_oracle_address();
    assert!(strategy.state().account(&oracle).is_none());
    assert_eq!(strategy.state().storage(&oracle, U256::from_u64(IS_CURIE_SLOT)), U256::zero());
}

#[test]
fn test_execute_transactions_exceeds_block_gas_limit() {
    let transaction = transaction(ScrollTxType::Legacy, BLOCK_GAS_LIMIT + 1);
    let mut strategy = executor(7096837);
    let res = strategy.execute_transaction(
        &transaction,
        &encoded_tx(),
        success(MIN_TRANSACTION_GAS),
    );
    assert_eq!(
        res.unwrap_err().message(),
        "transaction gas limit 10000001 is more than blocks available gas 10000000"
    );
    assert_eq!(strategy.gas_used(), 0);
    assert!(strategy.receipts().is_empty());
}

#[test]
fn test_execute_transactions_l1_message() {
    execute_transaction(ScrollTxType::L1Message, CURIE_BLOCK_NUMBER, U256::zero(), None);
}

#[test]
fn test_execute_transactions_legacy_curie_fork() {
    execute_transaction(ScrollTxType::Legacy, CURIE_BLOCK_NUMBER, U256::from_u64(10), None);
}

#[test]
fn test_execute_transactions_legacy_not_curie_fork() {
    execute_transaction(ScrollTxType::Legacy, NOT_CURIE_BLOCK_NUMBER, U256::from_u64(2), None);
}

#[test]
fn test_execute_transactions_eip2930_curie_fork() {
    execute_transaction(ScrollTxType::Eip2930, CURIE_BLOCK_NUMBER, U256::from_u64(10), None);
}

#[test]
fn test_execute_transactions_eip2930_not_curie_fork() {
    execute_transaction(
        ScrollTxType::Eip2930,
        NOT_CURIE_BLOCK_NUMBER,
        U256::zero(),
        Some("Eip2930 is not supported"),
    );
}

#[test]
fn test_execute_transactions_eip1559_curie_fork() {
    execute_transaction(ScrollTxType::Eip1559, CURIE_BLOCK_NUMBER, U256::from_u64(10), None);
}

#[test]
fn test_execute_transactions_eip_not_curie_fork() {
    execute_transaction(
        ScrollTxType::Eip1559,
        NOT_CURIE_BLOCK_NUMBER,
        U256::zero(),
        Some("Eip1559 is not supported"),
    );
}

#[test]
fn l1_message_before_curie_pays_no_fee() {
    execute_transaction(ScrollTxType::L1Message, NOT_CURIE_BLOCK_NUMBER, U256::zero(), None);
}

#[test]
fn l1_messages_skip_base_fee_and_nonce_checks() {
    let flags = evm_flags(L1_MESSAGE_TX_TYPE);
    assert!(!flags.base_fee_check);
    assert!(!flags.nonce_check);
    let flags = evm_flags(ScrollTxType::Legacy.as_byte());
    assert!(flags.base_fee_check);
    assert!(flags.nonce_check);
}

#[test]
fn blob_and_set_code_types_are_never_admitted() {
    let strategy = executor(CURIE_BLOCK_NUMBER);
    match strategy.validate_transaction(EIP4844_TX_TYPE, 21000, tx_hash()) {
        Err(BlockExecutionError::InvalidTx { error, .. }) => {
            assert_eq!(error, InvalidTransaction::Eip4844NotSupported)
        }
        _ => panic!("blob transaction admitted"),
    }
    match strategy.validate_transaction(EIP7702_TX_TYPE, 21000, tx_hash()) {
        Err(BlockExecutionError::InvalidTx { error, .. }) => {
            assert_eq!(error, InvalidTransaction::Eip7702NotSupported)
        }
        _ => panic!("set-code transaction admitted"),
    }
}

#[test]
fn evm_failure_aborts_with_the_hash() {
    let transaction = transaction(ScrollTxType::Legacy, MIN_TRANSACTION_GAS);
    let mut strategy = executor_with_oracle(CURIE_BLOCK_NUMBER);
    let res = strategy.execute_transaction(
        &transaction,
        &encoded_tx(),
        Err(EvmError { reason: "state read failed".to_string() }),
    );
    match res {
        Err(BlockExecutionError::Evm { hash, error }) => {
            assert_eq!(hash.bytes, alloy_primitives::keccak256(encoded_tx()).0);
            assert_ne!(hash.bytes, [0u8; 32]);
            assert_eq!(error.reason, "state read failed");
        }
        _ => panic!("expected an EVM error"),
    }
    assert!(strategy.receipts().is_empty());
}

#[test]
fn reverted_transaction_is_included_with_failed_status() {
    let transaction = transaction(ScrollTxType::Legacy, 50_000);
    let mut strategy = executor_with_oracle(CURIE_BLOCK_NUMBER);
    let outcome = Ok(ExecutionOutcome { success: false, gas_used: 30_000, logs: vec![], changes: vec![] });
    assert_eq!(strategy.execute_transaction(&transaction, &encoded_tx(), outcome).unwrap(), 30_000);
    assert!(!strategy.receipts()[0].status());
}

#[test]
fn receipts_gas_increments_add_up_to_gas_used() {
    let mut strategy = executor_with_oracle(CURIE_BLOCK_NUMBER);
    let used = [21_000u64, 35_000, 0, 50_000];
    for g in used {
        let tx = transaction(ScrollTxType::Eip1559, 60_000);
        strategy.execute_transaction(&tx, &encoded_tx(), success(g)).unwrap();
    }
    let (_, result) = strategy.finish();
    let mut previous = 0u64;
    let mut sum = 0u64;
    for r in &result.receipts {
        sum += r.cumulative_gas_used() - previous;
        previous = r.cumulative_gas_used();
    }
    assert_eq!(sum, result.gas_used);
    assert_eq!(result.gas_used, 106_000);
}

#[test]
fn second_transaction_sees_what_the_first_left() {
    let mut strategy = executor_with_oracle(CURIE_BLOCK_NUMBER);
    let first = transaction(ScrollTxType::Legacy, 9_990_000);
    strategy.execute_transaction(&first, &encoded_tx(), success(9_990_000)).unwrap();
    let second = transaction(ScrollTxType::Legacy, 10_001);
    match strategy.execute_transaction(&second, &encoded_tx(), success(10_001)) {
        Err(BlockExecutionError::TransactionGasLimitMoreThanAvailableBlockGas {
            transaction_gas_limit,
            block_available_gas,
        }) => {
            assert_eq!(transaction_gas_limit, 10_001);
            assert_eq!(block_available_gas, 10_000);
        }
        _ => panic!("expected the gas limit error"),
    }
    assert_eq!(strategy.receipts().len(), 1);
}

#[test]
fn committed_changes_are_visible_and_latest_wins() {
    let mut strategy = executor_with_oracle(CURIE_BLOCK_NUMBER);
    let who = Address { bytes: [9u8; 20] };
    let change = |balance: u64, slot_value: u64| AccountChange {
        address: who,
        info: AccountInfo { balance: U256::from_u64(balance), nonce: 1, code: None },
        storage: vec![(U256::from_u64(4), U256::from_u64(slot_value))],
    };
    let outcome = Ok(ExecutionOutcome {
        success: true,
        gas_used: 21_000,
        logs: vec![],
        changes: vec![change(5, 6), change(7, 8)],
    });
    let tx = transaction(ScrollTxType::Legacy, 21_000);
    strategy.execute_transaction(&tx, &encoded_tx(), outcome).unwrap();
    let info = strategy.state().account(&who).unwrap();
    assert_eq!(info.balance, U256::from_u64(7));
    assert_eq!(strategy.state().storage(&who, U256::from_u64(4)), U256::from_u64(8));
}

#[test]
fn refused_transaction_is_tagged_with_its_hash() {
    let transaction = transaction(ScrollTxType::Eip2930, MIN_TRANSACTION_GAS);
    let mut strategy = executor_with_oracle(NOT_CURIE_BLOCK_NUMBER);
    match strategy.execute_transaction(&transaction, &encoded_tx(), success(MIN_TRANSACTION_GAS)) {
        Err(BlockExecutionError::InvalidTx { hash, error }) => {
            assert_eq!(hash.bytes, alloy_primitives::keccak256(encoded_tx()).0);
            assert_eq!(error, InvalidTransaction::Eip2930NotSupported);
        }
        _ => panic!("expected a refusal"),
    }
    assert_eq!(strategy.gas_used(), 0);
}
