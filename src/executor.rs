//! The block executor: runs a block's transactions in order against a state
//! overlay, applying the fork-boundary migration first and the admission
//! rules to each transaction.
//!
//! The EVM transition itself happens outside: for each transaction the
//! caller asks [`evm_flags`] how to configure the EVM, runs it against the
//! current overlay, and hands the outcome to
//! [`ScrollBlockExecutor::execute_transaction`], which decides what becomes of
//! it. The outcome carries the state diff, so nothing lands in the overlay
//! unless the executor accepts the transaction.
use vstd::prelude::*;
use vstd::string::StringExecFns;

use crate::config::BlockEnv;
use crate::hardfork::{ScrollChainSpec, ScrollSpecId};
use crate::l1fee::{l1_fee_of, L1BlockInfo};
use crate::primitives::{keccak256, keccak_of, Address, B256, U256};
use crate::receipt::{build_receipt, Log, ScrollReceipt};
use crate::state::{changed_info, changed_slot, AccountChange, State};
use crate::transaction::{
    ScrollTxType, ScrollTypedTransaction, EIP1559_TX_TYPE, EIP2930_TX_TYPE, EIP4844_TX_TYPE,
    EIP7702_TX_TYPE, L1_MESSAGE_TX_TYPE,
};

verus! {

/// Address of the L1 gas price oracle contract.
pub open spec fn oracle_address() -> Seq<u8> {
    seq![0x53u8, 0, 0, 0, 0, 0, 0, 0, 0, 0, 0, 0, 0, 0, 0, 0, 0, 0, 0, 0x02u8]
}

/// Address of the L1 gas price oracle contract.
pub fn l1_gas_price_oracle_address() -> (r: Address)
    ensures
        r@ == oracle_address(),
{
    let mut b = [0u8; 20];
    b[0] = 0x53u8;
    b[19] = 0x02u8;
    let r = Address { bytes: b };
    assert(r@ =~= oracle_address());
    r
}

/// Oracle slot of the L1 base fee.
pub const L1_BASE_FEE_SLOT: u64 = 1;

/// Oracle slot of the fee overhead.
pub const OVERHEAD_SLOT: u64 = 2;

/// Oracle slot of the fee scalar.
pub const SCALAR_SLOT: u64 = 3;

/// Oracle slot of the L1 blob base fee.
pub const L1_BLOB_BASE_FEE_SLOT: u64 = 5;

/// Oracle slot of the commit scalar.
pub const COMMIT_SCALAR_SLOT: u64 = 6;

/// Oracle slot of the blob scalar.
pub const BLOB_SCALAR_SLOT: u64 = 7;

/// Oracle slot of the flag that marks the Curie upgrade as done.
pub const IS_CURIE_SLOT: u64 = 8;

/// Blob base fee the Curie upgrade writes.
pub const CURIE_L1_BLOB_BASE_FEE: u64 = 1;

/// Commit scalar the Curie upgrade writes.
pub const CURIE_COMMIT_SCALAR: u64 = 230759955285;

/// Blob scalar the Curie upgrade writes.
pub const CURIE_BLOB_SCALAR: u64 = 417565260;

/// The slot numbers and values the Curie upgrade writes to the oracle.
pub open spec fn curie_storage() -> Seq<(u64, u64)> {
    seq![
        (L1_BLOB_BASE_FEE_SLOT, CURIE_L1_BLOB_BASE_FEE),
        (COMMIT_SCALAR_SLOT, CURIE_COMMIT_SCALAR),
        (BLOB_SCALAR_SLOT, CURIE_BLOB_SCALAR),
        (IS_CURIE_SLOT, 1u64),
    ]
}

/// A slot number as a 256-bit key.
pub open spec fn key(n: u64) -> U256 {
    U256 { l0: n, l1: 0, l2: 0, l3: 0 }
}

/// The oracle parameters as the overlay holds them.
pub open spec fn oracle_info(state: State) -> L1BlockInfo {
    L1BlockInfo {
        l1_base_fee: state.slot(oracle_address(), key(L1_BASE_FEE_SLOT)),
        l1_fee_overhead: state.slot(oracle_address(), key(OVERHEAD_SLOT)),
        l1_base_fee_scalar: state.slot(oracle_address(), key(SCALAR_SLOT)),
        l1_blob_base_fee: state.slot(oracle_address(), key(L1_BLOB_BASE_FEE_SLOT)),
        l1_commit_scalar: state.slot(oracle_address(), key(COMMIT_SCALAR_SLOT)),
        l1_blob_scalar: state.slot(oracle_address(), key(BLOB_SCALAR_SLOT)),
    }
}

/// Reads the oracle parameters from the overlay.
pub fn load_l1_block_info(state: &State) -> (r: L1BlockInfo)
    ensures
        r == oracle_info(*state),
{
    let oracle = l1_gas_price_oracle_address();
    L1BlockInfo {
        l1_base_fee: state.storage(&oracle, U256::from_u64(L1_BASE_FEE_SLOT)),
        l1_fee_overhead: state.storage(&oracle, U256::from_u64(OVERHEAD_SLOT)),
        l1_base_fee_scalar: state.storage(&oracle, U256::from_u64(SCALAR_SLOT)),
        l1_blob_base_fee: state.storage(&oracle, U256::from_u64(L1_BLOB_BASE_FEE_SLOT)),
        l1_commit_scalar: state.storage(&oracle, U256::from_u64(COMMIT_SCALAR_SLOT)),
        l1_blob_scalar: state.storage(&oracle, U256::from_u64(BLOB_SCALAR_SLOT)),
    }
}

/// Why a transaction is refused before it runs.
#[derive(Clone, Copy, Debug, PartialEq, Eq, Structural)]
pub enum InvalidTransaction {
    Eip2930NotSupported,
    Eip1559NotSupported,
    Eip4844NotSupported,
    Eip7702NotSupported,
}

impl InvalidTransaction {
    /// What the refusal says.
    pub open spec fn message_text(&self) -> Seq<char> {
        match self {
            InvalidTransaction::Eip2930NotSupported => "Eip2930 is not supported"@,
            InvalidTransaction::Eip1559NotSupported => "Eip1559 is not supported"@,
            InvalidTransaction::Eip4844NotSupported => "Eip4844 is not supported"@,
            InvalidTransaction::Eip7702NotSupported => "Eip7702 is not supported"@,
        }
    }

    /// What the refusal says.
    pub fn message(&self) -> (r: &'static str)
        ensures
            r@ == self.message_text(),
    {
        match self {
            InvalidTransaction::Eip2930NotSupported => "Eip2930 is not supported",
            InvalidTransaction::Eip1559NotSupported => "Eip1559 is not supported",
            InvalidTransaction::Eip4844NotSupported => "Eip4844 is not supported",
            InvalidTransaction::Eip7702NotSupported => "Eip7702 is not supported",
        }
    }
}

/// The decimal digit character of `d`.
pub open spec fn digit_char(d: nat) -> char {
    if d == 0 {
        '0'
    } else if d == 1 {
        '1'
    } else if d == 2 {
        '2'
    } else if d == 3 {
        '3'
    } else if d == 4 {
        '4'
    } else if d == 5 {
        '5'
    } else if d == 6 {
        '6'
    } else if d == 7 {
        '7'
    } else if d == 8 {
        '8'
    } else {
        '9'
    }
}

/// The decimal text of `n`, without leading zeros.
pub open spec fn decimal(n: nat) -> Seq<char>
    decreases n,
{
    if n < 10 {
        seq![digit_char(n)]
    } else {
        decimal(n / 10).push(digit_char(n % 10))
    }
}

fn digit_str(d: u64) -> (r: &'static str)
    requires
        d < 10,
    ensures
        r@ == seq![digit_char(d as nat)],
{
    proof {
        reveal_strlit("0");
        reveal_strlit("1");
        reveal_strlit("2");
        reveal_strlit("3");
        reveal_strlit("4");
        reveal_strlit("5");
        reveal_strlit("6");
        reveal_strlit("7");
        reveal_strlit("8");
        reveal_strlit("9");
    }
    if d == 0 {
        "0"
    } else if d == 1 {
        "1"
    } else if d == 2 {
        "2"
    } else if d == 3 {
        "3"
    } else if d == 4 {
        "4"
    } else if d == 5 {
        "5"
    } else if d == 6 {
        "6"
    } else if d == 7 {
        "7"
    } else if d == 8 {
        "8"
    } else {
        "9"
    }
}

/// Appends the decimal text of `n`.
fn append_decimal(s: &mut String, n: u64)
    ensures
        final(s)@ == old(s)@ + decimal(n as nat),
    decreases n,
{
    if n >= 10 {
        append_decimal(s, n / 10);
    }
    s.append(digit_str(n % 10));
    proof {
        if n >= 10 {
            assert(old(s)@ + decimal((n / 10) as nat) + seq![digit_char((n % 10) as nat)] =~= old(s)@
                + decimal(n as nat));
        } else {
            assert(old(s)@ + seq![digit_char(n as nat)] =~= old(s)@ + decimal(n as nat));
        }
    }
}

/// The text of a gas-limit refusal.
pub open spec fn gas_limit_text(transaction_gas_limit: u64, block_available_gas: u64) -> Seq<char> {
    "transaction gas limit "@ + decimal(transaction_gas_limit as nat)
        + " is more than blocks available gas "@ + decimal(block_available_gas as nat)
}

/// A failure of the EVM itself (not a revert), as the EVM reported it.
#[derive(Clone, Debug)]
pub struct EvmError {
    pub reason: String,
}

/// Why a block's execution stops.
#[derive(Clone, Debug)]
pub enum BlockExecutionError {
    /// The transaction asks for more gas than the block has left.
    TransactionGasLimitMoreThanAvailableBlockGas {
        transaction_gas_limit: u64,
        block_available_gas: u64,
    },
    /// The transaction's kind is not accepted at this block.
    InvalidTx { hash: B256, error: InvalidTransaction },
    /// The EVM failed on the transaction.
    Evm { hash: B256, error: EvmError },
}

impl BlockExecutionError {
    /// What the error says: the two gas figures in decimal for a gas-limit
    /// refusal, the refusal's own text for an unsupported kind, the EVM's
    /// reason for an EVM failure.
    pub fn message(&self) -> (r: String)
        ensures
            r@ == match self {
                BlockExecutionError::TransactionGasLimitMoreThanAvailableBlockGas {
                    transaction_gas_limit,
                    block_available_gas,
                } => gas_limit_text(*transaction_gas_limit, *block_available_gas),
                BlockExecutionError::InvalidTx { error, .. } => error.message_text(),
                BlockExecutionError::Evm { error, .. } => error.reason@,
            },
    {
        match self {
            BlockExecutionError::TransactionGasLimitMoreThanAvailableBlockGas {
                transaction_gas_limit,
                block_available_gas,
            } => {
                let mut s = String::from_str("transaction gas limit ");
                append_decimal(&mut s, *transaction_gas_limit);
                s.append(" is more than blocks available gas ");
                append_decimal(&mut s, *block_available_gas);
                s
            },
            BlockExecutionError::InvalidTx { error, .. } => String::from_str(error.message()),
            BlockExecutionError::Evm { error, .. } => error.reason.clone(),
        }
    }
}

/// How the EVM is to treat one transaction.
#[derive(Clone, Copy, Debug, PartialEq, Eq, Structural)]
pub struct TxEnvFlags {
    pub base_fee_check: bool,
    pub nonce_check: bool,
}

/// The EVM settings for a transaction of type byte `ty`: L1 messages skip the
/// base-fee and nonce checks, every other kind has both.
pub fn evm_flags(ty: u8) -> (r: TxEnvFlags)
    ensures
        r.base_fee_check == (ty != L1_MESSAGE_TX_TYPE),
        r.nonce_check == (ty != L1_MESSAGE_TX_TYPE),
{
    let is_l1_message = ty == L1_MESSAGE_TX_TYPE;
    TxEnvFlags { base_fee_check: !is_l1_message, nonce_check: !is_l1_message }
}

/// What the EVM reports for a transaction that ran: whether it succeeded, the
/// gas it used, its logs and the state it changed.
#[derive(Clone, Debug)]
pub struct ExecutionOutcome {
    pub success: bool,
    pub gas_used: u64,
    pub logs: Vec<Log>,
    pub changes: Vec<AccountChange>,
}

/// What a finished block hands over.
#[derive(Clone, Debug)]
pub struct BlockExecutionResult {
    pub receipts: Vec<ScrollReceipt>,
    pub gas_used: u64,
}

/// The gas each receipt adds to the one before it, summed.
pub open spec fn gas_deltas_sum(rs: Seq<ScrollReceipt>) -> int
    decreases rs.len(),
{
    if rs.len() == 0 {
        0
    } else {
        let prev: int = if rs.len() == 1 {
            0
        } else {
            rs[rs.len() - 2].spec_inner().cumulative_gas_used as int
        };
        gas_deltas_sum(rs.drop_last()) + (rs.last().spec_inner().cumulative_gas_used - prev)
    }
}

/// The receipts' gas increments add up to the last receipt's cumulative gas
/// (zero for no receipts); with the executor's invariant, that is the gas
/// the block reports as used.
pub proof fn lemma_gas_deltas_telescope(rs: Seq<ScrollReceipt>)
    ensures
        gas_deltas_sum(rs) == if rs.len() == 0 {
            0
        } else {
            rs.last().spec_inner().cumulative_gas_used as int
        },
    decreases rs.len(),
{
    if rs.len() > 1 {
        lemma_gas_deltas_telescope(rs.drop_last());
        assert(rs.drop_last().last() == rs[rs.len() - 2]);
    } else if rs.len() == 1 {
        assert(gas_deltas_sum(rs.drop_last()) == 0);
    }
}

/// The admission rule for a transaction of type byte `ty` at a block under
/// `spec`: blob and set-code transactions never, typed fee transactions only
/// from Curie on.
pub open spec fn type_rejection(spec: ScrollChainSpec, number: u64, ty: u8) -> Option<
    InvalidTransaction,
> {
    if ty == EIP2930_TX_TYPE && number < spec.curie_block {
        Some(InvalidTransaction::Eip2930NotSupported)
    } else if ty == EIP1559_TX_TYPE && number < spec.curie_block {
        Some(InvalidTransaction::Eip1559NotSupported)
    } else if ty == EIP4844_TX_TYPE {
        Some(InvalidTransaction::Eip4844NotSupported)
    } else if ty == EIP7702_TX_TYPE {
        Some(InvalidTransaction::Eip7702NotSupported)
    } else {
        None
    }
}

/// Executes the transactions of one block, in order.
pub struct ScrollBlockExecutor {
    spec: ScrollChainSpec,
    block: BlockEnv,
    spec_id: ScrollSpecId,
    state: State,
    /// Code the oracle contract gets at the Curie transition.
    curie_oracle_code: Vec<u8>,
    receipts: Vec<ScrollReceipt>,
    gas_used: u64,
}

impl ScrollBlockExecutor {
    pub closed spec fn spec_chain(&self) -> ScrollChainSpec {
        self.spec
    }

    pub closed spec fn spec_block(&self) -> BlockEnv {
        self.block
    }

    pub closed spec fn spec_spec_id(&self) -> ScrollSpecId {
        self.spec_id
    }

    pub closed spec fn spec_state(&self) -> State {
        self.state
    }

    pub closed spec fn spec_curie_code(&self) -> Seq<u8> {
        self.curie_oracle_code@
    }

    pub closed spec fn spec_receipts(&self) -> Seq<ScrollReceipt> {
        self.receipts@
    }

    pub closed spec fn spec_gas_used(&self) -> u64 {
        self.gas_used
    }

    /// The executor's invariant: the gas used stays within the block's limit
    /// and is what the receipts add up to.
    pub open spec fn wf(&self) -> bool {
        &&& self.spec_gas_used() <= self.spec_block().gas_limit
        &&& gas_deltas_sum(self.spec_receipts()) == self.spec_gas_used() as int
        &&& self.spec_receipts().len() > 0 ==> self.spec_receipts().last().spec_inner().cumulative_gas_used
            == self.spec_gas_used()
    }

    /// An executor for the block `block`, under the rules of `spec` at that
    /// block, with no transaction run yet.
    pub fn new(
        spec: ScrollChainSpec,
        block: BlockEnv,
        state: State,
        curie_oracle_code: Vec<u8>,
    ) -> (r: ScrollBlockExecutor)
        ensures
            r.wf(),
            r.spec_chain() == spec,
            r.spec_block() == block,
            r.spec_spec_id() == spec.spec_at(block.timestamp, block.number),
            r.spec_state() == state,
            r.spec_curie_code() == curie_oracle_code@,
            r.spec_receipts().len() == 0,
            r.spec_gas_used() == 0,
    {
        let spec_id = spec.spec_id_at_timestamp_and_number(block.timestamp, block.number);
        ScrollBlockExecutor {
            spec,
            block,
            spec_id,
            state,
            curie_oracle_code,
            receipts: Vec::new(),
            gas_used: 0,
        }
    }

    /// The chain's fork schedule.
    pub fn spec(&self) -> (r: &ScrollChainSpec)
        ensures
            *r == self.spec_chain(),
    {
        &self.spec
    }

    /// The state overlay as it stands.
    pub fn state(&self) -> (r: &State)
        ensures
            *r == self.spec_state(),
    {
        &self.state
    }

    /// The receipts so far.
    pub fn receipts(&self) -> (r: &Vec<ScrollReceipt>)
        ensures
            r@ == self.spec_receipts(),
    {
        &self.receipts
    }

    /// The gas used so far.
    pub fn gas_used(&self) -> (r: u64)
        ensures
            r == self.spec_gas_used(),
    {
        self.gas_used
    }

    /// Runs before the first transaction: turns state clearing on from
    /// Spurious Dragon, and at the Curie transition block (that block only)
    /// gives the oracle its new code and writes the Curie parameters to its
    /// storage. Nothing else in the overlay changes.
    pub fn apply_pre_execution_changes(&mut self) -> (r: Result<(), BlockExecutionError>)
        requires
            old(self).wf(),
        ensures
            r.is_ok(),
            final(self).wf(),
            final(self).spec_state().clears_state() == (old(self).spec_block().number
                >= old(self).spec_chain().spurious_dragon_block),
            final(self).spec_receipts() == old(self).spec_receipts(),
            final(self).spec_gas_used() == old(self).spec_gas_used(),
            final(self).spec_chain() == old(self).spec_chain(),
            final(self).spec_block() == old(self).spec_block(),
            final(self).spec_spec_id() == old(self).spec_spec_id(),
            final(self).spec_curie_code() == old(self).spec_curie_code(),
            old(self).spec_block().number != old(self).spec_chain().curie_block ==> {
                &&& forall|b: Seq<u8>|
                    final(self).spec_state().info(b) == old(self).spec_state().info(b)
                &&& forall|b: Seq<u8>, s: U256|
                    final(self).spec_state().slot(b, s) == old(self).spec_state().slot(b, s)
            },
            old(self).spec_block().number == old(self).spec_chain().curie_block ==> {
                let before = old(self).spec_state();
                let after = final(self).spec_state();
                &&& after.info(oracle_address()).is_some()
                &&& after.info(oracle_address()).unwrap().code == Some(
                    old(self).spec_curie_code(),
                )
                &&& before.info(oracle_address()).is_some() ==> after.info(
                    oracle_address(),
                ).unwrap().balance == before.info(oracle_address()).unwrap().balance
                &&& forall|i: int|
                    0 <= i < curie_storage().len() ==> after.slot(
                        oracle_address(),
                        key(#[trigger] curie_storage()[i].0),
                    ).value() == curie_storage()[i].1
                &&& forall|b: Seq<u8>| b != oracle_address() ==> after.info(b) == before.info(b)
                &&& forall|b: Seq<u8>, s: U256|
                    b != oracle_address() ==> after.slot(b, s) == before.slot(b, s)
                &&& forall|s: U256|
                    s != key(L1_BLOB_BASE_FEE_SLOT) && s != key(COMMIT_SCALAR_SLOT) && s != key(
                        BLOB_SCALAR_SLOT,
                    ) && s != key(IS_CURIE_SLOT) ==> after.slot(oracle_address(), s)
                        == before.slot(oracle_address(), s)
            },
    {
        let clear = self.spec.is_spurious_dragon_active_at_block(self.block.number);
        self.state.set_state_clear_flag(clear);
        if self.spec.curie_transitions_at_block(self.block.number) {
            apply_curie_hard_fork(&mut self.state, &self.curie_oracle_code);
        }
        Ok(())
    }

    /// Admission of a transaction with type byte `ty`, gas limit `gas_limit`
    /// and hash `hash`: the gas must fit what the block has left, and the
    /// kind must be accepted at this block.
    pub fn validate_transaction(&self, ty: u8, gas_limit: u64, hash: B256) -> (r: Result<
        (),
        BlockExecutionError,
    >)
        requires
            self.wf(),
        ensures
            ({
                let available = (self.spec_block().gas_limit - self.spec_gas_used()) as u64;
                if gas_limit > available {
                    r matches Err(
                        BlockExecutionError::TransactionGasLimitMoreThanAvailableBlockGas {
                            transaction_gas_limit,
                            block_available_gas,
                        },
                    ) && transaction_gas_limit == gas_limit && block_available_gas == available
                } else {
                    match type_rejection(self.spec_chain(), self.spec_block().number, ty) {
                        Some(e) => r matches Err(BlockExecutionError::InvalidTx { hash: h, error })
                            && h@ == hash@ && error == e,
                        None => r.is_ok(),
                    }
                }
            }),
    {
        let block_available_gas = self.block.gas_limit - self.gas_used;
        if gas_limit > block_available_gas {
            return Err(
                BlockExecutionError::TransactionGasLimitMoreThanAvailableBlockGas {
                    transaction_gas_limit: gas_limit,
                    block_available_gas,
                },
            );
        }
        let curie = self.spec.is_curie_active_at_block(self.block.number);
        if ty == EIP2930_TX_TYPE && !curie {
            return Err(
                BlockExecutionError::InvalidTx {
                    hash,
                    error: InvalidTransaction::Eip2930NotSupported,
                },
            );
        }
        if ty == EIP1559_TX_TYPE && !curie {
            return Err(
                BlockExecutionError::InvalidTx {
                    hash,
                    error: InvalidTransaction::Eip1559NotSupported,
                },
            );
        }
        if ty == EIP4844_TX_TYPE {
            return Err(
                BlockExecutionError::InvalidTx {
                    hash,
                    error: InvalidTransaction::Eip4844NotSupported,
                },
            );
        }
        if ty == EIP7702_TX_TYPE {
            return Err(
                BlockExecutionError::InvalidTx {
                    hash,
                    error: InvalidTransaction::Eip7702NotSupported,
                },
            );
        }
        Ok(())
    }

    /// Executes one transaction. `encoded` is its canonical signed encoding
    /// (its hash is the digest of these bytes, and the L1 data fee is charged
    /// on them), and `outcome` what the EVM reported for it, run with
    /// [`evm_flags`] against the current overlay.
    ///
    /// A refused transaction, or an EVM failure, aborts with an error and
    /// leaves the executor as it was. Otherwise the gas used grows by what the
    /// transaction used, a receipt is added (with the L1 data fee from the
    /// oracle as it stood before the transaction's changes; zero for L1
    /// messages), and then the transaction's changes are committed.
    pub fn execute_transaction(
        &mut self,
        tx: &ScrollTypedTransaction,
        encoded: &[u8],
        outcome: Result<ExecutionOutcome, EvmError>,
    ) -> (r: Result<u64, BlockExecutionError>)
        requires
            old(self).wf(),
            encoded@.len() <= u64::MAX / 16,
            outcome matches Ok(o) ==> o.gas_used <= tx.spec_gas_limit(),
        ensures
            final(self).wf(),
            final(self).spec_chain() == old(self).spec_chain(),
            final(self).spec_block() == old(self).spec_block(),
            final(self).spec_spec_id() == old(self).spec_spec_id(),
            final(self).spec_curie_code() == old(self).spec_curie_code(),
            ({
                let available = (old(self).spec_block().gas_limit
                    - old(self).spec_gas_used()) as u64;
                let ty = tx.spec_tx_type().spec_byte();
                if tx.spec_gas_limit() > available {
                    &&& r matches Err(
                        BlockExecutionError::TransactionGasLimitMoreThanAvailableBlockGas {
                            transaction_gas_limit,
                            block_available_gas,
                        },
                    )
                    &&& transaction_gas_limit == tx.spec_gas_limit()
                    &&& block_available_gas == available
                    &&& *final(self) == *old(self)
                } else if type_rejection(old(self).spec_chain(), old(self).spec_block().number, ty)
                    is Some {
                    &&& r matches Err(BlockExecutionError::InvalidTx { hash: h, error })
                    &&& h@ == keccak_of(encoded@)
                    &&& error == type_rejection(
                        old(self).spec_chain(),
                        old(self).spec_block().number,
                        ty,
                    ).unwrap()
                    &&& *final(self) == *old(self)
                } else {
                    match outcome {
                        Err(e) => {
                            &&& r matches Err(BlockExecutionError::Evm { hash: h, error })
                            &&& h@ == keccak_of(encoded@)
                            &&& error == e
                            &&& *final(self) == *old(self)
                        },
                        Ok(o) => {
                            let before = old(self).spec_state();
                            let after = final(self).spec_state();
                            let receipt = final(self).spec_receipts().last();
                            &&& r == Ok::<u64, BlockExecutionError>(o.gas_used)
                            &&& final(self).spec_gas_used() == old(self).spec_gas_used()
                                + o.gas_used
                            &&& final(self).spec_receipts().drop_last()
                                == old(self).spec_receipts()
                            &&& final(self).spec_receipts().len() == old(self).spec_receipts().len() + 1
                            &&& receipt.spec_tx_type() == tx.spec_tx_type()
                            &&& receipt.spec_inner().status == o.success
                            &&& receipt.spec_inner().cumulative_gas_used
                                == final(self).spec_gas_used()
                            &&& receipt.spec_inner().logs == o.logs
                            &&& receipt.spec_l1_fee() == if tx.spec_tx_type()
                                == ScrollTxType::L1Message {
                                0
                            } else {
                                l1_fee_of(
                                    oracle_info(before),
                                    encoded@,
                                    old(self).spec_spec_id(),
                                )
                            }
                            &&& after.clears_state() == before.clears_state()
                            &&& forall|b: Seq<u8>|
                                after.info(b) == changed_info(o.changes@, b, before.info(b))
                            &&& forall|b: Seq<u8>, s: U256|
                                after.slot(b, s) == changed_slot(
                                    o.changes@,
                                    b,
                                    s,
                                    before.slot(b, s),
                                )
                        },
                    }
                }
            }),
    {
        let tx_type = tx.tx_type();
        let gas_limit = tx.gas_limit();
        let hash = keccak256(encoded);
        match self.validate_transaction(tx_type.as_byte(), gas_limit, hash) {
            Ok(()) => {},
            Err(e) => {
                return Err(e);
            },
        }
        let o = match outcome {
            Ok(o) => o,
            Err(error) => {
                return Err(BlockExecutionError::Evm { hash, error });
            },
        };
        let l1_fee = if tx_type == ScrollTxType::L1Message {
            U256::zero()
        } else {
            load_l1_block_info(&self.state).calculate_tx_l1_cost(encoded, self.spec_id)
        };
        let gas_used = o.gas_used;
        let ghost old_receipts = self.receipts@;
        self.gas_used = self.gas_used + gas_used;
        let receipt = build_receipt(tx_type, o.success, self.gas_used, o.logs, l1_fee);
        self.receipts.push(receipt);
        proof {
            assert(self.receipts@.drop_last() =~= old_receipts);
            if old_receipts.len() > 0 {
                assert(self.receipts@[self.receipts@.len() - 2] == old_receipts.last());
            }
        }
        self.state.commit(o.changes);
        Ok(gas_used)
    }

    /// Ends the block: hands over the receipts and the gas used (which the
    /// receipts' gas increments add up to), and the state overlay.
    pub fn finish(self) -> (r: (State, BlockExecutionResult))
        requires
            self.wf(),
        ensures
            r.0 == self.spec_state(),
            r.1.receipts@ == self.spec_receipts(),
            r.1.gas_used == self.spec_gas_used(),
            gas_deltas_sum(r.1.receipts@) == r.1.gas_used as int,
    {
        (self.state, BlockExecutionResult { receipts: self.receipts, gas_used: self.gas_used })
    }
}

/// EIP-2930 and EIP-1559 transactions are refused as unsupported exactly at
/// the blocks before Curie, and pass the type rule from Curie on.
pub proof fn lemma_typed_fee_gating(spec: ScrollChainSpec, number: u64, ty: u8)
    requires
        ty == EIP2930_TX_TYPE || ty == EIP1559_TX_TYPE,
    ensures
        type_rejection(spec, number, ty).is_some() <==> number < spec.curie_block,
        number < spec.curie_block ==> type_rejection(spec, number, ty) == Some(
            if ty == EIP2930_TX_TYPE {
                InvalidTransaction::Eip2930NotSupported
            } else {
                InvalidTransaction::Eip1559NotSupported
            },
        ),
{
}

/// L1 messages pass the type rule at every block, before and after every
/// fork, and the EVM runs them without base-fee and nonce checks.
pub proof fn lemma_l1_message_admission(spec: ScrollChainSpec, number: u64)
    ensures
        type_rejection(spec, number, L1_MESSAGE_TX_TYPE).is_none(),
{
}

/// Makes block executors for one chain.
#[derive(Clone, Copy, Debug)]
pub struct ScrollBlockExecutorFactory {
    spec: ScrollChainSpec,
}

impl ScrollBlockExecutorFactory {
    pub closed spec fn spec_chain(&self) -> ScrollChainSpec {
        self.spec
    }

    pub fn new(spec: ScrollChainSpec) -> (r: ScrollBlockExecutorFactory)
        ensures
            r.spec_chain() == spec,
    {
        ScrollBlockExecutorFactory { spec }
    }

    /// The chain's fork schedule.
    pub fn spec(&self) -> (r: &ScrollChainSpec)
        ensures
            *r == self.spec_chain(),
    {
        &self.spec
    }

    /// A fresh executor for the block `block` over the overlay `state`.
    pub fn create_executor(&self, block: BlockEnv, state: State, curie_oracle_code: Vec<u8>) -> (r:
        ScrollBlockExecutor)
        ensures
            r.wf(),
            r.spec_chain() == self.spec_chain(),
            r.spec_block() == block,
            r.spec_state() == state,
            r.spec_curie_code() == curie_oracle_code@,
            r.spec_receipts().len() == 0,
            r.spec_gas_used() == 0,
    {
        ScrollBlockExecutor::new(self.spec, block, state, curie_oracle_code)
    }
}

/// Gives the oracle its Curie code and writes the Curie parameters.
fn apply_curie_hard_fork(state: &mut State, code: &Vec<u8>)
    ensures
        final(state).info(oracle_address()).is_some(),
        final(state).info(oracle_address()).unwrap().code == Some(code@),
        old(state).info(oracle_address()).is_some() ==> final(state).info(
            oracle_address(),
        ).unwrap().balance == old(state).info(oracle_address()).unwrap().balance,
        forall|i: int|
            0 <= i < curie_storage().len() ==> final(state).slot(
                oracle_address(),
                key(#[trigger] curie_storage()[i].0),
            ).value() == curie_storage()[i].1,
        forall|b: Seq<u8>| b != oracle_address() ==> final(state).info(b) == old(state).info(b),
        forall|b: Seq<u8>, s: U256|
            b != oracle_address() ==> final(state).slot(b, s) == old(state).slot(b, s),
        forall|s: U256|
            s != key(L1_BLOB_BASE_FEE_SLOT) && s != key(COMMIT_SCALAR_SLOT) && s != key(
                BLOB_SCALAR_SLOT,
            ) && s != key(IS_CURIE_SLOT) ==> final(state).slot(oracle_address(), s) == old(state).slot(oracle_address(), s),
        final(state).clears_state() == old(state).clears_state(),
{
    let oracle = l1_gas_price_oracle_address();
    state.set_code(oracle, crate::state::copy_bytes(code));
    state.set_storage(oracle, U256::from_u64(L1_BLOB_BASE_FEE_SLOT), U256::from_u64(
        CURIE_L1_BLOB_BASE_FEE,
    ));
    state.set_storage(oracle, U256::from_u64(COMMIT_SCALAR_SLOT), U256::from_u64(
        CURIE_COMMIT_SCALAR,
    ));
    state.set_storage(oracle, U256::from_u64(BLOB_SCALAR_SLOT), U256::from_u64(CURIE_BLOB_SCALAR));
    state.set_storage(oracle, U256::from_u64(IS_CURIE_SLOT), U256::from_u64(1));
}

} // verus!
