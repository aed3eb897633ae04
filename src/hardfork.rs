//! Hard-fork policy: which rule set applies at a block number and timestamp.
use vstd::prelude::*;

use crate::primitives::Address;

verus! {

/// The rule set in force, from oldest to newest.
#[allow(non_camel_case_types)]
#[derive(Clone, Copy, Debug, PartialEq, Eq, Structural)]
pub enum ScrollSpecId {
    SHANGHAI,
    BERNOULLI,
    CURIE,
    DARWIN,
}

impl ScrollSpecId {
    /// Position of the rule set in the order of activation.
    pub open spec fn rank(self) -> nat {
        match self {
            ScrollSpecId::SHANGHAI => 0,
            ScrollSpecId::BERNOULLI => 1,
            ScrollSpecId::CURIE => 2,
            ScrollSpecId::DARWIN => 3,
        }
    }

    /// Whether `self` is `other` or a later rule set.
    pub fn is_enabled_in(self, other: ScrollSpecId) -> (r: bool)
        ensures
            r == (self.rank() >= other.rank()),
    {
        self.ordinal() >= other.ordinal()
    }

    fn ordinal(self) -> (r: u8)
        ensures
            r as nat == self.rank(),
    {
        match self {
            ScrollSpecId::SHANGHAI => 0,
            ScrollSpecId::BERNOULLI => 1,
            ScrollSpecId::CURIE => 2,
            ScrollSpecId::DARWIN => 3,
        }
    }
}

/// Chain identifier of Scroll mainnet.
pub const SCROLL_MAINNET_CHAIN_ID: u64 = 534352;

/// Block at which Bernoulli activates on mainnet.
pub const MAINNET_BERNOULLI_BLOCK: u64 = 5220340;

/// Block at which Curie activates on mainnet.
pub const MAINNET_CURIE_BLOCK: u64 = 7096836;

/// Timestamp at which Darwin activates on mainnet.
pub const MAINNET_DARWIN_TIME: u64 = 1724227200;

/// Timestamp at which the second Darwin upgrade activates on mainnet.
pub const MAINNET_DARWIN_V2_TIME: u64 = 1725264000;

/// Activation points of the chain's forks, and the fee vault that collects
/// transaction fees in place of the block's beneficiary.
#[derive(Clone, Copy, Debug)]
pub struct ScrollChainSpec {
    pub chain_id: u64,
    /// Block from which state clearing (EIP-161) applies.
    pub spurious_dragon_block: u64,
    pub bernoulli_block: u64,
    pub curie_block: u64,
    pub darwin_time: u64,
    pub darwin_v2_time: u64,
    /// Timestamp from which withdrawals may appear, if ever.
    pub shanghai_time: Option<u64>,
    /// Timestamp from which blob fields are required, if ever.
    pub cancun_time: Option<u64>,
    /// Timestamp from which set-code transactions may appear, if ever.
    pub prague_time: Option<u64>,
    pub fee_vault_address: Option<Address>,
}

/// Whether a fork keyed by timestamp is active at `timestamp`.
pub open spec fn time_fork_active(activation: Option<u64>, timestamp: u64) -> bool {
    match activation {
        Some(t) => timestamp >= t,
        None => false,
    }
}

fn time_fork_active_exec(activation: Option<u64>, timestamp: u64) -> (r: bool)
    ensures
        r == time_fork_active(activation, timestamp),
{
    match activation {
        Some(t) => timestamp >= t,
        None => false,
    }
}

impl ScrollChainSpec {
    /// The rule set at a block with this timestamp and number.
    pub open spec fn spec_at(&self, timestamp: u64, number: u64) -> ScrollSpecId {
        if timestamp >= self.darwin_time || timestamp >= self.darwin_v2_time {
            ScrollSpecId::DARWIN
        } else if number >= self.curie_block {
            ScrollSpecId::CURIE
        } else if number >= self.bernoulli_block {
            ScrollSpecId::BERNOULLI
        } else {
            ScrollSpecId::SHANGHAI
        }
    }

    /// Scroll mainnet.
    pub fn mainnet() -> (r: ScrollChainSpec)
        ensures
            r.chain_id == SCROLL_MAINNET_CHAIN_ID,
            r.spurious_dragon_block == 0,
            r.bernoulli_block == MAINNET_BERNOULLI_BLOCK,
            r.curie_block == MAINNET_CURIE_BLOCK,
            r.darwin_time == MAINNET_DARWIN_TIME,
            r.darwin_v2_time == MAINNET_DARWIN_V2_TIME,
            r.shanghai_time == Some(0u64),
            r.cancun_time.is_none(),
            r.prague_time.is_none(),
            r.fee_vault_address.is_some(),
    {
        let mut vault = [0u8; 20];
        vault[0] = 0x53u8;
        vault[19] = 0x05u8;
        ScrollChainSpec {
            chain_id: SCROLL_MAINNET_CHAIN_ID,
            spurious_dragon_block: 0,
            bernoulli_block: MAINNET_BERNOULLI_BLOCK,
            curie_block: MAINNET_CURIE_BLOCK,
            darwin_time: MAINNET_DARWIN_TIME,
            darwin_v2_time: MAINNET_DARWIN_V2_TIME,
            shanghai_time: Some(0),
            cancun_time: None,
            prague_time: None,
            fee_vault_address: Some(Address { bytes: vault }),
        }
    }

    /// The rule set at a block with this timestamp and number.
    pub fn spec_id_at_timestamp_and_number(&self, timestamp: u64, number: u64) -> (r:
        ScrollSpecId)
        ensures
            r == self.spec_at(timestamp, number),
    {
        if self.is_darwin_active_at_timestamp(timestamp) || self.is_darwin_v2_active_at_timestamp(
            timestamp,
        ) {
            ScrollSpecId::DARWIN
        } else if self.is_curie_active_at_block(number) {
            ScrollSpecId::CURIE
        } else if self.is_bernoulli_active_at_block(number) {
            ScrollSpecId::BERNOULLI
        } else {
            ScrollSpecId::SHANGHAI
        }
    }

    pub fn is_spurious_dragon_active_at_block(&self, number: u64) -> (r: bool)
        ensures
            r == (number >= self.spurious_dragon_block),
    {
        number >= self.spurious_dragon_block
    }

    pub fn is_bernoulli_active_at_block(&self, number: u64) -> (r: bool)
        ensures
            r == (number >= self.bernoulli_block),
    {
        number >= self.bernoulli_block
    }

    pub fn is_curie_active_at_block(&self, number: u64) -> (r: bool)
        ensures
            r == (number >= self.curie_block),
    {
        number >= self.curie_block
    }

    /// Whether `number` is the very block at which Curie activates.
    pub fn curie_transitions_at_block(&self, number: u64) -> (r: bool)
        ensures
            r == (number == self.curie_block),
    {
        number == self.curie_block
    }

    pub fn is_darwin_active_at_timestamp(&self, timestamp: u64) -> (r: bool)
        ensures
            r == (timestamp >= self.darwin_time),
    {
        timestamp >= self.darwin_time
    }

    pub fn is_darwin_v2_active_at_timestamp(&self, timestamp: u64) -> (r: bool)
        ensures
            r == (timestamp >= self.darwin_v2_time),
    {
        timestamp >= self.darwin_v2_time
    }

    pub fn is_shanghai_active_at_timestamp(&self, timestamp: u64) -> (r: bool)
        ensures
            r == time_fork_active(self.shanghai_time, timestamp),
    {
        time_fork_active_exec(self.shanghai_time, timestamp)
    }

    pub fn is_cancun_active_at_timestamp(&self, timestamp: u64) -> (r: bool)
        ensures
            r == time_fork_active(self.cancun_time, timestamp),
    {
        time_fork_active_exec(self.cancun_time, timestamp)
    }

    pub fn is_prague_active_at_timestamp(&self, timestamp: u64) -> (r: bool)
        ensures
            r == time_fork_active(self.prague_time, timestamp),
    {
        time_fork_active_exec(self.prague_time, timestamp)
    }
}

/// The rule set never goes back: a later block (by number and by timestamp)
/// runs under the same or a newer rule set.
pub proof fn lemma_spec_monotonic(
    spec: ScrollChainSpec,
    t1: u64,
    n1: u64,
    t2: u64,
    n2: u64,
)
    requires
        t1 <= t2,
        n1 <= n2,
    ensures
        spec.spec_at(t1, n1).rank() <= spec.spec_at(t2, n2).rank(),
{
}

} // verus!
