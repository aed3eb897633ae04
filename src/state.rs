//! The in-memory state overlay a block executes against. Writes are
//! journaled: each write appends an entry, and a read returns the latest
//! entry for its key. The caller decides whether to flush the overlay or drop
//! it.
use vstd::prelude::*;

use crate::primitives::{Address, U256};

verus! {

/// The basic fields of an account.
#[derive(Clone, Debug)]
pub struct AccountInfo {
    pub balance: U256,
    pub nonce: u64,
    pub code: Option<Vec<u8>>,
}

pub struct AccountInfoModel {
    pub balance: U256,
    pub nonce: u64,
    pub code: Option<Seq<u8>>,
}

impl DeepView for AccountInfo {
    type V = AccountInfoModel;

    open spec fn deep_view(&self) -> AccountInfoModel {
        AccountInfoModel {
            balance: self.balance,
            nonce: self.nonce,
            code: match self.code {
                Some(c) => Some(c@),
                None => None,
            },
        }
    }
}

impl AccountInfo {
    /// An account with no balance, nonce or code.
    pub fn empty() -> (r: AccountInfo)
        ensures
            r.balance.value() == 0,
            r.nonce == 0,
            r.code.is_none(),
    {
        AccountInfo { balance: U256::zero(), nonce: 0, code: None }
    }
}

/// What one transaction changed in one account: its new fields and the
/// storage slots it wrote.
#[derive(Clone, Debug)]
pub struct AccountChange {
    pub address: Address,
    pub info: AccountInfo,
    pub storage: Vec<(U256, U256)>,
}

/// One journaled account write.
#[derive(Clone, Debug)]
pub struct AccountEntry {
    pub address: Address,
    pub info: AccountInfo,
}

/// One journaled storage write.
#[derive(Clone, Copy, Debug)]
pub struct SlotEntry {
    pub address: Address,
    pub slot: U256,
    pub value: U256,
}

/// The latest account entry for `a`, if any.
pub open spec fn latest_info(log: Seq<AccountEntry>, a: Seq<u8>) -> Option<AccountInfoModel>
    decreases log.len(),
{
    if log.len() == 0 {
        None
    } else if log.last().address@ == a {
        Some(log.last().info.deep_view())
    } else {
        latest_info(log.drop_last(), a)
    }
}

/// The latest value written to `slot` of `a`, if any.
pub open spec fn latest_slot(log: Seq<SlotEntry>, a: Seq<u8>, slot: U256) -> Option<U256>
    decreases log.len(),
{
    if log.len() == 0 {
        None
    } else if log.last().address@ == a && log.last().slot == slot {
        Some(log.last().value)
    } else {
        latest_slot(log.drop_last(), a, slot)
    }
}

/// Reads accounts.
pub trait AccountReader {
    /// The account at `address`, or `None` if it does not exist.
    fn basic_account(&self, address: &Address) -> Option<AccountInfo>;
}

/// The state overlay.
#[derive(Clone, Debug)]
pub struct State {
    accounts: Vec<AccountEntry>,
    slots: Vec<SlotEntry>,
    state_clear: bool,
}

impl State {
    /// The account at `a`, if it has been written.
    pub closed spec fn info(&self, a: Seq<u8>) -> Option<AccountInfoModel> {
        latest_info(self.accounts@, a)
    }

    /// The value of `slot` at `a`; slots never written hold zero.
    pub closed spec fn slot(&self, a: Seq<u8>, slot: U256) -> U256 {
        match latest_slot(self.slots@, a, slot) {
            Some(v) => v,
            None => U256 { l0: 0, l1: 0, l2: 0, l3: 0 },
        }
    }

    /// Whether state clearing (EIP-161) is on.
    pub closed spec fn clears_state(&self) -> bool {
        self.state_clear
    }

    /// An empty overlay.
    pub fn new() -> (r: State)
        ensures
            forall|a: Seq<u8>| r.info(a).is_none(),
            forall|a: Seq<u8>, s: U256| r.slot(a, s).value() == 0,
            !r.clears_state(),
    {
        State { accounts: Vec::new(), slots: Vec::new(), state_clear: false }
    }

    /// Turns state clearing on or off.
    pub fn set_state_clear_flag(&mut self, on: bool)
        ensures
            final(self).clears_state() == on,
            forall|b: Seq<u8>| final(self).info(b) == old(self).info(b),
            forall|b: Seq<u8>, s: U256| final(self).slot(b, s) == old(self).slot(b, s),
    {
        self.state_clear = on;
    }

    /// The account at `a`, if it has been written.
    pub fn account(&self, a: &Address) -> (r: Option<AccountInfo>)
        ensures
            match r {
                Some(i) => self.info(a@) == Some(i.deep_view()),
                None => self.info(a@).is_none(),
            },
    {
        let mut i: usize = self.accounts.len();
        assert(self.accounts@.take(i as int) =~= self.accounts@);
        while i > 0
            invariant
                i <= self.accounts@.len(),
                latest_info(self.accounts@, a@) == latest_info(self.accounts@.take(i as int), a@),
            decreases i,
        {
            let e = &self.accounts[i - 1];
            assert(self.accounts@.take(i as int).drop_last() =~= self.accounts@.take(i - 1));
            if e.address.same(a) {
                return Some(e.info.clone_info());
            }
            i -= 1;
        }
        None
    }

    /// The value of `slot` at `a`; slots never written hold zero.
    pub fn storage(&self, a: &Address, slot: U256) -> (r: U256)
        ensures
            r == self.slot(a@, slot),
    {
        let mut i: usize = self.slots.len();
        assert(self.slots@.take(i as int) =~= self.slots@);
        while i > 0
            invariant
                i <= self.slots@.len(),
                latest_slot(self.slots@, a@, slot) == latest_slot(
                    self.slots@.take(i as int),
                    a@,
                    slot,
                ),
            decreases i,
        {
            let e = &self.slots[i - 1];
            assert(self.slots@.take(i as int).drop_last() =~= self.slots@.take(i - 1));
            if e.address.same(a) && e.slot == slot {
                return e.value;
            }
            i -= 1;
        }
        U256::zero()
    }

    /// Writes the account at `a`.
    pub fn set_account(&mut self, a: Address, info: AccountInfo)
        ensures
            final(self).info(a@) == Some(info.deep_view()),
            forall|b: Seq<u8>| b != a@ ==> final(self).info(b) == old(self).info(b),
            forall|b: Seq<u8>, s: U256| final(self).slot(b, s) == old(self).slot(b, s),
            final(self).clears_state() == old(self).clears_state(),
    {
        let ghost prev = self.accounts@;
        self.accounts.push(AccountEntry { address: a, info });
        assert(self.accounts@.drop_last() =~= prev);
    }

    /// Writes `value` to `slot` of `a`.
    pub fn set_storage(&mut self, a: Address, slot: U256, value: U256)
        ensures
            final(self).slot(a@, slot) == value,
            forall|b: Seq<u8>, s: U256|
                !(b == a@ && s == slot) ==> final(self).slot(b, s) == old(self).slot(b, s),
            forall|b: Seq<u8>| final(self).info(b) == old(self).info(b),
            final(self).clears_state() == old(self).clears_state(),
    {
        let ghost prev = self.slots@;
        self.slots.push(SlotEntry { address: a, slot, value });
        assert(self.slots@.drop_last() =~= prev);
    }

    /// Replaces the code of the account at `a`, keeping its balance and nonce
    /// (those of an empty account if it was never written).
    pub fn set_code(&mut self, a: Address, code: Vec<u8>)
        ensures
            final(self).info(a@) == Some(
                AccountInfoModel {
                    balance: match old(self).info(a@) {
                        Some(i) => i.balance,
                        None => U256 { l0: 0, l1: 0, l2: 0, l3: 0 },
                    },
                    nonce: match old(self).info(a@) {
                        Some(i) => i.nonce,
                        None => 0,
                    },
                    code: Some(code@),
                },
            ),
            forall|b: Seq<u8>| b != a@ ==> final(self).info(b) == old(self).info(b),
            forall|b: Seq<u8>, s: U256| final(self).slot(b, s) == old(self).slot(b, s),
            final(self).clears_state() == old(self).clears_state(),
    {
        let (balance, nonce) = match self.account(&a) {
            Some(i) => (i.balance, i.nonce),
            None => (U256 { l0: 0, l1: 0, l2: 0, l3: 0 }, 0),
        };
        self.set_account(a, AccountInfo { balance, nonce, code: Some(code) });
    }

    /// Applies what one transaction changed, account by account; a later
    /// change to the same account or slot wins.
    pub fn commit(&mut self, changes: Vec<AccountChange>)
        ensures
            forall|b: Seq<u8>|
                final(self).info(b) == changed_info(changes@, b, old(self).info(b)),
            forall|b: Seq<u8>, s: U256|
                final(self).slot(b, s) == changed_slot(changes@, b, s, old(self).slot(b, s)),
            final(self).clears_state() == old(self).clears_state(),
    {
        let ghost start = *self;
        let mut i: usize = 0;
        while i < changes.len()
            invariant
                i <= changes@.len(),
                self.clears_state() == start.clears_state(),
                forall|b: Seq<u8>|
                    self.info(b) == changed_info(changes@.take(i as int), b, start.info(b)),
                forall|b: Seq<u8>, s: U256|
                    self.slot(b, s) == changed_slot(
                        changes@.take(i as int),
                        b,
                        s,
                        start.slot(b, s),
                    ),
            decreases changes@.len() - i,
        {
            let c = &changes[i];
            let ghost done = changes@.take(i as int);
            assert(changes@.take(i + 1).drop_last() =~= done);
            assert(changes@.take(i + 1).last() == *c);
            self.set_account(c.address, c.info.clone_info());
            let mut j: usize = 0;
            while j < c.storage.len()
                invariant
                    j <= c.storage@.len(),
                    self.clears_state() == start.clears_state(),
                    forall|b: Seq<u8>|
                        self.info(b) == changed_info(changes@.take(i + 1), b, start.info(b)),
                    forall|b: Seq<u8>, s: U256|
                        self.slot(b, s) == if b == c.address@ && written_slot(
                            c.storage@.take(j as int),
                            s,
                        ).is_some() {
                            written_slot(c.storage@.take(j as int), s).unwrap()
                        } else {
                            changed_slot(done, b, s, start.slot(b, s))
                        },
                decreases c.storage@.len() - j,
            {
                let (slot, value) = c.storage[j];
                assert(c.storage@.take(j + 1).drop_last() =~= c.storage@.take(j as int));
                self.set_storage(c.address, slot, value);
                j += 1;
            }
            assert(c.storage@.take(c.storage@.len() as int) =~= c.storage@);
            i += 1;
        }
        assert(changes@.take(changes@.len() as int) =~= changes@);
    }
}

/// The latest value `writes` give to `slot`, if any.
pub open spec fn written_slot(writes: Seq<(U256, U256)>, slot: U256) -> Option<U256>
    decreases writes.len(),
{
    if writes.len() == 0 {
        None
    } else if writes.last().0 == slot {
        Some(writes.last().1)
    } else {
        written_slot(writes.drop_last(), slot)
    }
}

/// The account fields at `b` after `changes`, from `prev` before them.
pub open spec fn changed_info(
    changes: Seq<AccountChange>,
    b: Seq<u8>,
    prev: Option<AccountInfoModel>,
) -> Option<AccountInfoModel>
    decreases changes.len(),
{
    if changes.len() == 0 {
        prev
    } else if changes.last().address@ == b {
        Some(changes.last().info.deep_view())
    } else {
        changed_info(changes.drop_last(), b, prev)
    }
}

/// The value of `slot` at `b` after `changes`, from `prev` before them.
pub open spec fn changed_slot(
    changes: Seq<AccountChange>,
    b: Seq<u8>,
    slot: U256,
    prev: U256,
) -> U256
    decreases changes.len(),
{
    if changes.len() == 0 {
        prev
    } else if changes.last().address@ == b && written_slot(changes.last().storage@, slot).is_some() {
        written_slot(changes.last().storage@, slot).unwrap()
    } else {
        changed_slot(changes.drop_last(), b, slot, prev)
    }
}

impl AccountReader for State {
    fn basic_account(&self, address: &Address) -> (r: Option<AccountInfo>) {
        self.account(address)
    }
}

impl AccountInfo {
    /// A copy of the account fields.
    pub fn clone_info(&self) -> (r: AccountInfo)
        ensures
            r.deep_view() == self.deep_view(),
    {
        let code = match &self.code {
            Some(c) => Some(copy_bytes(c)),
            None => None,
        };
        AccountInfo { balance: self.balance, nonce: self.nonce, code }
    }
}

/// A copy of a byte vector.
pub fn copy_bytes(b: &Vec<u8>) -> (r: Vec<u8>)
    ensures
        r@ == b@,
{
    let mut r: Vec<u8> = Vec::new();
    let mut i: usize = 0;
    while i < b.len()
        invariant
            i <= b@.len(),
            r@ == b@.take(i as int),
        decreases b@.len() - i,
    {
        r.push(b[i]);
        i += 1;
        assert(r@ =~= b@.take(i as int));
    }
    assert(b@.take(b@.len() as int) =~= b@);
    r
}

} // verus!
