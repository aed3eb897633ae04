//! Fixed-width values of the chain: addresses, 32-byte words and 256-bit
//! unsigned integers.
use vstd::prelude::*;

verus! {

/// `2^64`, the weight of one limb.
pub open spec fn limb_base() -> nat {
    0x1_0000_0000_0000_0000
}

/// The largest value a [`U256`] can hold, `2^256 - 1`.
pub open spec fn u256_max() -> nat {
    (limb_base() * limb_base() * limb_base() * limb_base() - 1) as nat
}

/// The smaller of two naturals.
pub open spec fn min_nat(a: nat, b: nat) -> nat {
    if a <= b {
        a
    } else {
        b
    }
}

/// A 256-bit unsigned integer stored as four little-endian 64-bit limbs.
#[derive(Clone, Copy, Debug, PartialEq, Eq, Structural)]
pub struct U256 {
    pub l0: u64,
    pub l1: u64,
    pub l2: u64,
    pub l3: u64,
}

impl U256 {
    /// The number this value stands for.
    pub open spec fn value(&self) -> nat {
        (self.l0 as nat) + (self.l1 as nat) * limb_base() + (self.l2 as nat) * limb_base()
            * limb_base() + (self.l3 as nat) * limb_base() * limb_base() * limb_base()
    }

    /// Zero.
    pub fn zero() -> (r: U256)
        ensures
            r.value() == 0,
    {
        U256 { l0: 0, l1: 0, l2: 0, l3: 0 }
    }

    /// The value of a 64-bit integer.
    pub fn from_u64(v: u64) -> (r: U256)
        ensures
            r.value() == v,
    {
        U256 { l0: v, l1: 0, l2: 0, l3: 0 }
    }

    /// Whether the value is zero.
    pub fn is_zero(&self) -> (r: bool)
        ensures
            r == (self.value() == 0),
    {
        proof {
            lemma_value_zero(*self);
        }
        self.l0 == 0 && self.l1 == 0 && self.l2 == 0 && self.l3 == 0
    }

    /// `self + rhs`, or the largest value when the sum does not fit.
    pub fn saturating_add(self, rhs: U256) -> (r: U256)
        ensures
            r.value() == min_nat(self.value() + rhs.value(), u256_max()),
    {
        uint_saturating_add(self, rhs)
    }

    /// `self * rhs`, or the largest value when the product does not fit.
    pub fn saturating_mul(self, rhs: U256) -> (r: U256)
        ensures
            r.value() == min_nat(self.value() * rhs.value(), u256_max()),
    {
        uint_saturating_mul(self, rhs)
    }

    /// `self / rhs`, rounded down.
    pub fn div(self, rhs: U256) -> (r: U256)
        requires
            rhs.value() > 0,
        ensures
            r.value() == self.value() / rhs.value(),
    {
        uint_div(self, rhs)
    }
}

/// A value is zero exactly when all four limbs are.
pub proof fn lemma_value_zero(x: U256)
    ensures
        x.value() == 0 <==> (x.l0 == 0 && x.l1 == 0 && x.l2 == 0 && x.l3 == 0),
{
    let b = limb_base();
    assert(b > 0);
    assert((x.l1 as nat) * b >= 0) by (nonlinear_arith);
    assert((x.l2 as nat) * b * b >= 0) by (nonlinear_arith);
    assert((x.l3 as nat) * b * b * b >= 0) by (nonlinear_arith);
    if x.l1 != 0 {
        assert((x.l1 as nat) * b >= b) by (nonlinear_arith)
            requires
                x.l1 >= 1,
                b > 0,
        ;
    }
    if x.l2 != 0 {
        assert((x.l2 as nat) * b * b >= b * b) by (nonlinear_arith)
            requires
                x.l2 >= 1,
                b > 0,
        ;
        assert(b * b > 0) by (nonlinear_arith)
            requires
                b > 0,
        ;
    }
    if x.l3 != 0 {
        assert((x.l3 as nat) * b * b * b >= b * b * b) by (nonlinear_arith)
            requires
                x.l3 >= 1,
                b > 0,
        ;
        assert(b * b * b > 0) by (nonlinear_arith)
            requires
                b > 0,
        ;
    }
}

/// A value fits 64 bits exactly when its three high limbs are zero.
pub proof fn lemma_high_limbs(x: U256)
    ensures
        x.value() <= u64::MAX <==> (x.l1 == 0 && x.l2 == 0 && x.l3 == 0),
        (x.l1 == 0 && x.l2 == 0 && x.l3 == 0) ==> x.value() == x.l0,
{
    let b = limb_base();
    let high = U256 { l0: 0, l1: x.l1, l2: x.l2, l3: x.l3 };
    lemma_value_zero(high);
    assert(x.value() == x.l0 + high.value());
    if high.value() != 0 {
        assert(high.value() >= b) by (nonlinear_arith)
            requires
                high.value() == (x.l1 as nat) * b + (x.l2 as nat) * b * b + (x.l3 as nat) * b * b * b,
                high.value() != 0,
                b == 0x1_0000_0000_0000_0000nat,
        ;
    }
}

/// Relies on ruint's `Uint::saturating_add`: the sum, or `Uint::MAX` when it
/// overflows. Limbs are little-endian on both sides (`from_limbs`, `into_limbs`).
#[verifier::external_body]
fn uint_saturating_add(a: U256, b: U256) -> (r: U256)
    ensures
        r.value() == min_nat(a.value() + b.value(), u256_max()),
{
    let x = alloy_primitives::U256::from_limbs([a.l0, a.l1, a.l2, a.l3]);
    let y = alloy_primitives::U256::from_limbs([b.l0, b.l1, b.l2, b.l3]);
    let l = x.saturating_add(y).into_limbs();
    U256 { l0: l[0], l1: l[1], l2: l[2], l3: l[3] }
}

/// Relies on ruint's `Uint::saturating_mul`: the product, or `Uint::MAX` when
/// it overflows.
#[verifier::external_body]
fn uint_saturating_mul(a: U256, b: U256) -> (r: U256)
    ensures
        r.value() == min_nat(a.value() * b.value(), u256_max()),
{
    let x = alloy_primitives::U256::from_limbs([a.l0, a.l1, a.l2, a.l3]);
    let y = alloy_primitives::U256::from_limbs([b.l0, b.l1, b.l2, b.l3]);
    let l = x.saturating_mul(y).into_limbs();
    U256 { l0: l[0], l1: l[1], l2: l[2], l3: l[3] }
}

/// Relies on ruint's `Uint::wrapping_div`: the quotient rounded down; it panics
/// on a zero divisor, which `requires` rules out.
#[verifier::external_body]
fn uint_div(a: U256, b: U256) -> (r: U256)
    requires
        b.value() > 0,
    ensures
        r.value() == a.value() / b.value(),
{
    let x = alloy_primitives::U256::from_limbs([a.l0, a.l1, a.l2, a.l3]);
    let y = alloy_primitives::U256::from_limbs([b.l0, b.l1, b.l2, b.l3]);
    let l = x.wrapping_div(y).into_limbs();
    U256 { l0: l[0], l1: l[1], l2: l[2], l3: l[3] }
}

/// A 20-byte account address.
#[derive(Clone, Copy, Debug)]
pub struct Address {
    pub bytes: [u8; 20],
}

impl View for Address {
    type V = Seq<u8>;

    open spec fn view(&self) -> Seq<u8> {
        self.bytes@
    }
}

impl Address {
    /// The all-zero address.
    pub fn zero() -> (r: Address)
        ensures
            r@ == Seq::new(20, |i: int| 0u8),
    {
        let r = Address { bytes: [0u8; 20] };
        assert(r@ =~= Seq::new(20, |i: int| 0u8));
        r
    }

    /// Byte-wise equality.
    pub fn same(&self, other: &Address) -> (r: bool)
        ensures
            r == (self@ == other@),
    {
        let mut i: usize = 0;
        while i < 20
            invariant
                0 <= i <= 20,
                self@.len() == 20,
                other@.len() == 20,
                forall|j: int| 0 <= j < i ==> self@[j] == other@[j],
            decreases 20 - i,
        {
            if self.bytes[i] != other.bytes[i] {
                return false;
            }
            i += 1;
        }
        assert(self@ =~= other@);
        true
    }
}

impl PartialEq for Address {
    fn eq(&self, other: &Address) -> (r: bool) {
        self.same(other)
    }
}

impl vstd::std_specs::cmp::PartialEqSpecImpl for Address {
    open spec fn obeys_eq_spec() -> bool {
        true
    }

    open spec fn eq_spec(&self, other: &Address) -> bool {
        self@ == other@
    }
}

/// A 32-byte word: a hash or a root.
#[derive(Clone, Copy, Debug)]
pub struct B256 {
    pub bytes: [u8; 32],
}

impl View for B256 {
    type V = Seq<u8>;

    open spec fn view(&self) -> Seq<u8> {
        self.bytes@
    }
}

impl B256 {
    /// The all-zero word.
    pub fn zero() -> (r: B256)
        ensures
            r@ == Seq::new(32, |i: int| 0u8),
    {
        let r = B256 { bytes: [0u8; 32] };
        assert(r@ =~= Seq::new(32, |i: int| 0u8));
        r
    }

    /// Byte-wise equality.
    pub fn same(&self, other: &B256) -> (r: bool)
        ensures
            r == (self@ == other@),
    {
        let mut i: usize = 0;
        while i < 32
            invariant
                0 <= i <= 32,
                self@.len() == 32,
                other@.len() == 32,
                forall|j: int| 0 <= j < i ==> self@[j] == other@[j],
            decreases 32 - i,
        {
            if self.bytes[i] != other.bytes[i] {
                return false;
            }
            i += 1;
        }
        assert(self@ =~= other@);
        true
    }
}

impl PartialEq for B256 {
    fn eq(&self, other: &B256) -> (r: bool) {
        self.same(other)
    }
}

impl vstd::std_specs::cmp::PartialEqSpecImpl for B256 {
    open spec fn obeys_eq_spec() -> bool {
        true
    }

    open spec fn eq_spec(&self, other: &B256) -> bool {
        self@ == other@
    }
}

impl DeepView for U256 {
    type V = U256;

    open spec fn deep_view(&self) -> U256 {
        *self
    }
}

impl DeepView for Address {
    type V = Seq<u8>;

    open spec fn deep_view(&self) -> Seq<u8> {
        self@
    }
}

impl DeepView for B256 {
    type V = Seq<u8>;

    open spec fn deep_view(&self) -> Seq<u8> {
        self@
    }
}

/// What Keccak-256 gives for a byte string.
pub uninterp spec fn keccak_of(data: Seq<u8>) -> Seq<u8>;

/// Relies on `alloy_primitives::keccak256`: the 32-byte Keccak-256 digest,
/// a function of the input bytes alone.
#[verifier::external_body]
pub(crate) fn keccak256(data: &[u8]) -> (r: B256)
    ensures
        r@ == keccak_of(data@),
{
    B256 { bytes: alloy_primitives::keccak256(data).0 }
}

} // verus!
