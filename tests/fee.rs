use scroll_exec::hardfork::ScrollSpecId;
use scroll_exec::l1fee::L1BlockInfo;
use scroll_exec::primitives::U256;

fn max() -> U256 {
    U256 { l0: u64::MAX, l1: u64::MAX, l2: u64::MAX, l3: u64::MAX }
}

fn info(base: u64, overhead: u64, scalar: u64, blob: u64, commit: u64, blob_scalar: u64) -> L1BlockInfo {
    L1BlockInfo {
        l1_base_fee: U256::from_u64(base),
        l1_fee_overhead: U256::from_u64(overhead),
        l1_base_fee_scalar: U256::from_u64(scalar),
        l1_blob_base_fee: U256::from_u64(blob),
        l1_commit_scalar: U256::from_u64(commit),
        l1_blob_scalar: U256::from_u64(blob_scalar),
    }
}

#[test]
fn pre_curie_fee_counts_zero_and_non_zero_bytes() {
    // 3 zero bytes and 2 others: 3 * 4 + 2 * 16 = 44; + 100 + 64 = 208.
    let i = info(10, 100, 1_000_000_000, 0, 0, 0);
    let fee = i.calculate_tx_l1_cost(&[0, 0, 1, 0, 2], ScrollSpecId::BERNOULLI);
    assert_eq!(fee, U256::from_u64(2080));
}

#[test]
fn curie_fee_uses_length_and_blob_parameters() {
    // (7 * 3 + 10 * 5 * 2) * 10^9 / 10^9 = 121
    let i = info(3, 999, 999, 5, 7, 2_000_000_000);
    let fee = i.calculate_tx_l1_cost(&[0u8; 10], ScrollSpecId::CURIE);
    assert_eq!(fee, U256::from_u64(21 / 1_000_000_000 + 100));
    let i = info(3, 999, 999, 5, 7_000_000_000, 2_000_000_000);
    let fee = i.calculate_tx_l1_cost(&[0u8; 10], ScrollSpecId::DARWIN);
    assert_eq!(fee, U256::from_u64(21 + 100));
}

#[test]
fn fee_saturates_instead_of_wrapping() {
    let mut i = info(2, 0, 0, 0, 0, 0);
    i.l1_commit_scalar = max();
    let fee = i.calculate_tx_l1_cost(&[], ScrollSpecId::CURIE);
    let expected = max().div(U256::from_u64(1_000_000_000));
    assert_eq!(fee, expected);
}

#[test]
fn u256_arithmetic() {
    let a = U256 { l0: u64::MAX, l1: 0, l2: 0, l3: 0 };
    let one = U256::from_u64(1);
    assert_eq!(a.saturating_add(one), U256 { l0: 0, l1: 1, l2: 0, l3: 0 });
    assert_eq!(max().saturating_add(one), max());
    assert_eq!(a.saturating_mul(a), U256 { l0: 1, l1: u64::MAX - 1, l2: 0, l3: 0 });
    assert_eq!(max().saturating_mul(U256::from_u64(2)), max());
    assert_eq!(U256 { l0: 0, l1: 1, l2: 0, l3: 0 }.div(U256::from_u64(2)), U256::from_u64(1 << 63));
    assert!(U256::zero().is_zero());
    assert!(!one.is_zero());
}
