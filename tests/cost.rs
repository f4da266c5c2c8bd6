use pending_operation::cost::{gas_used_by_operation, total_estimated_cost};
use pending_operation::h256::H256;
use pending_operation::operation::{OperationRecord, TxOutcome};
use pending_operation::u256::{ArithmeticError, U256};

fn outcome(gas: u64) -> TxOutcome {
    TxOutcome { executed: true, gas_used: U256::from_u64(gas) }
}

fn record(n: u8, estimate: Option<U256>) -> OperationRecord {
    let mut b = [0u8; 32];
    b[31] = n;
    let mut op = OperationRecord::new(H256::from_bytes(b), n as u32, 1, "dest".to_string(), None);
    op.set_tx_cost_estimate(estimate);
    op
}

const MAX: [u64; 4] = [u64::MAX; 4];

#[test]
fn single_operation_gets_all_gas() {
    for c in [1u64, 7, 21000, u64::MAX] {
        let r = gas_used_by_operation(&outcome(54321), U256::from_u64(c), U256::from_u64(c));
        assert_eq!(r, Ok(U256::from_u64(54321)));
    }
    let big = U256::from_limbs([1, 2, 3, 4]);
    let r = gas_used_by_operation(&TxOutcome { executed: true, gas_used: big }, big, big);
    assert_eq!(r, Ok(big));
}

#[test]
fn zero_tx_estimate_is_division_by_zero() {
    for (g, o) in [(0u64, 0u64), (100, 5), (1, 0)] {
        assert_eq!(
            gas_used_by_operation(&outcome(g), U256::zero(), U256::from_u64(o)),
            Err(ArithmeticError::DivisionByZero)
        );
    }
}

#[test]
fn attribution_is_pro_rata() {
    assert_eq!(
        gas_used_by_operation(&outcome(21000), U256::from_u64(300), U256::from_u64(100)),
        Ok(U256::from_u64(7000))
    );
}

#[test]
fn batch_shares_add_up() {
    let e1 = U256::from_u64(1);
    let e2 = U256::from_u64(2);
    let total = U256::from_u64(3);
    let s1 = gas_used_by_operation(&outcome(100), total, e1).unwrap();
    let s2 = gas_used_by_operation(&outcome(100), total, e2).unwrap();
    assert_eq!(s1, U256::from_u64(33));
    assert_eq!(s2, U256::from_u64(66));
    let s3 = gas_used_by_operation(&outcome(90), total, e1).unwrap();
    let s4 = gas_used_by_operation(&outcome(90), total, e2).unwrap();
    assert_eq!(s3, U256::from_u64(30));
    assert_eq!(s4, U256::from_u64(60));
}

#[test]
fn wide_product_is_not_truncated() {
    let half_range = U256::from_limbs([0, 0, 0, 1 << 63]);
    let r = gas_used_by_operation(
        &TxOutcome { executed: true, gas_used: half_range },
        U256::from_u64(4),
        U256::from_u64(2),
    );
    assert_eq!(r, Ok(U256::from_limbs([0, 0, 0, 1 << 62])));
}

#[test]
fn attribution_too_large_overflows() {
    let r = gas_used_by_operation(
        &TxOutcome { executed: true, gas_used: U256::from_limbs(MAX) },
        U256::from_u64(1),
        U256::from_u64(2),
    );
    assert_eq!(r, Err(ArithmeticError::Overflow));
}

#[test]
fn total_skips_missing_estimates() {
    let ops = vec![
        record(1, Some(U256::from_u64(10))),
        record(2, None),
        record(3, Some(U256::from_u64(32))),
    ];
    assert_eq!(total_estimated_cost(&ops), U256::from_u64(42));
}

#[test]
fn total_of_empty_batch_is_zero() {
    let ops: Vec<OperationRecord> = Vec::new();
    assert_eq!(total_estimated_cost(&ops), U256::zero());
    assert!(total_estimated_cost(&ops).is_zero());
}

#[test]
fn total_saturates() {
    let ops = vec![
        record(1, Some(U256::from_limbs(MAX))),
        record(2, Some(U256::from_u64(5))),
    ];
    assert_eq!(total_estimated_cost(&ops), U256::from_limbs(MAX));
}

#[test]
fn saturating_add_carries_between_limbs() {
    let a = U256::from_limbs([u64::MAX, 0, 0, 0]);
    let b = U256::from_u64(1);
    assert_eq!(a.saturating_add(&b).as_limbs(), [0, 1, 0, 0]);
    assert_eq!(U256::from_u64(2).saturating_add(&U256::from_u64(3)), U256::from_u64(5));
}
