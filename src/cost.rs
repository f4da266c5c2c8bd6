//! Gas-cost accounting: the estimated cost of a batch, and the share of a
//! transaction's realized gas attributed to each operation in it.

use vstd::prelude::*;
use crate::operation::{PendingOperation, TxOutcome};
use crate::u256::{u256_bound, u256_max, ArithmeticError, U256};

verus! {

/// An operation's estimated cost, with a missing estimate counted as zero.
pub open spec fn estimate_or_zero(e: Option<U256>) -> nat {
    match e {
        Some(v) => v.value(),
        None => 0,
    }
}

/// The exact sum of the estimated costs of `ops`, missing estimates counted
/// as zero.
pub open spec fn sum_estimates<O: PendingOperation>(ops: Seq<O>) -> nat
    decreases ops.len(),
{
    if ops.len() == 0 {
        0
    } else {
        sum_estimates(ops.drop_last()) + estimate_or_zero(ops.last().spec_tx_cost_estimate())
    }
}

/// The gas attributed to an operation: the transaction's gas scaled by the
/// operation's share of the estimated cost, rounded down.
pub open spec fn attributed_gas(gas_used: nat, tx_estimated_cost: nat, operation_estimated_cost: nat) -> nat
    recommends
        tx_estimated_cost > 0,
{
    gas_used * operation_estimated_cost / tx_estimated_cost
}

/// Calculate the total estimated cost of an operation batch. An operation
/// without an estimate contributes zero; the sum saturates at the largest
/// 256-bit value.
pub fn total_estimated_cost<O: PendingOperation>(ops: &[O]) -> (r: U256)
    ensures
        r.value() == vstd::math::min(sum_estimates(ops@) as int, u256_max() as int),
{
    let mut acc = U256::zero();
    let mut i: usize = 0;
    while i < ops.len()
        invariant
            i <= ops@.len(),
            acc.value() == vstd::math::min(sum_estimates(ops@.take(i as int)) as int, u256_max() as int),
        decreases ops@.len() - i,
    {
        assert(ops@.take(i + 1).drop_last() =~= ops@.take(i as int));
        match ops[i].get_tx_cost_estimate() {
            Some(cost_estimate) => {
                acc = acc.saturating_add(&cost_estimate);
            },
            None => {},
        }
        i = i + 1;
    }
    assert(ops@.take(ops@.len() as int) =~= ops@);
    acc
}

/// Calculate the gas used by an operation (either in a batch or
/// single-submission) from the gas used by the transaction and the
/// operation's share of the transaction's estimated cost. For a single
/// submission both estimates are the same.
pub fn gas_used_by_operation(
    tx_outcome: &TxOutcome,
    tx_estimated_cost: U256,
    operation_estimated_cost: U256,
) -> (r: Result<U256, ArithmeticError>)
    ensures
        tx_estimated_cost.value() == 0 ==> r == Err::<U256, ArithmeticError>(
            ArithmeticError::DivisionByZero,
        ),
        tx_estimated_cost.value() != 0 ==> {
            let share = attributed_gas(
                tx_outcome.gas_used.value(),
                tx_estimated_cost.value(),
                operation_estimated_cost.value(),
            );
            &&& share < u256_bound() ==> (r matches Ok(v) && v.value() == share)
            &&& share >= u256_bound() ==> r == Err::<U256, ArithmeticError>(
                ArithmeticError::Overflow,
            )
        },
{
    tx_outcome.gas_used.checked_mul_div(&operation_estimated_cost, &tx_estimated_cost)
}

/// For a single submission, where the operation's estimate is the whole
/// transaction's, the operation is attributed exactly the gas the
/// transaction used.
pub proof fn lemma_single_operation_gets_all_gas(gas_used: nat, cost: nat)
    requires
        cost > 0,
    ensures
        attributed_gas(gas_used, cost, cost) == gas_used,
{
    assert(gas_used * cost / cost == gas_used) by (nonlinear_arith)
        requires
            cost > 0,
    ;
}

/// In a batch of two operations whose estimates make up the transaction's
/// estimate, each share is at most the transaction's gas (so it fits), and
/// the shares add up to the transaction's gas, or one less from rounding
/// down.
pub proof fn lemma_batch_shares_add_up(gas_used: nat, e1: nat, e2: nat)
    requires
        e1 + e2 > 0,
    ensures
        attributed_gas(gas_used, e1 + e2, e1) <= gas_used,
        attributed_gas(gas_used, e1 + e2, e2) <= gas_used,
        attributed_gas(gas_used, e1 + e2, e1) + attributed_gas(gas_used, e1 + e2, e2) <= gas_used,
        attributed_gas(gas_used, e1 + e2, e1) + attributed_gas(gas_used, e1 + e2, e2) + 1 >= gas_used,
{
    let total = e1 + e2;
    let q1 = gas_used * e1 / total;
    let q2 = gas_used * e2 / total;
    let r1 = gas_used * e1 % total;
    let r2 = gas_used * e2 % total;
    vstd::arithmetic::div_mod::lemma_fundamental_div_mod((gas_used * e1) as int, total as int);
    vstd::arithmetic::div_mod::lemma_fundamental_div_mod((gas_used * e2) as int, total as int);
    assert(gas_used * e1 + gas_used * e2 == gas_used * total) by (nonlinear_arith)
        requires
            total == e1 + e2,
    ;
    assert(q1 + q2 <= gas_used && q1 + q2 + 1 >= gas_used) by (nonlinear_arith)
        requires
            total > 0,
            gas_used * e1 == total * q1 + r1,
            gas_used * e2 == total * q2 + r2,
            0 <= r1 < total,
            0 <= r2 < total,
            gas_used * e1 + gas_used * e2 == gas_used * total,
    ;
}

} // verus!
