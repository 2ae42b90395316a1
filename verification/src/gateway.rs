//! The gateway for calls from one unit to another.
//!
//! A call to another unit does not return. The caller describes the call, says
//! what of its own is to run once the answer is known, and ends; the host does
//! the rest. This module builds those descriptions and keeps account of the
//! budget that the two legs draw on.

use crate::errors::ContractError;
use vstd::prelude::*;

verus! {

/// One operation to run on another unit, not yet chained to a continuation.
pub struct CallHandle<A> {
    /// The unit that is called.
    pub target: String,
    /// The operation that is called on it.
    pub operation: String,
    /// The arguments of the operation.
    pub args: A,
    /// The value attached to the call.
    pub payment: u128,
    /// The budget reserved for the call.
    pub budget: u64,
    /// What is left of the caller's budget after this reservation.
    pub remaining: u64,
}

/// A remote call together with the local operation that runs once its answer
/// is known, whatever the answer.
pub struct ChainedHandle<A> {
    /// The remote call.
    pub call: CallHandle<A>,
    /// The unit on which the continuation runs: the caller itself.
    pub continuation_unit: String,
    /// The operation that continues.
    pub continuation: String,
    /// The budget reserved for the continuation.
    pub continuation_budget: u64,
}

/// Describes one call of `operation` on `target_unit` and reserves `budget`
/// for it out of `available`.
pub fn invoke<A>(
    target_unit: String,
    operation: String,
    args: A,
    payment: u128,
    budget: u64,
    available: u64,
) -> (made: Result<CallHandle<A>, ContractError>)
    ensures
        budget > available ==> (made matches Err(e) && e == ContractError::InsufficientBudget),
        budget <= available ==> (made matches Ok(handle) && handle.target == target_unit
            && handle.operation == operation && handle.args == args && handle.payment == payment
            && handle.budget == budget && handle.remaining == available - budget),
{
    if budget > available {
        Err(ContractError::InsufficientBudget)
    } else {
        Ok(
            CallHandle {
                target: target_unit,
                operation,
                args,
                payment,
                budget,
                remaining: available - budget,
            },
        )
    }
}

/// Chains to a call the operation of `local_unit` that is to run once the
/// call's answer is known, and reserves `budget` for it out of what the call
/// left.
pub fn then_local<A>(
    call_handle: CallHandle<A>,
    local_unit: String,
    continuation_operation: String,
    budget: u64,
) -> (made: Result<ChainedHandle<A>, ContractError>)
    ensures
        budget > call_handle.remaining ==> (made matches Err(e) && e
            == ContractError::InsufficientBudget),
        budget <= call_handle.remaining ==> (made matches Ok(chained) && chained.call
            == call_handle && chained.continuation_unit == local_unit && chained.continuation
            == continuation_operation && chained.continuation_budget == budget),
{
    if budget > call_handle.remaining {
        Err(ContractError::InsufficientBudget)
    } else {
        Ok(
            ChainedHandle {
                call: call_handle,
                continuation_unit: local_unit,
                continuation: continuation_operation,
                continuation_budget: budget,
            },
        )
    }
}

} // verus!
