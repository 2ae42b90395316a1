//! What a host tells a unit about the call that it is serving.

use vstd::prelude::*;

verus! {

/// The circumstances of one call.
#[derive(Clone, Debug)]
pub struct CallContext {
    /// The unit that is being called.
    pub current_account_id: String,
    /// The account whose key signed the transaction that led to this call.
    pub signer_account_id: String,
    /// The account that made this call: the signer, or a unit calling on.
    pub predecessor_account_id: String,
    /// The value attached to the call, in the smallest unit of the currency.
    pub attached_deposit: u128,
    /// The budget that was reserved for the call and for what it schedules.
    pub prepaid_gas: u64,
    /// The price of storing one byte.
    pub storage_byte_cost: u128,
    /// The bytes that the host charges for one balance entry.
    pub account_storage_usage: u64,
    /// Whether the unit already holds state.
    pub state_exists: bool,
}

impl CallContext {
    /// The caller is the unit itself.
    pub open spec fn is_self_call(&self) -> bool {
        self.predecessor_account_id@ == self.current_account_id@
    }

    /// Whether the caller is the unit itself.
    pub fn called_by_self(&self) -> (own: bool)
        ensures
            own == self.is_self_call(),
    {
        self.predecessor_account_id == self.current_account_id
    }
}

} // verus!
