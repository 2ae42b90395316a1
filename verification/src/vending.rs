//! The vending machine: it takes a payment, asks the token to mint, and tells
//! the buyer how that went once the token has answered.
//!
//! One sale passes from idle, through awaiting the mint, to resolved.
//! `get_token` takes it from idle to awaiting: what it returns is the pending
//! request. `callback` takes it from awaiting to resolved: what it returns is
//! what the buyer is told. The machine never takes a mint for granted: the
//! answer is inspected when it arrives, and anything but one successful answer
//! resolves to an empty text.

use crate::access::ONE_YOCTO;
use crate::context::CallContext;
use crate::errors::ContractError;
use crate::gateway::{invoke, then_local, ChainedHandle};
use crate::json::{json_text, read_json_text};
use vstd::prelude::*;
use vstd::string::StringExecFns;

verus! {

/// The smallest units of currency that make one whole unit.
pub const ONE_NEAR: u128 = 1_000_000_000_000_000_000_000_000;

/// The smallest units of the token that make one whole token.
pub const DECIMAL: u128 = 100_000_000;

/// The budget reserved for each leg of a sale.
pub const GAS_FEE: u64 = 10_000_000_000_000;

/// The arguments of a mint.
pub struct MintArgs {
    pub receiver_id: String,
    pub amount: u128,
}

/// What became of a remote call.
#[derive(Debug)]
pub enum PromiseResult {
    /// The call ran to its end and returned these bytes.
    Successful(Vec<u8>),
    /// The call was refused or broke off.
    Failed,
}

/// A vending machine, bound to the token that it sells.
pub struct VendingMachine {
    pub token_contract: String,
}

/// Whether there is exactly one answer, and it is a success.
pub open spec fn succeeded(results: Seq<PromiseResult>) -> bool {
    results.len() == 1 && results[0] is Successful
}

/// The bytes of the one successful answer.
pub open spec fn payload(results: Seq<PromiseResult>) -> Seq<u8> {
    results[0]->Successful_0@
}

/// Whether the one successful answer, if there is one, holds a JSON string.
pub open spec fn readable(results: Seq<PromiseResult>) -> bool {
    succeeded(results) ==> json_text(payload(results)).is_some()
}

/// What the buyer is told: the text that the one successful answer holds, and
/// the empty text in every other case.
pub open spec fn resolution(results: Seq<PromiseResult>) -> Seq<char> {
    if succeeded(results) {
        json_text(payload(results)).unwrap()
    } else {
        Seq::<char>::empty()
    }
}

/// What a sale of `amount` whole tokens costs.
pub open spec fn price(amount: nat) -> nat {
    amount * ONE_NEAR as nat
}

/// Whether a sale is granted, and if not, why.
pub open spec fn sale_check(amount: nat, attached: nat, prepaid_gas: nat) -> Result<
    (),
    ContractError,
> {
    if price(amount) > attached {
        Err(ContractError::InsufficientPayment)
    } else if prepaid_gas < 2 * GAS_FEE {
        Err(ContractError::InsufficientBudget)
    } else {
        Ok(())
    }
}

/// Whether `plan` is the request that a granted sale issues: one `ft_mint` on
/// the token for the caller, over `amount` whole tokens in smallest units,
/// carrying the confirming payment, with `callback` on the machine itself to
/// follow, and the fixed budget for each leg.
pub open spec fn is_mint_plan(
    plan: ChainedHandle<MintArgs>,
    token_contract: Seq<char>,
    ctx: CallContext,
    amount: nat,
) -> bool {
    &&& plan.call.target@ == token_contract
    &&& plan.call.operation@ == "ft_mint"@
    &&& plan.call.args.receiver_id@ == ctx.predecessor_account_id@
    &&& plan.call.args.amount == amount * DECIMAL
    &&& plan.call.payment == ONE_YOCTO
    &&& plan.call.budget == GAS_FEE
    &&& plan.call.remaining == ctx.prepaid_gas - GAS_FEE
    &&& plan.continuation_unit@ == ctx.current_account_id@
    &&& plan.continuation@ == "callback"@
    &&& plan.continuation_budget == GAS_FEE
}

/// Whether there is exactly one answer, and it is a success.
pub fn did_promise_succeed(results: &Vec<PromiseResult>) -> (success: bool)
    ensures
        success == succeeded(results@),
{
    if results.len() != 1 {
        return false;
    }
    match &results[0] {
        PromiseResult::Successful(_) => true,
        PromiseResult::Failed => false,
    }
}

/// The operational fault of a continuation that finds no answer, or more than
/// one. It is for the log: the continuation itself still resolves.
pub fn callback_fault(results: &Vec<PromiseResult>) -> (fault: Option<ContractError>)
    ensures
        fault == if results@.len() == 1 {
            None
        } else {
            Some(ContractError::CallbackFault)
        },
{
    if results.len() != 1 {
        Some(ContractError::CallbackFault)
    } else {
        None
    }
}

/// What the buyer is told, given whether there is exactly one successful
/// answer and the text that was read from it: that text after a success, the
/// empty text otherwise.
pub fn told_after(success: bool, text: Option<String>) -> (told: String)
    requires
        success ==> text is Some,
    ensures
        told@ == if success {
            text.unwrap()@
        } else {
            Seq::<char>::empty()
        },
{
    match text {
        Some(read) => if success {
            read
        } else {
            String::new()
        },
        None => String::new(),
    }
}

impl VendingMachine {
    /// Binds a machine to the token that it sells. Only the unit itself may do
    /// so, and only once.
    pub fn new(ctx: &CallContext, token_contract: String) -> (made: Result<Self, ContractError>)
        ensures
            !ctx.is_self_call() ==> (made matches Err(e) && e == ContractError::Unauthorized),
            ctx.is_self_call() && ctx.state_exists ==> (made matches Err(e) && e
                == ContractError::AlreadyInitialized),
            ctx.is_self_call() && !ctx.state_exists ==> (made matches Ok(machine)
                && machine.token_contract == token_contract),
    {
        if !ctx.called_by_self() {
            Err(ContractError::Unauthorized)
        } else if ctx.state_exists {
            Err(ContractError::AlreadyInitialized)
        } else {
            Ok(VendingMachine { token_contract })
        }
    }

    /// Sells `amount` whole tokens to the caller. The call must carry at least
    /// `amount` whole units of currency. Nothing is returned to the buyer yet:
    /// the result is the request for the host to carry out.
    pub fn get_token(&self, ctx: &CallContext, amount: u128) -> (issued: Result<
        ChainedHandle<MintArgs>,
        ContractError,
    >)
        ensures
            match sale_check(amount as nat, ctx.attached_deposit as nat, ctx.prepaid_gas as nat) {
                Ok(()) => issued matches Ok(plan) && is_mint_plan(
                    plan,
                    self.token_contract@,
                    *ctx,
                    amount as nat,
                ),
                Err(e) => issued matches Err(refusal) && refusal == e,
            },
    {
        let paid = match amount.checked_mul(ONE_NEAR) {
            Some(cost) => cost <= ctx.attached_deposit,
            None => false,
        };
        if !paid {
            return Err(ContractError::InsufficientPayment);
        }
        assert(amount * DECIMAL <= u128::MAX) by (nonlinear_arith)
            requires
                amount * ONE_NEAR <= u128::MAX,
                DECIMAL <= ONE_NEAR,
        ;
        let args = MintArgs {
            receiver_id: ctx.predecessor_account_id.clone(),
            amount: amount * DECIMAL,
        };
        let call = invoke(
            self.token_contract.clone(),
            String::from_str("ft_mint"),
            args,
            ONE_YOCTO,
            GAS_FEE,
            ctx.prepaid_gas,
        );
        match call {
            Ok(handle) => then_local(
                handle,
                ctx.current_account_id.clone(),
                String::from_str("callback"),
                GAS_FEE,
            ),
            Err(e) => Err(e),
        }
    }

    /// Inspects the answer to the mint and returns what the buyer is told: the
    /// token's sentence after one successful answer, the empty text otherwise.
    /// Only the unit itself may call this. A successful answer holds a JSON
    /// string.
    pub fn callback(&self, ctx: &CallContext, results: &Vec<PromiseResult>) -> (told: Result<
        String,
        ContractError,
    >)
        requires
            ctx.is_self_call() ==> readable(results@),
        ensures
            !ctx.is_self_call() ==> (told matches Err(e) && e == ContractError::Unauthorized),
            ctx.is_self_call() ==> (told matches Ok(text) && text@ == resolution(results@)),
    {
        if !ctx.called_by_self() {
            return Err(ContractError::Unauthorized);
        }
        if !did_promise_succeed(results) {
            return Ok(told_after(false, None));
        }
        match &results[0] {
            PromiseResult::Successful(value) => Ok(told_after(true, read_json_text(value))),
            PromiseResult::Failed => Ok(told_after(false, None)),
        }
    }

    /// As `callback`, for answers of which nothing is known: `None` where the
    /// one successful answer does not hold a JSON string.
    pub fn checked_callback(&self, ctx: &CallContext, results: &Vec<PromiseResult>) -> (told:
        Option<Result<String, ContractError>>)
        ensures
            ctx.is_self_call() && !readable(results@) ==> told is None,
            !ctx.is_self_call() ==> (told matches Some(Err(e)) && e == ContractError::Unauthorized),
            ctx.is_self_call() && readable(results@) ==> (told matches Some(Ok(text)) && text@
                == resolution(results@)),
    {
        if ctx.called_by_self() && did_promise_succeed(results) {
            match &results[0] {
                PromiseResult::Successful(value) => {
                    if read_json_text(value).is_none() {
                        return None;
                    }
                },
                PromiseResult::Failed => {},
            }
        }
        Some(self.callback(ctx, results))
    }
}

} // verus!
