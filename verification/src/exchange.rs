//! Both units in one process: a sale from the buyer's call to what the buyer
//! is told.
//!
//! A host keeps the two units apart and carries requests and answers between
//! them. Here the same steps run one after the other, in the order in which a
//! host takes them.

use crate::context::CallContext;
use crate::errors::ContractError;
use crate::gateway::ChainedHandle;
use crate::json::{json_text, write_json_text};
use crate::token::{mint_message, Contract, Minted};
use crate::vending::{sale_check, MintArgs, PromiseResult, VendingMachine, DECIMAL};
use vstd::prelude::*;

verus! {

/// What the vending machine finds as the answer to a mint: the sentence as a
/// JSON string after a mint that took effect, a failure after one that was
/// refused.
pub fn answer_of(outcome: &Result<Minted, ContractError>) -> (answer: PromiseResult)
    ensures
        match outcome {
            Ok(minted) => answer matches PromiseResult::Successful(bytes) && json_text(bytes@)
                == Some(minted.message@),
            Err(_) => answer is Failed,
        },
{
    match outcome {
        Ok(minted) => PromiseResult::Successful(write_json_text(&minted.message)),
        Err(_) => PromiseResult::Failed,
    }
}

/// The circumstances under which the token serves the request of a sale: the
/// vending machine is the caller, the transaction has the signer that it had,
/// and payment and budget are those of the request.
pub fn remote_context(ctx: &CallContext, plan: &ChainedHandle<MintArgs>) -> (remote: CallContext)
    ensures
        remote.current_account_id@ == plan.call.target@,
        remote.signer_account_id@ == ctx.signer_account_id@,
        remote.predecessor_account_id@ == ctx.current_account_id@,
        remote.attached_deposit == plan.call.payment,
        remote.prepaid_gas == plan.call.budget,
        remote.storage_byte_cost == ctx.storage_byte_cost,
        remote.account_storage_usage == ctx.account_storage_usage,
        remote.state_exists,
{
    CallContext {
        current_account_id: plan.call.target.clone(),
        signer_account_id: ctx.signer_account_id.clone(),
        predecessor_account_id: ctx.current_account_id.clone(),
        attached_deposit: plan.call.payment,
        prepaid_gas: plan.call.budget,
        storage_byte_cost: ctx.storage_byte_cost,
        account_storage_usage: ctx.account_storage_usage,
        state_exists: true,
    }
}

/// The circumstances under which the continuation of a sale runs: the vending
/// machine calls itself.
pub fn continuation_context(ctx: &CallContext, plan: &ChainedHandle<MintArgs>) -> (local:
    CallContext)
    ensures
        local.is_self_call(),
        local.current_account_id@ == plan.continuation_unit@,
        local.signer_account_id@ == ctx.signer_account_id@,
        local.attached_deposit == 0,
        local.prepaid_gas == plan.continuation_budget,
        local.storage_byte_cost == ctx.storage_byte_cost,
        local.account_storage_usage == ctx.account_storage_usage,
        local.state_exists,
{
    CallContext {
        current_account_id: plan.continuation_unit.clone(),
        signer_account_id: ctx.signer_account_id.clone(),
        predecessor_account_id: plan.continuation_unit.clone(),
        attached_deposit: 0,
        prepaid_gas: plan.continuation_budget,
        storage_byte_cost: ctx.storage_byte_cost,
        account_storage_usage: ctx.account_storage_usage,
        state_exists: true,
    }
}

/// Carries one sale through: the buyer's call on the machine, the machine's
/// request on the token, and the continuation that inspects the answer. The
/// buyer is whoever calls the machine.
///
/// A sale that the machine refuses issues no request and leaves the token as
/// it was. A granted sale whose mint takes effect tells the buyer exactly the
/// token's sentence. A granted sale whose mint is refused leaves the token as
/// it was and tells the buyer the empty text.
pub fn sell(machine: &VendingMachine, ctx: &CallContext, amount: u128, token: &mut Contract) -> (told:
    Result<String, ContractError>)
    requires
        old(token).wf(),
    ensures
        final(token).wf(),
        match sale_check(amount as nat, ctx.attached_deposit as nat, ctx.prepaid_gas as nat) {
            Err(e) => final(token)@ == old(token)@ && (told matches Err(refusal) && refusal == e),
            Ok(()) => match old(token)@.mint(
                ctx.current_account_id@,
                1,
                ctx.predecessor_account_id@,
                amount as nat * DECIMAL as nat,
            ) {
                Ok(next) => final(token)@ == next && (told matches Ok(text) && text@
                    == mint_message(
                    old(token)@,
                    ctx.predecessor_account_id@,
                    amount as nat * DECIMAL as nat,
                )),
                Err(_) => final(token)@ == old(token)@ && (told matches Ok(text) && text@
                    == Seq::<char>::empty()),
            },
        },
{
    let plan = match machine.get_token(ctx, amount) {
        Ok(plan) => plan,
        Err(e) => {
            return Err(e);
        },
    };
    let remote = remote_context(ctx, &plan);
    let outcome = token.ft_mint(&remote, plan.call.args.receiver_id.clone(), plan.call.args.amount);
    let answer = answer_of(&outcome);
    let mut results: Vec<PromiseResult> = Vec::new();
    results.push(answer);
    let local = continuation_context(ctx, &plan);
    machine.callback(&local, &results)
}

} // verus!
