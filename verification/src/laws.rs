//! What holds of the token whatever its state.

use crate::access::TokenModel;
use crate::errors::ContractError;
use crate::text::{pow10, whole_tokens};
use crate::vending::DECIMAL;
use vstd::prelude::*;

verus! {

/// A mint for a registered receiver whose balance, like the supply, has room
/// for the amount takes effect exactly when the controller calls, exactly one
/// smallest unit of currency is attached, and the amount is positive. The
/// first of these that is missing names the refusal. A mint that takes effect
/// raises the receiver's balance and the supply by the amount and touches no
/// other balance.
pub proof fn law_mint(
    token: TokenModel,
    caller: Seq<char>,
    payment: nat,
    receiver: Seq<char>,
    amount: nat,
)
    requires
        token.ledger.is_registered(receiver),
        token.ledger.balance_of(receiver) + amount <= u128::MAX,
        token.ledger.total_supply + amount <= u128::MAX,
    ensures
        token.mint(caller, payment, receiver, amount) is Ok <==> (caller == token.controller
            && payment == 1 && amount > 0),
        payment != 1 ==> token.mint(caller, payment, receiver, amount) == Err::<
            TokenModel,
            ContractError,
        >(ContractError::PaymentRequired),
        payment == 1 && caller != token.controller ==> token.mint(
            caller,
            payment,
            receiver,
            amount,
        ) == Err::<TokenModel, ContractError>(ContractError::Unauthorized),
        payment == 1 && caller == token.controller && amount == 0 ==> token.mint(
            caller,
            payment,
            receiver,
            amount,
        ) == Err::<TokenModel, ContractError>(ContractError::InvalidAmount),
        token.mint(caller, payment, receiver, amount) matches Ok(next) ==> {
            &&& next.ledger.balance_of(receiver) == token.ledger.balance_of(receiver) + amount
            &&& next.ledger.total_supply == token.ledger.total_supply + amount
            &&& next.controller == token.controller
            &&& next.metadata == token.metadata
            &&& forall|other: Seq<char>|
                other != receiver ==> #[trigger] next.ledger.balance_of(other)
                    == token.ledger.balance_of(other)
        },
{
}

/// A burn of a positive amount takes effect exactly when the caller holds at
/// least the amount and exactly one smallest unit of currency is attached. It
/// lowers the caller's balance and the supply by the amount and touches no
/// other balance.
pub proof fn law_burn(token: TokenModel, caller: Seq<char>, payment: nat, amount: nat)
    requires
        token.ledger.bounded(),
        amount > 0,
    ensures
        token.burn(caller, payment, amount) is Ok <==> (amount <= token.ledger.balance_of(caller)
            && payment == 1),
        token.burn(caller, payment, amount) matches Ok(next) ==> {
            &&& next.ledger.balance_of(caller) == token.ledger.balance_of(caller) - amount
            &&& next.ledger.total_supply == token.ledger.total_supply - amount
            &&& forall|other: Seq<char>|
                other != caller ==> #[trigger] next.ledger.balance_of(other)
                    == token.ledger.balance_of(other)
        },
{
    assert(token.ledger.balance_of(caller) <= token.ledger.total_supply);
}

/// Two sales of the same amount to the same buyer are two mints: the second
/// is not taken for a repetition of the first, and the buyer's balance and
/// the supply rise twice.
pub proof fn law_sales_add_up(token: TokenModel, machine: Seq<char>, buyer: Seq<char>, amount: nat)
    requires
        token.controller == machine,
        token.ledger.is_registered(buyer),
        amount > 0,
        token.ledger.balance_of(buyer) + 2 * (amount * DECIMAL) <= u128::MAX,
        token.ledger.total_supply + 2 * (amount * DECIMAL) <= u128::MAX,
    ensures
        token.mint(machine, 1, buyer, amount * DECIMAL as nat) matches Ok(once) && (once.mint(
            machine,
            1,
            buyer,
            amount * DECIMAL as nat,
        ) matches Ok(twice) && twice.ledger.balance_of(buyer) == token.ledger.balance_of(buyer) + 2
            * (amount * DECIMAL) && twice.ledger.total_supply == token.ledger.total_supply + 2 * (
        amount * DECIMAL) && once.ledger.balance_of(buyer) == token.ledger.balance_of(buyer)
            + amount * DECIMAL),
{
    assert(amount * DECIMAL > 0) by (nonlinear_arith)
        requires
            amount > 0,
            DECIMAL > 0,
    ;
}

/// A transfer that takes effect moves the amount from the sender to the
/// receiver, touches no other balance, and leaves the supply as it is.
pub proof fn law_transfer(
    token: TokenModel,
    sender: Seq<char>,
    payment: nat,
    receiver: Seq<char>,
    amount: nat,
)
    requires
        token.ledger.bounded(),
    ensures
        token.transfer(sender, payment, receiver, amount) matches Ok(next) ==> {
            &&& next.ledger.total_supply == token.ledger.total_supply
            &&& next.ledger.balance_of(sender) == token.ledger.balance_of(sender) - amount
            &&& next.ledger.balance_of(receiver) == token.ledger.balance_of(receiver) + amount
            &&& forall|other: Seq<char>|
                other != sender && other != receiver ==> #[trigger] next.ledger.balance_of(other)
                    == token.ledger.balance_of(other)
        },
{
    assert(token.ledger.balance_of(sender) <= token.ledger.total_supply);
}

/// The vending machine scales whole tokens by eight decimal places. So where
/// the token has eight decimal places too, the sentence after a sale names
/// the number of tokens that was asked for.
pub proof fn law_sale_names_whole_tokens(amount: nat)
    ensures
        pow10(8) == DECIMAL,
        whole_tokens(amount * DECIMAL as nat, 8) == amount,
{
    reveal_with_fuel(pow10, 9);
    assert(pow10(8) == 100_000_000);
    assert((amount * 100_000_000) / 100_000_000 == amount) by (nonlinear_arith);
}

} // verus!
