//! The ways in which an operation of either unit can be refused.

use vstd::prelude::*;
use vstd::string::StringExecFns;

verus! {

/// Why an operation was refused. A refused operation changes nothing.
#[derive(Clone, Copy, Debug, PartialEq, Eq, Structural)]
pub enum ContractError {
    /// The caller lacks the authority that the operation asks for: a mint was
    /// called by another than the controller, or an operation that only the
    /// unit itself may call was called by another. `message` gives the
    /// sentence for the mint; `private_message` gives the one for an operation
    /// of the second kind.
    Unauthorized,
    /// The confirming payment of exactly one indivisible unit is missing or
    /// of another amount.
    PaymentRequired,
    /// The amount is zero.
    InvalidAmount,
    /// The account holds less than is to be taken from it.
    InsufficientBalance,
    /// Less was attached than the tokens asked for cost.
    InsufficientPayment,
    /// The account has no balance entry.
    AccountNotRegistered,
    /// The account has a balance entry already.
    AlreadyRegistered,
    /// The account still holds tokens.
    NonZeroBalance,
    /// Less was attached than a balance entry costs to store.
    InsufficientStorageDeposit,
    /// A balance, or the total supply, would leave the range of `u128`.
    BalanceOverflow,
    /// The budget at hand does not cover a remote call and its continuation.
    InsufficientBudget,
    /// The unit was constructed before.
    AlreadyInitialized,
    /// The metadata record is not well formed.
    InvalidMetadata,
    /// No earlier state could be read.
    MigrationFailed,
    /// Sender and receiver of a transfer are the same account.
    SelfTransfer,
    /// A continuation found no result, or more than one.
    CallbackFault,
}

/// The sentence for the refusal of an operation that only the unit itself may
/// call.
pub open spec fn private_text(operation: Seq<char>) -> Seq<char> {
    "Method "@ + operation + " is private"@
}

/// The sentence for the refusal, as `Unauthorized`, of an operation that only
/// the unit itself may call.
pub fn private_message(operation: &str) -> (sentence: String)
    ensures
        sentence@ == private_text(operation@),
{
    let mut sentence = String::from_str("Method ");
    sentence.append(operation);
    sentence.append(" is private");
    sentence
}

impl ContractError {
    /// The sentence that `message` returns for this refusal. For
    /// `Unauthorized` it is the sentence of the mint.
    pub open spec fn text(self) -> Seq<char> {
        match self {
            ContractError::Unauthorized => "Only controller can call mint"@,
            ContractError::PaymentRequired => "Requires attached deposit of exactly 1 yoctoNEAR"@,
            ContractError::InvalidAmount => "The amount should be a positive number"@,
            ContractError::InsufficientBalance => "The account doesn't have enough balance"@,
            ContractError::InsufficientPayment => "The attached deposit does not cover the amount"@,
            ContractError::AccountNotRegistered => "The account is not registered"@,
            ContractError::AlreadyRegistered => "The account is already registered"@,
            ContractError::NonZeroBalance => "Can't unregister the account with the positive balance"@,
            ContractError::InsufficientStorageDeposit => "The attached deposit is less than the minimum storage balance"@,
            ContractError::BalanceOverflow => "Balance overflow"@,
            ContractError::InsufficientBudget => "Not enough gas for the call and its callback"@,
            ContractError::AlreadyInitialized => "Already initialized"@,
            ContractError::InvalidMetadata => "The metadata is not valid"@,
            ContractError::MigrationFailed => "The previous state could not be read"@,
            ContractError::SelfTransfer => "Sender and receiver should be different"@,
            ContractError::CallbackFault => "Expected a result on the callback"@,
        }
    }

    /// A sentence for a person to read. For `Unauthorized` it is the sentence
    /// of the mint.
    pub fn message(&self) -> (sentence: String)
        ensures
            sentence@ == self.text(),
    {
        match self {
            ContractError::Unauthorized => String::from_str("Only controller can call mint"),
            ContractError::PaymentRequired => String::from_str(
                "Requires attached deposit of exactly 1 yoctoNEAR",
            ),
            ContractError::InvalidAmount => String::from_str(
                "The amount should be a positive number",
            ),
            ContractError::InsufficientBalance => String::from_str(
                "The account doesn't have enough balance",
            ),
            ContractError::InsufficientPayment => String::from_str(
                "The attached deposit does not cover the amount",
            ),
            ContractError::AccountNotRegistered => String::from_str("The account is not registered"),
            ContractError::AlreadyRegistered => String::from_str(
                "The account is already registered",
            ),
            ContractError::NonZeroBalance => String::from_str(
                "Can't unregister the account with the positive balance",
            ),
            ContractError::InsufficientStorageDeposit => String::from_str(
                "The attached deposit is less than the minimum storage balance",
            ),
            ContractError::BalanceOverflow => String::from_str("Balance overflow"),
            ContractError::InsufficientBudget => String::from_str(
                "Not enough gas for the call and its callback",
            ),
            ContractError::AlreadyInitialized => String::from_str("Already initialized"),
            ContractError::InvalidMetadata => String::from_str("The metadata is not valid"),
            ContractError::MigrationFailed => String::from_str(
                "The previous state could not be read",
            ),
            ContractError::SelfTransfer => String::from_str(
                "Sender and receiver should be different",
            ),
            ContractError::CallbackFault => String::from_str("Expected a result on the callback"),
        }
    }
}

} // verus!
