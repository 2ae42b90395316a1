use vending_machine::context::CallContext;
use vending_machine::errors::ContractError;
use vending_machine::metadata::FungibleTokenMetadata;
use vending_machine::token::Contract;

const AMOUNT: u128 = 2_000_000_000;

// accounts: "alice", "bob", "charlie", "danny", "eugene", "fargo"
fn accounts(index: usize) -> String {
    ["alice", "bob", "charlie", "danny", "eugene", "fargo"][index].to_string()
}

fn get_context(predecessor_account_id: String) -> CallContext {
    CallContext {
        current_account_id: accounts(0),
        signer_account_id: predecessor_account_id.clone(),
        predecessor_account_id,
        attached_deposit: 0,
        prepaid_gas: 300_000_000_000_000,
        storage_byte_cost: 10_000_000_000_000_000_000,
        account_storage_usage: 125,
        state_exists: false,
    }
}

fn test_metadata() -> FungibleTokenMetadata {
    FungibleTokenMetadata {
        spec: "ft-1.0.0".to_string(),
        name: "BOOM LABS TEST Token".to_string(),
        symbol: "TEST".to_string(),
        icon: Some("".to_string()),
        reference: None,
        reference_hash: None,
        decimals: 8,
    }
}

fn registered_contract() -> (Contract, CallContext) {
    let mut context = get_context(accounts(2));
    let mut contract = Contract::new(&context, accounts(1), test_metadata()).unwrap();
    context.state_exists = true;
    context.attached_deposit = contract
        .token()
        .storage_balance_bounds(context.storage_byte_cost)
        .min;
    context.predecessor_account_id = accounts(1);
    // Paying for account registration, aka storage deposit
    let receipt = contract.storage_deposit(&context, None, None).unwrap();
    assert_eq!(receipt.refund, context.attached_deposit);
    (contract, context)
}

#[test]
fn test_new() {
    // current_account_id = "alice", signer_account_id = "bob"
    let context = get_context(accounts(1));
    let contract = Contract::new(&context, accounts(1), test_metadata()).unwrap();
    assert_eq!(*contract.controller(), "bob".to_string());
}

#[test]
fn test_mint() {
    let (mut contract, mut context) = registered_contract();
    context.attached_deposit = 1;
    context.predecessor_account_id = accounts(1);
    let mint_amount = AMOUNT;
    let string = contract.ft_mint(&context, accounts(1), mint_amount).unwrap().message;

    context.attached_deposit = 0;
    assert_eq!(contract.ft_balance_of(&accounts(1)), AMOUNT);
    assert_eq!(string, "20 tokens for bob are minted".to_string());
}

#[test]
#[should_panic(expected = "Only controller can call mint")]
fn test_mint_authority() {
    let (mut contract, mut context) = registered_contract();
    context.attached_deposit = 1;
    context.predecessor_account_id = accounts(2);
    let mint_amount = AMOUNT;
    if let Err(refusal) = contract.ft_mint(&context, accounts(1), mint_amount) {
        panic!("{}", refusal.message());
    }
}

#[test]
#[should_panic(expected = "Requires attached deposit of exactly 1 yoctoNEAR")]
fn test_mint_assert_one_yocto() {
    let (mut contract, mut context) = registered_contract();
    context.attached_deposit = 0;
    context.predecessor_account_id = accounts(2);
    let mint_amount = AMOUNT;
    if let Err(refusal) = contract.ft_mint(&context, accounts(1), mint_amount) {
        panic!("{}", refusal.message());
    }
}

#[test]
fn new_registers_the_owner_with_nothing() {
    let context = get_context(accounts(1));
    let contract = Contract::new(&context, accounts(1), test_metadata()).unwrap();
    assert!(contract.token().ledger().is_registered(&accounts(1)));
    assert!(!contract.token().ledger().is_registered(&accounts(2)));
    assert_eq!(contract.ft_balance_of(&accounts(1)), 0);
    assert_eq!(contract.ft_total_supply(), 0);
    assert_eq!(contract.ft_metadata().decimals, 8);
    assert_eq!(contract.ft_metadata().name, "BOOM LABS TEST Token");
}

#[test]
fn new_is_refused_on_a_unit_that_has_state() {
    let mut context = get_context(accounts(1));
    context.state_exists = true;
    let made = Contract::new(&context, accounts(1), test_metadata());
    assert_eq!(made.err(), Some(ContractError::AlreadyInitialized));
}

#[test]
fn new_is_refused_with_bad_metadata() {
    let context = get_context(accounts(1));
    let mut metadata = test_metadata();
    metadata.spec = "ft-2.0.0".to_string();
    let made = Contract::new(&context, accounts(1), metadata);
    assert_eq!(made.err(), Some(ContractError::InvalidMetadata));
}

#[test]
fn mint_by_a_stranger_changes_nothing() {
    let (mut contract, mut context) = registered_contract();
    context.attached_deposit = 1;
    context.predecessor_account_id = accounts(2);
    let done = contract.ft_mint(&context, accounts(1), AMOUNT);
    assert_eq!(done.err(), Some(ContractError::Unauthorized));
    assert_eq!(contract.ft_balance_of(&accounts(1)), 0);
    assert_eq!(contract.ft_total_supply(), 0);
}

#[test]
fn mint_without_the_confirming_payment_changes_nothing() {
    let (mut contract, mut context) = registered_contract();
    context.predecessor_account_id = accounts(1);
    for payment in [0u128, 2, u128::MAX] {
        context.attached_deposit = payment;
        let done = contract.ft_mint(&context, accounts(1), AMOUNT);
        assert_eq!(done.err(), Some(ContractError::PaymentRequired));
    }
    assert_eq!(contract.ft_balance_of(&accounts(1)), 0);
}

#[test]
fn payment_is_checked_before_authority_and_amount() {
    let (mut contract, mut context) = registered_contract();
    context.attached_deposit = 0;
    context.predecessor_account_id = accounts(2);
    let done = contract.ft_mint(&context, accounts(1), 0);
    assert_eq!(done.err(), Some(ContractError::PaymentRequired));
    context.attached_deposit = 1;
    let done = contract.ft_mint(&context, accounts(1), 0);
    assert_eq!(done.err(), Some(ContractError::Unauthorized));
}

#[test]
fn mint_of_nothing_is_refused() {
    let (mut contract, mut context) = registered_contract();
    context.attached_deposit = 1;
    context.predecessor_account_id = accounts(1);
    let done = contract.ft_mint(&context, accounts(1), 0);
    assert_eq!(done.err(), Some(ContractError::InvalidAmount));
}

#[test]
fn mint_for_an_unregistered_receiver_is_refused() {
    let (mut contract, mut context) = registered_contract();
    context.attached_deposit = 1;
    context.predecessor_account_id = accounts(1);
    let done = contract.ft_mint(&context, accounts(3), 5);
    assert_eq!(done.err(), Some(ContractError::AccountNotRegistered));
    assert_eq!(contract.ft_total_supply(), 0);
}

#[test]
fn mint_past_the_range_is_refused() {
    let (mut contract, mut context) = registered_contract();
    context.attached_deposit = 1;
    context.predecessor_account_id = accounts(1);
    assert!(contract.ft_mint(&context, accounts(1), u128::MAX).is_ok());
    let done = contract.ft_mint(&context, accounts(1), 1);
    assert_eq!(done.err(), Some(ContractError::BalanceOverflow));
    assert_eq!(contract.ft_balance_of(&accounts(1)), u128::MAX);
    assert_eq!(contract.ft_total_supply(), u128::MAX);
}

#[test]
fn mint_leaves_a_record() {
    let (mut contract, mut context) = registered_contract();
    context.attached_deposit = 1;
    context.predecessor_account_id = accounts(1);
    let minted = contract.ft_mint(&context, accounts(1), 150_000_000).unwrap();
    assert_eq!(minted.record.kind, vending_machine::audit::AuditKind::Mint);
    assert_eq!(minted.record.owner_id, "bob");
    assert_eq!(minted.record.amount, 150_000_000);
    assert_eq!(minted.record.memo, "Token for bob is minted");
    assert_eq!(minted.message, "1 tokens for bob are minted");
}

#[test]
fn mint_succeeds_exactly_for_controller_with_payment_and_positive_amount() {
    for caller in [accounts(1), accounts(2)] {
        for payment in [0u128, 1, 2] {
            for amount in [0u128, 7] {
                let (mut contract, mut context) = registered_contract();
                context.attached_deposit = payment;
                context.predecessor_account_id = caller.clone();
                let done = contract.ft_mint(&context, accounts(1), amount);
                let expected = caller == accounts(1) && payment == 1 && amount > 0;
                assert_eq!(done.is_ok(), expected);
                let balance = if expected { amount } else { 0 };
                assert_eq!(contract.ft_balance_of(&accounts(1)), balance);
            }
        }
    }
}

#[test]
fn burn_takes_from_the_callers_own_balance() {
    let (mut contract, mut context) = registered_contract();
    context.attached_deposit = 1;
    context.predecessor_account_id = accounts(1);
    contract.ft_mint(&context, accounts(1), 100).unwrap();
    let record = contract.ft_burn(&context, 30).unwrap();
    assert_eq!(record.kind, vending_machine::audit::AuditKind::Burn);
    assert_eq!(record.owner_id, "bob");
    assert_eq!(record.amount, 30);
    assert_eq!(record.memo, "bob's Token is burned");
    assert_eq!(contract.ft_balance_of(&accounts(1)), 70);
    assert_eq!(contract.ft_total_supply(), 70);
    assert!(contract.ft_burn(&context, 70).is_ok());
    assert_eq!(contract.ft_balance_of(&accounts(1)), 0);
}

#[test]
fn burn_is_refused_beyond_the_balance() {
    let (mut contract, mut context) = registered_contract();
    context.attached_deposit = 1;
    context.predecessor_account_id = accounts(1);
    contract.ft_mint(&context, accounts(1), 100).unwrap();
    assert_eq!(contract.ft_burn(&context, 101).err(), Some(ContractError::InsufficientBalance));
    assert_eq!(contract.ft_burn(&context, 0).err(), Some(ContractError::InvalidAmount));
    context.attached_deposit = 0;
    assert_eq!(contract.ft_burn(&context, 10).err(), Some(ContractError::PaymentRequired));
    context.attached_deposit = 1;
    context.predecessor_account_id = accounts(4);
    // a caller without an account holds nothing, and gets no account
    assert_eq!(contract.ft_burn(&context, 10).err(), Some(ContractError::InsufficientBalance));
    assert!(!contract.token().ledger().is_registered(&accounts(4)));
    assert_eq!(contract.ft_balance_of(&accounts(1)), 100);
    assert_eq!(contract.ft_total_supply(), 100);
}

#[test]
fn storage_deposit_registers_and_refunds_the_excess() {
    let (mut contract, mut context) = registered_contract();
    let price = 125 * 10_000_000_000_000_000_000u128;
    context.predecessor_account_id = accounts(2);
    context.attached_deposit = price + 5;
    let receipt = contract.storage_deposit(&context, None, None).unwrap();
    assert_eq!(receipt.refund, 5);
    assert_eq!(receipt.balance.total, price);
    assert_eq!(receipt.balance.available, 0);
    assert!(contract.token().ledger().is_registered(&accounts(2)));
    context.attached_deposit = price - 1;
    let done = contract.storage_deposit(&context, Some(accounts(3)), None);
    assert_eq!(done.err(), Some(ContractError::InsufficientStorageDeposit));
    assert!(!contract.token().ledger().is_registered(&accounts(3)));
    context.attached_deposit = price;
    assert_eq!(contract.storage_deposit(&context, Some(accounts(3)), None).unwrap().refund, 0);
    assert!(contract.token().ledger().is_registered(&accounts(3)));
}

#[test]
fn storage_unregister_releases_only_empty_accounts() {
    let (mut contract, mut context) = registered_contract();
    let price = 125 * 10_000_000_000_000_000_000u128;
    context.attached_deposit = 1;
    context.predecessor_account_id = accounts(1);
    contract.ft_mint(&context, accounts(1), 9).unwrap();
    assert_eq!(contract.storage_unregister(&context, None).err(), Some(ContractError::NonZeroBalance));
    contract.ft_burn(&context, 9).unwrap();
    assert_eq!(contract.storage_unregister(&context, None), Ok(Some(price + 1)));
    assert!(!contract.token().ledger().is_registered(&accounts(1)));
    assert_eq!(contract.storage_unregister(&context, None), Ok(None));
    context.attached_deposit = 0;
    assert_eq!(contract.storage_unregister(&context, None).err(), Some(ContractError::PaymentRequired));
}

#[test]
fn storage_withdraw_grants_only_nothing() {
    let (contract, context) = registered_contract();
    let price = 125 * 10_000_000_000_000_000_000u128;
    let token = contract.token();
    let bob = accounts(1);
    let byte_cost = context.storage_byte_cost;
    assert_eq!(token.storage_withdraw(&bob, 1, None, byte_cost).unwrap().total, price);
    assert_eq!(token.storage_withdraw(&bob, 1, Some(0), byte_cost).unwrap().available, 0);
    assert_eq!(
        token.storage_withdraw(&bob, 1, Some(1), byte_cost).err(),
        Some(ContractError::InsufficientBalance)
    );
    assert_eq!(
        token.storage_withdraw(&bob, 0, None, byte_cost).err(),
        Some(ContractError::PaymentRequired)
    );
    assert_eq!(
        token.storage_withdraw(&accounts(5), 1, None, byte_cost).err(),
        Some(ContractError::AccountNotRegistered)
    );
    assert_eq!(token.storage_balance_of(&accounts(5), byte_cost), None);
    assert_eq!(token.storage_balance_of(&bob, byte_cost).unwrap().total, price);
    let bounds = token.storage_balance_bounds(byte_cost);
    assert_eq!(bounds.min, price);
    assert_eq!(bounds.max, Some(price));
}

#[test]
fn burn_succeeds_exactly_within_the_balance_and_with_payment() {
    for held in [0u128, 1, 50] {
        for payment in [0u128, 1, 2] {
            for amount in [1u128, 49, 50, 51] {
                let (mut contract, mut context) = registered_contract();
                context.attached_deposit = 1;
                context.predecessor_account_id = accounts(1);
                if held > 0 {
                    contract.ft_mint(&context, accounts(1), held).unwrap();
                }
                context.attached_deposit = payment;
                let done = contract.ft_burn(&context, amount);
                let expected = amount <= held && payment == 1;
                assert_eq!(done.is_ok(), expected);
                let left = if expected { held - amount } else { held };
                assert_eq!(contract.ft_balance_of(&accounts(1)), left);
                assert_eq!(contract.ft_total_supply(), left);
            }
        }
    }
}

#[test]
fn transfer_moves_tokens_between_registered_accounts() {
    let (mut contract, mut context) = registered_contract();
    let price = 125 * 10_000_000_000_000_000_000u128;
    context.predecessor_account_id = accounts(2);
    context.attached_deposit = price;
    contract.storage_deposit(&context, None, None).unwrap();
    context.predecessor_account_id = accounts(1);
    context.attached_deposit = 1;
    contract.ft_mint(&context, accounts(1), 100).unwrap();
    let record =
        contract.ft_transfer(&context, accounts(2), 40, Some("rent".to_string())).unwrap();
    assert_eq!(record.old_owner_id, "bob");
    assert_eq!(record.new_owner_id, "charlie");
    assert_eq!(record.amount, 40);
    assert_eq!(record.memo, Some("rent".to_string()));
    assert_eq!(contract.ft_balance_of(&accounts(1)), 60);
    assert_eq!(contract.ft_balance_of(&accounts(2)), 40);
    assert_eq!(contract.ft_total_supply(), 100);
    assert!(contract.ft_transfer(&context, accounts(2), 60, None).is_ok());
    assert_eq!(contract.ft_balance_of(&accounts(1)), 0);
    assert_eq!(contract.ft_balance_of(&accounts(2)), 100);
}

#[test]
fn transfer_is_refused_in_each_way() {
    let (mut contract, mut context) = registered_contract();
    context.predecessor_account_id = accounts(1);
    context.attached_deposit = 1;
    contract.ft_mint(&context, accounts(1), 100).unwrap();
    let to = |contract: &mut Contract, context: &CallContext, receiver: usize, amount: u128| {
        contract.ft_transfer(context, accounts(receiver), amount, None).err()
    };
    // charlie has no account
    assert_eq!(to(&mut contract, &context, 2, 10), Some(ContractError::AccountNotRegistered));
    assert_eq!(to(&mut contract, &context, 1, 10), Some(ContractError::SelfTransfer));
    assert_eq!(to(&mut contract, &context, 2, 0), Some(ContractError::InvalidAmount));
    assert_eq!(to(&mut contract, &context, 2, 101), Some(ContractError::InsufficientBalance));
    context.attached_deposit = 0;
    assert_eq!(to(&mut contract, &context, 2, 10), Some(ContractError::PaymentRequired));
    context.attached_deposit = 1;
    context.predecessor_account_id = accounts(3);
    // danny has no account and so holds nothing
    assert_eq!(to(&mut contract, &context, 1, 10), Some(ContractError::InsufficientBalance));
    assert_eq!(contract.ft_balance_of(&accounts(1)), 100);
    assert_eq!(contract.ft_total_supply(), 100);
    assert!(!contract.token().ledger().is_registered(&accounts(2)));
    assert!(!contract.token().ledger().is_registered(&accounts(3)));
}

#[test]
fn storage_unregister_keeps_accounts_that_hold_tokens_whatever_force_says() {
    let (mut contract, mut context) = registered_contract();
    context.attached_deposit = 1;
    context.predecessor_account_id = accounts(1);
    contract.ft_mint(&context, accounts(1), 9).unwrap();
    for force in [None, Some(false), Some(true)] {
        assert_eq!(
            contract.storage_unregister(&context, force).err(),
            Some(ContractError::NonZeroBalance)
        );
    }
    assert_eq!(contract.ft_balance_of(&accounts(1)), 9);
    assert_eq!(contract.ft_total_supply(), 9);
}
