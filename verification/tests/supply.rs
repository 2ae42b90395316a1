use vending_machine::audit::AuditKind;
use vending_machine::context::CallContext;
use vending_machine::errors::ContractError;
use vending_machine::ledger::Ledger;
use vending_machine::metadata::FungibleTokenMetadata;
use vending_machine::supply::{Contract, OldContract};

fn call_from(caller: &str) -> CallContext {
    CallContext {
        current_account_id: "token".to_string(),
        signer_account_id: caller.to_string(),
        predecessor_account_id: caller.to_string(),
        attached_deposit: 0,
        prepaid_gas: 300_000_000_000_000,
        storage_byte_cost: 10_000_000_000_000_000_000,
        account_storage_usage: 125,
        state_exists: false,
    }
}

fn metadata_with(decimals: u8) -> FungibleTokenMetadata {
    FungibleTokenMetadata {
        spec: "ft-1.0.0".to_string(),
        name: "BOOM LABS UPGRADED TOKEN".to_string(),
        symbol: "BOOM".to_string(),
        icon: None,
        reference: None,
        reference_hash: None,
        decimals,
    }
}

#[test]
fn new_credits_the_owner_with_the_whole_supply() {
    for supply in [0u128, 1, 1_000_000, u128::MAX] {
        let (contract, record) =
            Contract::new(&call_from("carol"), "alice".to_string(), supply, metadata_with(8))
                .ok()
                .unwrap();
        assert_eq!(contract.ft_balance_of(&"alice".to_string()), supply);
        assert_eq!(contract.ft_total_supply(), supply);
        assert_eq!(contract.ft_balance_of(&"carol".to_string()), 0);
        assert_eq!(*contract.controller(), "carol");
        assert_eq!(record.kind, AuditKind::Mint);
        assert_eq!(record.owner_id, "alice");
        assert_eq!(record.amount, supply);
        assert_eq!(record.memo, "Initial tokens supply is minted");
    }
}

#[test]
fn new_is_refused_twice_or_with_bad_metadata() {
    let mut context = call_from("carol");
    let mut bad = metadata_with(8);
    bad.reference = Some("somewhere".to_string());
    let made = Contract::new(&context, "alice".to_string(), 5, bad);
    assert_eq!(made.err().map(|e| e), Some(ContractError::InvalidMetadata));
    context.state_exists = true;
    let made = Contract::new(&context, "alice".to_string(), 5, metadata_with(8));
    assert_eq!(made.err(), Some(ContractError::AlreadyInitialized));
}

#[test]
fn supply_token_mints_and_burns() {
    let (mut contract, _) =
        Contract::new(&call_from("carol"), "alice".to_string(), 100, metadata_with(8))
            .ok()
            .unwrap();
    let mut controller = call_from("carol");
    controller.attached_deposit = 1;
    let record = contract.ft_mint(&controller, "alice".to_string(), 11).unwrap();
    assert_eq!(record.memo, "Token for alice is minted");
    assert_eq!(contract.ft_balance_of(&"alice".to_string()), 111);
    let mut owner = call_from("alice");
    owner.attached_deposit = 1;
    assert_eq!(
        contract.ft_mint(&owner, "alice".to_string(), 11).err(),
        Some(ContractError::Unauthorized)
    );
    let record = contract.ft_burn(&owner, 110).unwrap();
    assert_eq!(record.memo, "alice's Token is burned");
    assert_eq!(contract.ft_balance_of(&"alice".to_string()), 1);
    assert_eq!(contract.ft_total_supply(), 1);
    assert_eq!(contract.ft_burn(&owner, 2).err(), Some(ContractError::InsufficientBalance));
    // the controller has no account
    assert_eq!(contract.ft_burn(&controller, 1).err(), Some(ContractError::InsufficientBalance));
    assert!(!contract.token().ledger().is_registered(&"carol".to_string()));
    assert_eq!(contract.ft_total_supply(), 1);
}

#[test]
fn supply_token_registers_and_releases_accounts() {
    let (mut contract, _) =
        Contract::new(&call_from("carol"), "alice".to_string(), 100, metadata_with(8))
            .ok()
            .unwrap();
    let mut bob = call_from("bob");
    bob.attached_deposit = 125 * 10_000_000_000_000_000_000 + 3;
    assert_eq!(contract.storage_deposit(&bob, None, None).unwrap().refund, 3);
    assert_eq!(contract.storage_deposit(&bob, None, None).unwrap().refund, bob.attached_deposit);
    bob.attached_deposit = 1;
    assert_eq!(
        contract.storage_unregister(&bob, None),
        Ok(Some(125 * 10_000_000_000_000_000_000 + 1))
    );
    let mut alice = call_from("alice");
    alice.attached_deposit = 1;
    assert_eq!(contract.storage_unregister(&alice, None), Err(ContractError::NonZeroBalance));
}

fn old_state() -> OldContract {
    let mut token = Ledger::new(125);
    token.open_account("alice".to_string()).unwrap();
    token.deposit(&"alice".to_string(), 77).unwrap();
    OldContract { token, metadata: metadata_with(8) }
}

#[test]
fn migrate_makes_the_unit_the_controller() {
    let contract = Contract::migrate(&call_from("token"), Some(old_state())).ok().unwrap();
    assert_eq!(*contract.controller(), "token");
    assert_eq!(contract.ft_balance_of(&"alice".to_string()), 77);
    assert_eq!(contract.ft_total_supply(), 77);
    assert_eq!(contract.ft_metadata().symbol, "BOOM");
}

#[test]
fn migrate_is_refused_to_strangers_and_without_state() {
    let made = Contract::migrate(&call_from("alice"), Some(old_state()));
    assert_eq!(made.err(), Some(ContractError::Unauthorized));
    let made = Contract::migrate(&call_from("token"), None);
    assert_eq!(made.err(), Some(ContractError::MigrationFailed));
    let made = Contract::migrate(&call_from("alice"), None);
    assert_eq!(made.err(), Some(ContractError::Unauthorized));
}

#[test]
fn migrate_metadata_changes_the_metadata_only() {
    let (old, _) = Contract::new(&call_from("carol"), "alice".to_string(), 100, metadata_with(8))
        .ok()
        .unwrap();
    let contract =
        Contract::migrate_metadata(&call_from("token"), Some(old), metadata_with(4)).ok().unwrap();
    assert_eq!(contract.ft_metadata().decimals, 4);
    assert_eq!(*contract.controller(), "carol");
    assert_eq!(contract.ft_balance_of(&"alice".to_string()), 100);
    assert_eq!(contract.ft_total_supply(), 100);
}

#[test]
fn migrate_metadata_is_refused_in_each_way() {
    let fresh = || {
        Contract::new(&call_from("carol"), "alice".to_string(), 100, metadata_with(8))
            .ok()
            .map(|made| made.0)
    };
    let made = Contract::migrate_metadata(&call_from("alice"), fresh(), metadata_with(4));
    assert_eq!(made.err(), Some(ContractError::Unauthorized));
    let made = Contract::migrate_metadata(&call_from("token"), None, metadata_with(4));
    assert_eq!(made.err(), Some(ContractError::MigrationFailed));
    let mut bad = metadata_with(4);
    bad.spec = "nft-1.0.0".to_string();
    let made = Contract::migrate_metadata(&call_from("token"), fresh(), bad);
    assert_eq!(made.err(), Some(ContractError::InvalidMetadata));
}
