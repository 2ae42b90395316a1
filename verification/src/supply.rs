//! The token with an initial supply: its owner is credited when the token is
//! constructed, and whoever constructs it becomes the controller.

use crate::access::{
    burn_record, mint_record, transfer_record, StorageReceipt, TokenCore, TokenModel,
};
use crate::audit::{AuditKind, AuditRecord, AuditView, TransferRecord};
use crate::context::CallContext;
use crate::errors::ContractError;
use crate::ledger::{storage_bound, Ledger, LedgerState};
use crate::metadata::{text_view, FungibleTokenMetadata, MetadataView};
use vstd::prelude::*;
use vstd::string::StringExecFns;

verus! {

/// The state of a token under the layout that had no controller yet.
pub struct OldContract {
    pub token: Ledger,
    pub metadata: FungibleTokenMetadata,
}

/// The token as `new` leaves it: the owner is registered and holds the whole
/// supply, and the constructing caller is the controller.
pub open spec fn endowed_token(
    caller: Seq<char>,
    owner: Seq<char>,
    supply: nat,
    metadata: MetadataView,
    usage: nat,
) -> TokenModel {
    TokenModel {
        ledger: LedgerState {
            balances: Map::<Seq<char>, nat>::empty().insert(owner, supply),
            total_supply: supply,
            account_storage_usage: usage,
        },
        metadata,
        controller: caller,
    }
}

/// The record of the initial supply.
pub open spec fn endowment_record(owner: Seq<char>, supply: nat) -> AuditView {
    AuditView {
        kind: AuditKind::Mint,
        owner_id: owner,
        amount: supply,
        memo: "Initial tokens supply is minted"@,
    }
}

/// What `new` answers: a unit can be constructed once, and only with a
/// metadata record that is well formed.
pub open spec fn construct(
    ctx: CallContext,
    owner: Seq<char>,
    supply: nat,
    metadata: MetadataView,
) -> Result<TokenModel, ContractError> {
    if ctx.state_exists {
        Err(ContractError::AlreadyInitialized)
    } else if !metadata.valid() {
        Err(ContractError::InvalidMetadata)
    } else {
        Ok(
            endowed_token(
                ctx.predecessor_account_id@,
                owner,
                supply,
                metadata,
                ctx.account_storage_usage as nat,
            ),
        )
    }
}

/// What `migrate` answers, given the ledger and metadata that were read, if
/// any were: only the unit itself may migrate, and the caller becomes the
/// controller.
pub open spec fn migrated(ctx: CallContext, old: Option<(LedgerState, MetadataView)>) -> Result<
    TokenModel,
    ContractError,
> {
    if !ctx.is_self_call() {
        Err(ContractError::Unauthorized)
    } else {
        match old {
            None => Err(ContractError::MigrationFailed),
            Some((ledger, metadata)) => Ok(
                TokenModel { ledger, metadata, controller: ctx.predecessor_account_id@ },
            ),
        }
    }
}

/// What `migrate_metadata` answers, given the token that was read, if one was:
/// only the unit itself may migrate, and only the metadata record changes.
pub open spec fn migrated_metadata(
    ctx: CallContext,
    old: Option<TokenModel>,
    metadata: MetadataView,
) -> Result<TokenModel, ContractError> {
    if !ctx.is_self_call() {
        Err(ContractError::Unauthorized)
    } else {
        match old {
            None => Err(ContractError::MigrationFailed),
            Some(token) => if metadata.valid() {
                Ok(token.with_metadata(metadata))
            } else {
                Err(ContractError::InvalidMetadata)
            },
        }
    }
}

/// A fungible token with an initial supply and one controller.
pub struct Contract {
    token: TokenCore,
}

impl View for Contract {
    type V = TokenModel;

    closed spec fn view(&self) -> TokenModel {
        self.token@
    }
}

/// The ledger and metadata of an earlier state, if there is one.
pub open spec fn old_parts(old: Option<OldContract>) -> Option<(LedgerState, MetadataView)> {
    match old {
        Some(o) => Some((o.token@, o.metadata@)),
        None => None,
    }
}

/// The token of an earlier state, if there is one.
pub open spec fn old_token(old: Option<Contract>) -> Option<TokenModel> {
    match old {
        Some(o) => Some(o@),
        None => None,
    }
}

impl Contract {
    /// The token inside is well formed.
    pub closed spec fn wf(&self) -> bool {
        self.token.wf()
    }

    /// In a well-formed token no account holds more than exists.
    pub proof fn lemma_bounded(&self)
        requires
            self.wf(),
        ensures
            self@.ledger.bounded(),
    {
        self.token.lemma_bounded();
    }

    /// Takes over the state of a token that had no controller yet. Only the
    /// unit itself may do so; it becomes the controller.
    pub fn migrate(ctx: &CallContext, old: Option<OldContract>) -> (made: Result<
        Contract,
        ContractError,
    >)
        requires
            old matches Some(o) ==> o.token.wf(),
        ensures
            match migrated(*ctx, old_parts(old)) {
                Ok(token) => made matches Ok(contract) && contract.wf() && contract@ == token,
                Err(e) => made matches Err(refusal) && refusal == e,
            },
    {
        if !ctx.called_by_self() {
            return Err(ContractError::Unauthorized);
        }
        match old {
            None => Err(ContractError::MigrationFailed),
            Some(o) => Ok(
                Contract {
                    token: TokenCore::new(
                        o.token,
                        o.metadata,
                        ctx.predecessor_account_id.clone(),
                    ),
                },
            ),
        }
    }

    /// Takes over the state of a token and gives it another metadata record.
    /// Only the unit itself may do so.
    pub fn migrate_metadata(
        ctx: &CallContext,
        old: Option<Contract>,
        metadata: FungibleTokenMetadata,
    ) -> (made: Result<Contract, ContractError>)
        requires
            old matches Some(o) ==> o.wf(),
        ensures
            match migrated_metadata(*ctx, old_token(old), metadata@) {
                Ok(token) => made matches Ok(contract) && contract.wf() && contract@ == token,
                Err(e) => made matches Err(refusal) && refusal == e,
            },
    {
        if !ctx.called_by_self() {
            return Err(ContractError::Unauthorized);
        }
        match old {
            None => Err(ContractError::MigrationFailed),
            Some(o) => {
                if !metadata.is_valid() {
                    return Err(ContractError::InvalidMetadata);
                }
                let mut contract = o;
                contract.token.set_metadata(metadata);
                Ok(contract)
            },
        }
    }

    /// Constructs the token. The owner is registered and credited with the
    /// whole supply, and the caller becomes the controller. With the token
    /// comes the record of the initial supply.
    pub fn new(
        ctx: &CallContext,
        owner_id: String,
        total_supply: u128,
        metadata: FungibleTokenMetadata,
    ) -> (made: Result<(Contract, AuditRecord), ContractError>)
        ensures
            match construct(*ctx, owner_id@, total_supply as nat, metadata@) {
                Ok(token) => made matches Ok((contract, record)) && contract.wf() && contract@
                    == token && record@ == endowment_record(owner_id@, total_supply as nat)
                    && contract@.ledger.balance_of(owner_id@) == total_supply
                    && contract@.ledger.total_supply == total_supply,
                Err(e) => made matches Err(refusal) && refusal == e,
            },
    {
        if ctx.state_exists {
            return Err(ContractError::AlreadyInitialized);
        }
        if !metadata.is_valid() {
            return Err(ContractError::InvalidMetadata);
        }
        let mut ledger = Ledger::new(ctx.account_storage_usage);
        let opened = ledger.open_account(owner_id.clone());
        assert(opened is Ok);
        let credited = ledger.deposit(&owner_id, total_supply);
        assert(credited is Ok);
        assert(ledger@.balances =~= Map::<Seq<char>, nat>::empty().insert(
            owner_id@,
            total_supply as nat,
        ));
        let record = AuditRecord {
            kind: AuditKind::Mint,
            owner_id,
            amount: total_supply,
            memo: String::from_str("Initial tokens supply is minted"),
        };
        let token = TokenCore::new(ledger, metadata, ctx.predecessor_account_id.clone());
        Ok((Contract { token }, record))
    }

    /// Wraps a token that was held elsewhere.
    pub fn from_token(token: TokenCore) -> (contract: Contract)
        requires
            token.wf(),
        ensures
            contract.wf(),
            contract@ == token@,
    {
        Contract { token }
    }

    /// The token inside, for reading.
    pub fn token(&self) -> (token: &TokenCore)
        requires
            self.wf(),
        ensures
            token.wf(),
            token@ == self@,
    {
        &self.token
    }

    /// The account that may mint.
    pub fn controller(&self) -> (controller: &String)
        ensures
            controller@ == self@.controller,
    {
        self.token.controller()
    }

    /// Creates `amount` tokens for `receiver_id`. Only the controller may do
    /// so, with exactly one smallest unit of currency attached, and the amount
    /// must be positive. The receiver must be registered.
    pub fn ft_mint(&mut self, ctx: &CallContext, receiver_id: String, amount: u128) -> (done:
        Result<AuditRecord, ContractError>)
        requires
            old(self).wf(),
        ensures
            final(self).wf(),
            match old(self)@.mint(
                ctx.predecessor_account_id@,
                ctx.attached_deposit as nat,
                receiver_id@,
                amount as nat,
            ) {
                Ok(next) => final(self)@ == next && (done matches Ok(record) && record@
                    == mint_record(receiver_id@, amount as nat)),
                Err(e) => final(self)@ == old(self)@ && (done matches Err(refusal) && refusal
                    == e),
            },
    {
        self.token.mint(&ctx.predecessor_account_id, ctx.attached_deposit, &receiver_id, amount)
    }

    /// Destroys `amount` tokens of the caller's own. The call must carry
    /// exactly one smallest unit of currency, the amount must be positive, and
    /// the caller must hold that much; a caller without an account holds
    /// nothing.
    pub fn ft_burn(&mut self, ctx: &CallContext, amount: u128) -> (done: Result<
        AuditRecord,
        ContractError,
    >)
        requires
            old(self).wf(),
        ensures
            final(self).wf(),
            match old(self)@.burn(
                ctx.predecessor_account_id@,
                ctx.attached_deposit as nat,
                amount as nat,
            ) {
                Ok(next) => final(self)@ == next && (done matches Ok(record) && record@
                    == burn_record(ctx.predecessor_account_id@, amount as nat)),
                Err(e) => final(self)@ == old(self)@ && (done matches Err(refusal) && refusal
                    == e),
            },
    {
        self.token.burn(&ctx.predecessor_account_id, ctx.attached_deposit, amount)
    }

    /// Moves `amount` tokens of the caller's own to `receiver_id`, which must
    /// be another account and registered. The call must carry exactly one
    /// smallest unit of currency, and the amount must be positive.
    pub fn ft_transfer(
        &mut self,
        ctx: &CallContext,
        receiver_id: String,
        amount: u128,
        memo: Option<String>,
    ) -> (done: Result<TransferRecord, ContractError>)
        requires
            old(self).wf(),
        ensures
            final(self).wf(),
            match old(self)@.transfer(
                ctx.predecessor_account_id@,
                ctx.attached_deposit as nat,
                receiver_id@,
                amount as nat,
            ) {
                Ok(next) => final(self)@ == next && (done matches Ok(record) && record@
                    == transfer_record(
                    ctx.predecessor_account_id@,
                    receiver_id@,
                    amount as nat,
                    text_view(memo),
                )),
                Err(e) => final(self)@ == old(self)@ && (done matches Err(refusal) && refusal
                    == e),
            },
    {
        self.token.transfer(
            &ctx.predecessor_account_id,
            ctx.attached_deposit,
            &receiver_id,
            amount,
            memo,
        )
    }

    /// What the account holds; nothing where it is not registered.
    pub fn ft_balance_of(&self, account_id: &String) -> (balance: u128)
        requires
            self.wf(),
        ensures
            balance == self@.ledger.balance_of(account_id@),
    {
        self.token.balance_of(account_id)
    }

    /// The number of tokens in existence.
    pub fn ft_total_supply(&self) -> (supply: u128)
        ensures
            supply == self@.ledger.total_supply,
    {
        self.token.total_supply()
    }

    /// The metadata record.
    pub fn ft_metadata(&self) -> (metadata: FungibleTokenMetadata)
        ensures
            metadata@ == self@.metadata,
    {
        self.token.metadata().duplicate()
    }

    /// Registers an account against the attached payment: the account named,
    /// or else the caller. An account that is registered already stays as it
    /// is and the whole payment goes back. Every deposit registers and no
    /// more, whatever `registration_only` says.
    pub fn storage_deposit(
        &mut self,
        ctx: &CallContext,
        account_id: Option<String>,
        registration_only: Option<bool>,
    ) -> (done: Result<StorageReceipt, ContractError>)
        requires
            old(self).wf(),
        ensures
            final(self).wf(),
            match old(self)@.storage_deposit(
                ctx.predecessor_account_id@,
                text_view(account_id),
                ctx.attached_deposit as nat,
                ctx.storage_byte_cost as nat,
            ) {
                Ok((next, refund)) => final(self)@ == next && (done matches Ok(receipt)
                    && receipt.refund == refund && receipt.balance.available == 0
                    && receipt.balance.total == storage_bound(
                    ctx.storage_byte_cost as nat,
                    old(self)@.ledger.account_storage_usage,
                )),
                Err(e) => final(self)@ == old(self)@ && (done matches Err(refusal) && refusal
                    == e),
            },
    {
        self.token.storage_deposit(
            &ctx.predecessor_account_id,
            account_id,
            ctx.attached_deposit,
            ctx.storage_byte_cost,
        )
    }

    /// Releases the caller's account, which must hold nothing. Returns what
    /// goes back to the caller; `None` where the caller had no account. An
    /// account that holds tokens is never released, whatever `force` says.
    pub fn storage_unregister(&mut self, ctx: &CallContext, force: Option<bool>) -> (done: Result<
        Option<u128>,
        ContractError,
    >)
        requires
            old(self).wf(),
        ensures
            final(self).wf(),
            match old(self)@.storage_unregister(
                ctx.predecessor_account_id@,
                ctx.attached_deposit as nat,
                ctx.storage_byte_cost as nat,
            ) {
                Ok((next, Some(refund))) => final(self)@ == next && done == Ok::<
                    Option<u128>,
                    ContractError,
                >(Some(refund as u128)),
                Ok((next, None)) => final(self)@ == next && done == Ok::<
                    Option<u128>,
                    ContractError,
                >(None),
                Err(e) => final(self)@ == old(self)@ && done == Err::<Option<u128>, ContractError>(
                    e,
                ),
            },
    {
        self.token.storage_unregister(
            &ctx.predecessor_account_id,
            ctx.attached_deposit,
            ctx.storage_byte_cost,
        )
    }
}

} // verus!
