//! The token that the vending machine sells: a ledger whose controller is its
//! owner, and whose mint answers with a sentence for the receiver.

use crate::access::{
    burn_record, mint_record, transfer_record, StorageReceipt, TokenCore, TokenModel,
};
use crate::audit::{AuditRecord, TransferRecord};
use crate::context::CallContext;
use crate::errors::ContractError;
use crate::ledger::{storage_bound, Ledger, LedgerState};
use crate::metadata::{text_view, FungibleTokenMetadata, MetadataView};
use crate::text::{confirmation, confirmation_text, whole_tokens, whole_units};
use vstd::prelude::*;

verus! {

/// What a mint hands back: the record of it, and the sentence for the receiver.
#[derive(Clone, Debug)]
pub struct Minted {
    pub record: AuditRecord,
    pub message: String,
}

/// The token as `new` leaves it: the owner is registered, holds nothing, and
/// is the controller.
pub open spec fn fresh_token(owner: Seq<char>, metadata: MetadataView, usage: nat) -> TokenModel {
    TokenModel {
        ledger: LedgerState {
            balances: Map::<Seq<char>, nat>::empty().insert(owner, 0),
            total_supply: 0,
            account_storage_usage: usage,
        },
        metadata,
        controller: owner,
    }
}

/// What `new` answers: a unit can be constructed once, and only with a
/// metadata record that is well formed.
pub open spec fn construct(
    state_exists: bool,
    owner: Seq<char>,
    metadata: MetadataView,
    usage: nat,
) -> Result<TokenModel, ContractError> {
    if state_exists {
        Err(ContractError::AlreadyInitialized)
    } else if !metadata.valid() {
        Err(ContractError::InvalidMetadata)
    } else {
        Ok(fresh_token(owner, metadata, usage))
    }
}

/// The sentence that a mint of `amount` smallest units answers with.
pub open spec fn mint_message(token: TokenModel, receiver: Seq<char>, amount: nat) -> Seq<char> {
    confirmation(whole_tokens(amount, token.metadata.decimals), receiver)
}

/// A fungible token with one controller.
pub struct Contract {
    token: TokenCore,
}

impl View for Contract {
    type V = TokenModel;

    closed spec fn view(&self) -> TokenModel {
        self.token@
    }
}

impl Contract {
    /// The token inside is well formed.
    pub closed spec fn wf(&self) -> bool {
        self.token.wf()
    }

    /// In a well-formed token no account holds more than exists.
    pub proof fn lemma_bounded(&self)
        requires
            self.wf(),
        ensures
            self@.ledger.bounded(),
    {
        self.token.lemma_bounded();
    }

    /// Constructs the token. The owner is registered with a zero balance and
    /// becomes the controller.
    pub fn new(ctx: &CallContext, owner_id: String, metadata: FungibleTokenMetadata) -> (made:
        Result<Contract, ContractError>)
        ensures
            match construct(
                ctx.state_exists,
                owner_id@,
                metadata@,
                ctx.account_storage_usage as nat,
            ) {
                Ok(token) => made matches Ok(contract) && contract.wf() && contract@ == token
                    && contract@.ledger.balance_of(owner_id@) == 0
                    && contract@.ledger.total_supply == 0,
                Err(e) => made matches Err(refusal) && refusal == e,
            },
    {
        if ctx.state_exists {
            return Err(ContractError::AlreadyInitialized);
        }
        if !metadata.is_valid() {
            return Err(ContractError::InvalidMetadata);
        }
        let mut ledger = Ledger::new(ctx.account_storage_usage);
        let controller = owner_id.clone();
        let opened = ledger.open_account(owner_id);
        assert(opened is Ok);
        Ok(Contract { token: TokenCore::new(ledger, metadata, controller) })
    }

    /// Wraps a token that was held elsewhere.
    pub fn from_token(token: TokenCore) -> (contract: Contract)
        requires
            token.wf(),
        ensures
            contract.wf(),
            contract@ == token@,
    {
        Contract { token }
    }

    /// The token inside, for reading.
    pub fn token(&self) -> (token: &TokenCore)
        requires
            self.wf(),
        ensures
            token.wf(),
            token@ == self@,
    {
        &self.token
    }

    /// The account that may mint.
    pub fn controller(&self) -> (controller: &String)
        ensures
            controller@ == self@.controller,
    {
        self.token.controller()
    }

    /// Creates `amount` tokens for `receiver_id`. Only the controller may do
    /// so, with exactly one smallest unit of currency attached, and the amount
    /// must be positive. The receiver must be registered.
    pub fn ft_mint(&mut self, ctx: &CallContext, receiver_id: String, amount: u128) -> (done:
        Result<Minted, ContractError>)
        requires
            old(self).wf(),
        ensures
            final(self).wf(),
            match old(self)@.mint(
                ctx.predecessor_account_id@,
                ctx.attached_deposit as nat,
                receiver_id@,
                amount as nat,
            ) {
                Ok(next) => final(self)@ == next && (done matches Ok(minted) && minted.record@
                    == mint_record(receiver_id@, amount as nat) && minted.message@
                    == mint_message(old(self)@, receiver_id@, amount as nat)),
                Err(e) => final(self)@ == old(self)@ && (done matches Err(refusal) && refusal
                    == e),
            },
    {
        match self.token.mint(&ctx.predecessor_account_id, ctx.attached_deposit, &receiver_id, amount) {
            Ok(record) => {
                let tokens = whole_units(amount, self.token.metadata().decimals);
                let message = confirmation_text(tokens, &receiver_id);
                Ok(Minted { record, message })
            },
            Err(e) => Err(e),
        }
    }

    /// Destroys `amount` tokens of the caller's own. The call must carry
    /// exactly one smallest unit of currency, the amount must be positive, and
    /// the caller must hold that much; a caller without an account holds
    /// nothing.
    pub fn ft_burn(&mut self, ctx: &CallContext, amount: u128) -> (done: Result<
        AuditRecord,
        ContractError,
    >)
        requires
            old(self).wf(),
        ensures
            final(self).wf(),
            match old(self)@.burn(
                ctx.predecessor_account_id@,
                ctx.attached_deposit as nat,
                amount as nat,
            ) {
                Ok(next) => final(self)@ == next && (done matches Ok(record) && record@
                    == burn_record(ctx.predecessor_account_id@, amount as nat)),
                Err(e) => final(self)@ == old(self)@ && (done matches Err(refusal) && refusal
                    == e),
            },
    {
        self.token.burn(&ctx.predecessor_account_id, ctx.attached_deposit, amount)
    }

    /// Moves `amount` tokens of the caller's own to `receiver_id`, which must
    /// be another account and registered. The call must carry exactly one
    /// smallest unit of currency, and the amount must be positive.
    pub fn ft_transfer(
        &mut self,
        ctx: &CallContext,
        receiver_id: String,
        amount: u128,
        memo: Option<String>,
    ) -> (done: Result<TransferRecord, ContractError>)
        requires
            old(self).wf(),
        ensures
            final(self).wf(),
            match old(self)@.transfer(
                ctx.predecessor_account_id@,
                ctx.attached_deposit as nat,
                receiver_id@,
                amount as nat,
            ) {
                Ok(next) => final(self)@ == next && (done matches Ok(record) && record@
                    == transfer_record(
                    ctx.predecessor_account_id@,
                    receiver_id@,
                    amount as nat,
                    text_view(memo),
                )),
                Err(e) => final(self)@ == old(self)@ && (done matches Err(refusal) && refusal
                    == e),
            },
    {
        self.token.transfer(
            &ctx.predecessor_account_id,
            ctx.attached_deposit,
            &receiver_id,
            amount,
            memo,
        )
    }

    /// What the account holds; nothing where it is not registered.
    pub fn ft_balance_of(&self, account_id: &String) -> (balance: u128)
        requires
            self.wf(),
        ensures
            balance == self@.ledger.balance_of(account_id@),
    {
        self.token.balance_of(account_id)
    }

    /// The number of tokens in existence.
    pub fn ft_total_supply(&self) -> (supply: u128)
        ensures
            supply == self@.ledger.total_supply,
    {
        self.token.total_supply()
    }

    /// The metadata record.
    pub fn ft_metadata(&self) -> (metadata: FungibleTokenMetadata)
        ensures
            metadata@ == self@.metadata,
    {
        self.token.metadata().duplicate()
    }

    /// Registers an account against the attached payment: the account named,
    /// or else the caller. An account that is registered already stays as it
    /// is and the whole payment goes back. Every deposit registers and no
    /// more, whatever `registration_only` says.
    pub fn storage_deposit(
        &mut self,
        ctx: &CallContext,
        account_id: Option<String>,
        registration_only: Option<bool>,
    ) -> (done: Result<StorageReceipt, ContractError>)
        requires
            old(self).wf(),
        ensures
            final(self).wf(),
            match old(self)@.storage_deposit(
                ctx.predecessor_account_id@,
                text_view(account_id),
                ctx.attached_deposit as nat,
                ctx.storage_byte_cost as nat,
            ) {
                Ok((next, refund)) => final(self)@ == next && (done matches Ok(receipt)
                    && receipt.refund == refund && receipt.balance.available == 0
                    && receipt.balance.total == storage_bound(
                    ctx.storage_byte_cost as nat,
                    old(self)@.ledger.account_storage_usage,
                )),
                Err(e) => final(self)@ == old(self)@ && (done matches Err(refusal) && refusal
                    == e),
            },
    {
        self.token.storage_deposit(
            &ctx.predecessor_account_id,
            account_id,
            ctx.attached_deposit,
            ctx.storage_byte_cost,
        )
    }

    /// Releases the caller's account, which must hold nothing. Returns what
    /// goes back to the caller; `None` where the caller had no account. An
    /// account that holds tokens is never released, whatever `force` says.
    pub fn storage_unregister(&mut self, ctx: &CallContext, force: Option<bool>) -> (done: Result<
        Option<u128>,
        ContractError,
    >)
        requires
            old(self).wf(),
        ensures
            final(self).wf(),
            match old(self)@.storage_unregister(
                ctx.predecessor_account_id@,
                ctx.attached_deposit as nat,
                ctx.storage_byte_cost as nat,
            ) {
                Ok((next, Some(refund))) => final(self)@ == next && done == Ok::<
                    Option<u128>,
                    ContractError,
                >(Some(refund as u128)),
                Ok((next, None)) => final(self)@ == next && done == Ok::<
                    Option<u128>,
                    ContractError,
                >(None),
                Err(e) => final(self)@ == old(self)@ && done == Err::<Option<u128>, ContractError>(
                    e,
                ),
            },
    {
        self.token.storage_unregister(
            &ctx.predecessor_account_id,
            ctx.attached_deposit,
            ctx.storage_byte_cost,
        )
    }
}

} // verus!
