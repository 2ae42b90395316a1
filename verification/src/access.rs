//! The mint and burn access layer: who may change the supply, and how.
//!
//! Minting is reserved to one controller. Burning is open to every holder, from
//! the holder's own balance. Both ask for a payment of exactly one smallest
//! unit of currency, which only a deliberately signed call can attach.

use crate::audit::{AuditKind, AuditRecord, AuditView, TransferRecord, TransferView};
use crate::errors::ContractError;
use crate::ledger::{storage_bound, Ledger, LedgerState};
use crate::metadata::{FungibleTokenMetadata, MetadataView};
use crate::text::{burn_memo, burn_memo_text, mint_memo, mint_memo_text};
use vstd::prelude::*;

verus! {

/// The payment that confirms a deliberate call.
pub const ONE_YOCTO: u128 = 1;

/// What an account has paid for storage, and what of it can be taken back.
#[derive(Clone, Copy, Debug, PartialEq, Eq, Structural)]
pub struct StorageBalance {
    pub total: u128,
    pub available: u128,
}

/// The least and the most that an account can have paid for storage.
#[derive(Clone, Copy, Debug, PartialEq, Eq, Structural)]
pub struct StorageBalanceBounds {
    pub min: u128,
    pub max: Option<u128>,
}

/// What a storage deposit led to: the account's storage balance, and what of
/// the payment goes back to the payer.
#[derive(Clone, Copy, Debug, PartialEq, Eq, Structural)]
pub struct StorageReceipt {
    pub balance: StorageBalance,
    pub refund: u128,
}

/// A token as mathematics: its ledger, its metadata and its controller.
pub struct TokenModel {
    pub ledger: LedgerState,
    pub metadata: MetadataView,
    pub controller: Seq<char>,
}

/// The record that a mint leaves.
pub open spec fn mint_record(receiver: Seq<char>, amount: nat) -> AuditView {
    AuditView { kind: AuditKind::Mint, owner_id: receiver, amount, memo: mint_memo(receiver) }
}

/// The record that a burn leaves.
pub open spec fn burn_record(owner: Seq<char>, amount: nat) -> AuditView {
    AuditView { kind: AuditKind::Burn, owner_id: owner, amount, memo: burn_memo(owner) }
}

/// The record that a transfer leaves.
pub open spec fn transfer_record(
    sender: Seq<char>,
    receiver: Seq<char>,
    amount: nat,
    memo: Option<Seq<char>>,
) -> TransferView {
    TransferView { old_owner_id: sender, new_owner_id: receiver, amount, memo }
}

/// A storage price and the one unit that came with the call, held within
/// `u128`.
pub open spec fn release_refund(price: nat) -> nat {
    if price + 1 > u128::MAX {
        u128::MAX as nat
    } else {
        price + 1
    }
}

impl TokenModel {
    /// This token with another ledger.
    pub open spec fn with_ledger(self, ledger: LedgerState) -> TokenModel {
        TokenModel { ledger, metadata: self.metadata, controller: self.controller }
    }

    /// This token with another metadata record.
    pub open spec fn with_metadata(self, metadata: MetadataView) -> TokenModel {
        TokenModel { ledger: self.ledger, metadata, controller: self.controller }
    }

    /// Creates `amount` tokens for `receiver`, on the controller's call.
    pub open spec fn mint(self, caller: Seq<char>, payment: nat, receiver: Seq<char>, amount: nat)
        -> Result<TokenModel, ContractError> {
        if payment != 1 {
            Err(ContractError::PaymentRequired)
        } else if caller != self.controller {
            Err(ContractError::Unauthorized)
        } else if amount == 0 {
            Err(ContractError::InvalidAmount)
        } else {
            match self.ledger.deposit(receiver, amount) {
                Ok(ledger) => Ok(self.with_ledger(ledger)),
                Err(e) => Err(e),
            }
        }
    }

    /// Destroys `amount` tokens of the caller's own. A caller without an
    /// account holds nothing, so a burn by one is refused for want of balance.
    pub open spec fn burn(self, caller: Seq<char>, payment: nat, amount: nat) -> Result<
        TokenModel,
        ContractError,
    > {
        if payment != 1 {
            Err(ContractError::PaymentRequired)
        } else if amount == 0 {
            Err(ContractError::InvalidAmount)
        } else {
            match self.ledger.withdraw(caller, amount) {
                Ok(ledger) => Ok(self.with_ledger(ledger)),
                Err(e) => Err(e),
            }
        }
    }

    /// Moves `amount` tokens of the caller's own to another account.
    pub open spec fn transfer(self, sender: Seq<char>, payment: nat, receiver: Seq<char>, amount: nat)
        -> Result<TokenModel, ContractError> {
        if payment != 1 {
            Err(ContractError::PaymentRequired)
        } else if sender == receiver {
            Err(ContractError::SelfTransfer)
        } else if amount == 0 {
            Err(ContractError::InvalidAmount)
        } else {
            match self.ledger.transfer(sender, receiver, amount) {
                Ok(ledger) => Ok(self.with_ledger(ledger)),
                Err(e) => Err(e),
            }
        }
    }

    /// The account that a storage deposit is for: the one named, or the payer.
    pub open spec fn beneficiary(payer: Seq<char>, account: Option<Seq<char>>) -> Seq<char> {
        match account {
            Some(id) => id,
            None => payer,
        }
    }

    /// Registers the beneficiary against the payment. An account that is
    /// registered already stays as it is, and the whole payment goes back.
    /// With the new token comes what goes back to the payer.
    pub open spec fn storage_deposit(
        self,
        payer: Seq<char>,
        account: Option<Seq<char>>,
        payment: nat,
        byte_cost: nat,
    ) -> Result<(TokenModel, nat), ContractError> {
        let id = Self::beneficiary(payer, account);
        if self.ledger.is_registered(id) {
            Ok((self, payment))
        } else {
            match self.ledger.register(id, payment, byte_cost) {
                Ok((ledger, refund)) => Ok((self.with_ledger(ledger), refund)),
                Err(e) => Err(e),
            }
        }
    }

    /// Releases the caller's empty account. With the new token comes what
    /// goes back to the caller, or nothing where the caller had no account.
    pub open spec fn storage_unregister(self, caller: Seq<char>, payment: nat, byte_cost: nat)
        -> Result<(TokenModel, Option<nat>), ContractError> {
        if payment != 1 {
            Err(ContractError::PaymentRequired)
        } else {
            match self.ledger.unregister(caller, byte_cost) {
                Ok((ledger, Some(price))) => Ok(
                    (self.with_ledger(ledger), Some(release_refund(price))),
                ),
                Ok((ledger, None)) => Ok((self, None)),
                Err(e) => Err(e),
            }
        }
    }

    /// A registered caller may take back storage payment that is free, and
    /// none ever is.
    pub open spec fn storage_withdraw(self, caller: Seq<char>, payment: nat, amount: Option<nat>)
        -> Result<(), ContractError> {
        if payment != 1 {
            Err(ContractError::PaymentRequired)
        } else if !self.ledger.is_registered(caller) {
            Err(ContractError::AccountNotRegistered)
        } else if amount.is_some() && amount.unwrap() > 0 {
            Err(ContractError::InsufficientBalance)
        } else {
            Ok(())
        }
    }

    /// What a registered account has paid for storage.
    pub open spec fn storage_balance_of(self, id: Seq<char>, byte_cost: nat) -> Option<
        StorageBalance,
    > {
        if self.ledger.is_registered(id) {
            Some(
                StorageBalance {
                    total: storage_bound(byte_cost, self.ledger.account_storage_usage) as u128,
                    available: 0,
                },
            )
        } else {
            None
        }
    }
}

/// A token: its ledger, its metadata and the one account that may mint.
pub struct TokenCore {
    ledger: Ledger,
    metadata: FungibleTokenMetadata,
    controller: String,
}

impl View for TokenCore {
    type V = TokenModel;

    closed spec fn view(&self) -> TokenModel {
        TokenModel {
            ledger: self.ledger@,
            metadata: self.metadata@,
            controller: self.controller@,
        }
    }
}

impl TokenCore {
    /// The ledger inside is well formed.
    pub closed spec fn wf(&self) -> bool {
        self.ledger.wf()
    }

    /// In a well-formed token no account holds more than exists.
    pub proof fn lemma_bounded(&self)
        requires
            self.wf(),
        ensures
            self@.ledger.bounded(),
    {
        self.ledger.lemma_bounded();
    }

    /// A token made of its three parts.
    pub fn new(ledger: Ledger, metadata: FungibleTokenMetadata, controller: String) -> (token: Self)
        requires
            ledger.wf(),
        ensures
            token.wf(),
            token@ == (TokenModel {
                ledger: ledger@,
                metadata: metadata@,
                controller: controller@,
            }),
    {
        TokenCore { ledger, metadata, controller }
    }

    /// The account that may mint.
    pub fn controller(&self) -> (controller: &String)
        ensures
            controller@ == self@.controller,
    {
        &self.controller
    }

    /// The metadata record.
    pub fn metadata(&self) -> (metadata: &FungibleTokenMetadata)
        ensures
            metadata@ == self@.metadata,
    {
        &self.metadata
    }

    /// The ledger.
    pub fn ledger(&self) -> (ledger: &Ledger)
        requires
            self.wf(),
        ensures
            ledger.wf(),
            ledger@ == self@.ledger,
    {
        &self.ledger
    }

    /// Replaces the metadata record.
    pub fn set_metadata(&mut self, metadata: FungibleTokenMetadata)
        requires
            old(self).wf(),
        ensures
            final(self).wf(),
            final(self)@ == old(self)@.with_metadata(metadata@),
    {
        self.metadata = metadata;
    }

    /// What the account holds; nothing where it is not registered.
    pub fn balance_of(&self, id: &String) -> (balance: u128)
        requires
            self.wf(),
        ensures
            balance == self@.ledger.balance_of(id@),
    {
        self.ledger.balance_of(id)
    }

    /// The number of tokens in existence.
    pub fn total_supply(&self) -> (supply: u128)
        ensures
            supply == self@.ledger.total_supply,
    {
        self.ledger.total_supply()
    }

    /// Creates `amount` tokens for `receiver_id`. Only the controller may do
    /// so, with exactly one smallest unit of currency attached, and the amount
    /// must be positive. Returns the record of the mint.
    pub fn mint(&mut self, caller: &String, payment: u128, receiver_id: &String, amount: u128) -> (done:
        Result<AuditRecord, ContractError>)
        requires
            old(self).wf(),
        ensures
            final(self).wf(),
            match old(self)@.mint(caller@, payment as nat, receiver_id@, amount as nat) {
                Ok(next) => final(self)@ == next && (done matches Ok(record) && record@
                    == mint_record(receiver_id@, amount as nat)),
                Err(e) => done == Err::<AuditRecord, ContractError>(e) && final(self)@
                    == old(self)@,
            },
    {
        if payment != ONE_YOCTO {
            return Err(ContractError::PaymentRequired);
        }
        if !(*caller == self.controller) {
            return Err(ContractError::Unauthorized);
        }
        if amount == 0 {
            return Err(ContractError::InvalidAmount);
        }
        match self.ledger.deposit(receiver_id, amount) {
            Ok(()) => Ok(
                AuditRecord {
                    kind: AuditKind::Mint,
                    owner_id: receiver_id.clone(),
                    amount,
                    memo: mint_memo_text(receiver_id),
                },
            ),
            Err(e) => Err(e),
        }
    }

    /// Destroys `amount` tokens of the caller's own. The call must carry
    /// exactly one smallest unit of currency, the amount must be positive, and
    /// the caller must hold that much; a caller without an account holds
    /// nothing.
    /// Returns the record of the burn.
    pub fn burn(&mut self, caller: &String, payment: u128, amount: u128) -> (done: Result<
        AuditRecord,
        ContractError,
    >)
        requires
            old(self).wf(),
        ensures
            final(self).wf(),
            match old(self)@.burn(caller@, payment as nat, amount as nat) {
                Ok(next) => final(self)@ == next && (done matches Ok(record) && record@
                    == burn_record(caller@, amount as nat)),
                Err(e) => done == Err::<AuditRecord, ContractError>(e) && final(self)@
                    == old(self)@,
            },
    {
        if payment != ONE_YOCTO {
            return Err(ContractError::PaymentRequired);
        }
        if amount == 0 {
            return Err(ContractError::InvalidAmount);
        }
        match self.ledger.withdraw(caller, amount) {
            Ok(()) => Ok(
                AuditRecord {
                    kind: AuditKind::Burn,
                    owner_id: caller.clone(),
                    amount,
                    memo: burn_memo_text(caller),
                },
            ),
            Err(e) => Err(e),
        }
    }

    /// Moves `amount` tokens of the caller's own to `receiver_id`, which must
    /// be another account and registered. The call must carry exactly one
    /// smallest unit of currency, and the amount must be positive. Returns the
    /// record of the transfer, with the sender's note.
    pub fn transfer(
        &mut self,
        sender: &String,
        payment: u128,
        receiver_id: &String,
        amount: u128,
        memo: Option<String>,
    ) -> (done: Result<TransferRecord, ContractError>)
        requires
            old(self).wf(),
        ensures
            final(self).wf(),
            match old(self)@.transfer(sender@, payment as nat, receiver_id@, amount as nat) {
                Ok(next) => final(self)@ == next && (done matches Ok(record) && record@
                    == transfer_record(
                    sender@,
                    receiver_id@,
                    amount as nat,
                    crate::metadata::text_view(memo),
                )),
                Err(e) => done == Err::<TransferRecord, ContractError>(e) && final(self)@
                    == old(self)@,
            },
    {
        if payment != ONE_YOCTO {
            return Err(ContractError::PaymentRequired);
        }
        if *sender == *receiver_id {
            return Err(ContractError::SelfTransfer);
        }
        if amount == 0 {
            return Err(ContractError::InvalidAmount);
        }
        match self.ledger.transfer(sender, receiver_id, amount) {
            Ok(()) => Ok(
                TransferRecord {
                    old_owner_id: sender.clone(),
                    new_owner_id: receiver_id.clone(),
                    amount,
                    memo,
                },
            ),
            Err(e) => Err(e),
        }
    }

    /// The least and the most that an account can have paid for storage: both
    /// the price of one balance entry.
    pub fn storage_balance_bounds(&self, byte_cost: u128) -> (bounds: StorageBalanceBounds)
        ensures
            bounds.min == storage_bound(byte_cost as nat, self@.ledger.account_storage_usage),
            bounds.max == Some(bounds.min),
    {
        let price = self.ledger.storage_price(byte_cost);
        StorageBalanceBounds { min: price, max: Some(price) }
    }

    /// What a registered account has paid for storage.
    pub fn storage_balance_of(&self, id: &String, byte_cost: u128) -> (balance: Option<
        StorageBalance,
    >)
        requires
            self.wf(),
        ensures
            balance == self@.storage_balance_of(id@, byte_cost as nat),
    {
        if self.ledger.is_registered(id) {
            Some(StorageBalance { total: self.ledger.storage_price(byte_cost), available: 0 })
        } else {
            None
        }
    }

    /// Registers an account against a payment for its storage: the account
    /// named, or else the payer. An account that is registered already stays
    /// as it is and the whole payment goes back.
    pub fn storage_deposit(
        &mut self,
        payer: &String,
        account_id: Option<String>,
        payment: u128,
        byte_cost: u128,
    ) -> (done: Result<StorageReceipt, ContractError>)
        requires
            old(self).wf(),
        ensures
            final(self).wf(),
            match old(self)@.storage_deposit(
                payer@,
                crate::metadata::text_view(account_id),
                payment as nat,
                byte_cost as nat,
            ) {
                Ok((next, refund)) => final(self)@ == next && done == Ok::<
                    StorageReceipt,
                    ContractError,
                >(
                    StorageReceipt {
                        balance: StorageBalance {
                            total: storage_bound(
                                byte_cost as nat,
                                old(self)@.ledger.account_storage_usage,
                            ) as u128,
                            available: 0,
                        },
                        refund: refund as u128,
                    },
                ),
                Err(e) => done == Err::<StorageReceipt, ContractError>(e) && final(self)@
                    == old(self)@,
            },
    {
        let id = match account_id {
            Some(id) => id,
            None => payer.clone(),
        };
        let price = self.ledger.storage_price(byte_cost);
        let balance = StorageBalance { total: price, available: 0 };
        if self.ledger.is_registered(&id) {
            Ok(StorageReceipt { balance, refund: payment })
        } else {
            match self.ledger.register(id, payment, byte_cost) {
                Ok(refund) => Ok(StorageReceipt { balance, refund }),
                Err(e) => Err(e),
            }
        }
    }

    /// Releases the caller's account, which must hold nothing. Returns what
    /// goes back to the caller: the storage price and the unit that came with
    /// the call; `None` where the caller had no account.
    pub fn storage_unregister(&mut self, caller: &String, payment: u128, byte_cost: u128) -> (done:
        Result<Option<u128>, ContractError>)
        requires
            old(self).wf(),
        ensures
            final(self).wf(),
            match old(self)@.storage_unregister(caller@, payment as nat, byte_cost as nat) {
                Ok((next, Some(refund))) => final(self)@ == next && done == Ok::<
                    Option<u128>,
                    ContractError,
                >(Some(refund as u128)),
                Ok((next, None)) => final(self)@ == next && done == Ok::<
                    Option<u128>,
                    ContractError,
                >(None),
                Err(e) => done == Err::<Option<u128>, ContractError>(e) && final(self)@
                    == old(self)@,
            },
    {
        if payment != ONE_YOCTO {
            return Err(ContractError::PaymentRequired);
        }
        match self.ledger.unregister(caller, byte_cost) {
            Ok(Some(price)) => Ok(
                Some(
                    match price.checked_add(ONE_YOCTO) {
                        Some(refund) => refund,
                        None => u128::MAX,
                    },
                ),
            ),
            Ok(None) => Ok(None),
            Err(e) => Err(e),
        }
    }

    /// Takes back storage payment that is free. None ever is, so only a
    /// request for nothing is granted; it returns the caller's storage balance.
    pub fn storage_withdraw(
        &self,
        caller: &String,
        payment: u128,
        amount: Option<u128>,
        byte_cost: u128,
    ) -> (done: Result<StorageBalance, ContractError>)
        requires
            self.wf(),
        ensures
            match self@.storage_withdraw(
                caller@,
                payment as nat,
                match amount {
                    Some(a) => Some(a as nat),
                    None => None,
                },
            ) {
                Ok(()) => done == Ok::<StorageBalance, ContractError>(
                    self@.storage_balance_of(caller@, byte_cost as nat).unwrap(),
                ),
                Err(e) => done == Err::<StorageBalance, ContractError>(e),
            },
    {
        if payment != ONE_YOCTO {
            return Err(ContractError::PaymentRequired);
        }
        match self.storage_balance_of(caller, byte_cost) {
            None => Err(ContractError::AccountNotRegistered),
            Some(balance) => match amount {
                Some(a) => if a > 0 {
                    Err(ContractError::InsufficientBalance)
                } else {
                    Ok(balance)
                },
                None => Ok(balance),
            },
        }
    }
}

} // verus!
