//! The accounting core: who holds how many tokens.
//!
//! A ledger is changed only by registering an account, depositing into one,
//! withdrawing from one and releasing one. Every operation either takes effect
//! as a whole or is refused and leaves the ledger as it was.

use crate::errors::ContractError;
use vstd::prelude::*;

verus! {

/// A ledger as mathematics: the balance of every registered account, the
/// number of tokens in existence, and the bytes that one balance entry takes.
pub struct LedgerState {
    pub balances: Map<Seq<char>, nat>,
    pub total_supply: nat,
    pub account_storage_usage: nat,
}

/// The price of storing one balance entry: the bytes it takes at the price of
/// one byte, held within `u128`.
pub open spec fn storage_bound(byte_cost: nat, usage: nat) -> nat {
    if byte_cost * usage > u128::MAX {
        u128::MAX as nat
    } else {
        byte_cost * usage
    }
}

impl LedgerState {
    /// The ledger without accounts.
    pub open spec fn empty(usage: nat) -> LedgerState {
        LedgerState { balances: Map::empty(), total_supply: 0, account_storage_usage: usage }
    }

    pub open spec fn is_registered(self, id: Seq<char>) -> bool {
        self.balances.dom().contains(id)
    }

    /// What the account holds; nothing where it is not registered.
    pub open spec fn balance_of(self, id: Seq<char>) -> nat {
        if self.is_registered(id) {
            self.balances[id]
        } else {
            0
        }
    }

    /// This ledger with another balance map and supply.
    pub open spec fn with(self, balances: Map<Seq<char>, nat>, total_supply: nat) -> LedgerState {
        LedgerState { balances, total_supply, account_storage_usage: self.account_storage_usage }
    }

    /// No balance exceeds the supply, and the supply fits `u128`.
    pub open spec fn bounded(self) -> bool {
        &&& self.total_supply <= u128::MAX
        &&& forall|id: Seq<char>| #[trigger] self.balance_of(id) <= self.total_supply
    }

    /// A zero balance entry for an account that has none.
    pub open spec fn open_account(self, id: Seq<char>) -> Result<LedgerState, ContractError> {
        if self.is_registered(id) {
            Err(ContractError::AlreadyRegistered)
        } else {
            Ok(self.with(self.balances.insert(id, 0), self.total_supply))
        }
    }

    /// A zero balance entry paid for by `payment`; with the new ledger comes
    /// what is handed back of the payment.
    pub open spec fn register(self, id: Seq<char>, payment: nat, byte_cost: nat) -> Result<
        (LedgerState, nat),
        ContractError,
    > {
        let price = storage_bound(byte_cost, self.account_storage_usage);
        if self.is_registered(id) {
            Err(ContractError::AlreadyRegistered)
        } else if payment < price {
            Err(ContractError::InsufficientStorageDeposit)
        } else {
            Ok(
                (
                    self.with(self.balances.insert(id, 0), self.total_supply),
                    (payment - price) as nat,
                ),
            )
        }
    }

    pub open spec fn deposit(self, id: Seq<char>, amount: nat) -> Result<
        LedgerState,
        ContractError,
    > {
        if !self.is_registered(id) {
            Err(ContractError::AccountNotRegistered)
        } else if self.balances[id] + amount > u128::MAX || self.total_supply + amount
            > u128::MAX {
            Err(ContractError::BalanceOverflow)
        } else {
            Ok(
                self.with(
                    self.balances.insert(id, self.balances[id] + amount),
                    self.total_supply + amount,
                ),
            )
        }
    }

    /// Takes `amount` from what the account holds. The one refusal is for an
    /// amount that the balance does not cover; an account without an entry
    /// holds nothing, and taking nothing from it leaves the ledger as it is.
    pub open spec fn withdraw(self, id: Seq<char>, amount: nat) -> Result<
        LedgerState,
        ContractError,
    > {
        if self.balance_of(id) < amount {
            Err(ContractError::InsufficientBalance)
        } else if !self.is_registered(id) {
            Ok(self)
        } else {
            Ok(
                self.with(
                    self.balances.insert(id, (self.balances[id] - amount) as nat),
                    (self.total_supply - amount) as nat,
                ),
            )
        }
    }

    /// Moves `amount` from one account to another: a withdrawal, then a
    /// deposit.
    pub open spec fn transfer(self, sender: Seq<char>, receiver: Seq<char>, amount: nat) -> Result<
        LedgerState,
        ContractError,
    > {
        match self.withdraw(sender, amount) {
            Ok(lowered) => lowered.deposit(receiver, amount),
            Err(e) => Err(e),
        }
    }

    /// Releases an empty account; with the new ledger comes the storage price
    /// that is handed back, or nothing where the account had no entry.
    pub open spec fn unregister(self, id: Seq<char>, byte_cost: nat) -> Result<
        (LedgerState, Option<nat>),
        ContractError,
    > {
        if !self.is_registered(id) {
            Ok((self, None))
        } else if self.balances[id] != 0 {
            Err(ContractError::NonZeroBalance)
        } else {
            Ok(
                (
                    self.with(self.balances.remove(id), self.total_supply),
                    Some(storage_bound(byte_cost, self.account_storage_usage)),
                ),
            )
        }
    }
}

/// The account names, each as its characters.
pub open spec fn keys(ids: Seq<String>) -> Seq<Seq<char>> {
    ids.map_values(|s: String| s@)
}

/// Where in `keys` the name `id` stands.
pub open spec fn slot(keys: Seq<Seq<char>>, id: Seq<char>) -> int {
    choose|i: int| 0 <= i < keys.len() && keys[i] == id
}

/// The balance map that names and amounts, taken pairwise, stand for.
pub open spec fn book(keys: Seq<Seq<char>>, amounts: Seq<u128>) -> Map<Seq<char>, nat> {
    Map::new(|id: Seq<char>| keys.contains(id), |id: Seq<char>| amounts[slot(keys, id)] as nat)
}

/// All amounts added up.
pub open spec fn sum(amounts: Seq<u128>) -> nat
    decreases amounts.len(),
{
    if amounts.len() == 0 {
        0
    } else {
        sum(amounts.drop_last()) + amounts.last() as nat
    }
}

proof fn lemma_sum_push(s: Seq<u128>, x: u128)
    ensures
        sum(s.push(x)) == sum(s) + x,
{
    assert(s.push(x).drop_last() =~= s);
}

proof fn lemma_sum_update(s: Seq<u128>, i: int, x: u128)
    requires
        0 <= i < s.len(),
    ensures
        sum(s.update(i, x)) == sum(s) - s[i] + x,
    decreases s.len(),
{
    if i == s.len() - 1 {
        assert(s.update(i, x).drop_last() =~= s.drop_last());
    } else {
        lemma_sum_update(s.drop_last(), i, x);
        assert(s.update(i, x).drop_last() =~= s.drop_last().update(i, x));
    }
}

proof fn lemma_sum_remove(s: Seq<u128>, i: int)
    requires
        0 <= i < s.len(),
    ensures
        sum(s.remove(i)) == sum(s) - s[i],
    decreases s.len(),
{
    if i == s.len() - 1 {
        assert(s.remove(i) =~= s.drop_last());
    } else {
        lemma_sum_remove(s.drop_last(), i);
        assert(s.remove(i).drop_last() =~= s.drop_last().remove(i));
        assert(s.remove(i).last() == s.last());
    }
}

proof fn lemma_sum_bound(s: Seq<u128>, i: int)
    requires
        0 <= i < s.len(),
    ensures
        s[i] <= sum(s),
    decreases s.len(),
{
    if i < s.len() - 1 {
        lemma_sum_bound(s.drop_last(), i);
    }
}

proof fn lemma_sum_prefix(s: Seq<u128>, i: int)
    requires
        0 <= i <= s.len(),
    ensures
        sum(s.take(i)) <= sum(s),
        i < s.len() ==> sum(s.take(i + 1)) == sum(s.take(i)) + s[i],
    decreases s.len() - i,
{
    if i < s.len() {
        assert(s.take(i + 1).drop_last() =~= s.take(i));
        lemma_sum_prefix(s, i + 1);
    } else {
        assert(s.take(i) =~= s);
    }
}

proof fn lemma_slot(keys: Seq<Seq<char>>, i: int)
    requires
        keys.no_duplicates(),
        0 <= i < keys.len(),
    ensures
        keys.contains(keys[i]),
        slot(keys, keys[i]) == i,
{
}

proof fn lemma_slot_of_member(keys: Seq<Seq<char>>, id: Seq<char>)
    requires
        keys.contains(id),
    ensures
        0 <= slot(keys, id) < keys.len(),
        keys[slot(keys, id)] == id,
{
}

proof fn lemma_book_update(keys: Seq<Seq<char>>, amounts: Seq<u128>, i: int, x: u128)
    requires
        keys.no_duplicates(),
        keys.len() == amounts.len(),
        0 <= i < keys.len(),
    ensures
        book(keys, amounts.update(i, x)) == book(keys, amounts).insert(keys[i], x as nat),
{
    lemma_slot(keys, i);
    assert forall|id: Seq<char>| keys.contains(id) implies #[trigger] book(
        keys,
        amounts.update(i, x),
    )[id] == book(keys, amounts).insert(keys[i], x as nat)[id] by {
        lemma_slot_of_member(keys, id);
    }
    assert(book(keys, amounts.update(i, x)) =~= book(keys, amounts).insert(keys[i], x as nat));
}

proof fn lemma_book_push(keys: Seq<Seq<char>>, amounts: Seq<u128>, id: Seq<char>, x: u128)
    requires
        keys.no_duplicates(),
        keys.len() == amounts.len(),
        !keys.contains(id),
    ensures
        keys.push(id).no_duplicates(),
        book(keys.push(id), amounts.push(x)) == book(keys, amounts).insert(id, x as nat),
{
    let grown = keys.push(id);
    assert(grown[keys.len() as int] == id);
    assert forall|k: Seq<char>| grown.contains(k) <==> (keys.contains(k) || k == id) by {
        if keys.contains(k) {
            lemma_slot_of_member(keys, k);
            assert(grown[slot(keys, k)] == k);
        }
    }
    assert forall|k: Seq<char>| grown.contains(k) implies #[trigger] book(
        grown,
        amounts.push(x),
    )[k] == book(keys, amounts).insert(id, x as nat)[k] by {
        lemma_slot_of_member(grown, k);
        if k != id {
            lemma_slot_of_member(keys, k);
            assert(grown[slot(keys, k)] == k);
        }
    }
    assert(book(grown, amounts.push(x)) =~= book(keys, amounts).insert(id, x as nat));
}

proof fn lemma_book_remove(keys: Seq<Seq<char>>, amounts: Seq<u128>, i: int)
    requires
        keys.no_duplicates(),
        keys.len() == amounts.len(),
        0 <= i < keys.len(),
    ensures
        keys.remove(i).no_duplicates(),
        book(keys.remove(i), amounts.remove(i)) == book(keys, amounts).remove(keys[i]),
{
    let rest = keys.remove(i);
    assert forall|k: Seq<char>| rest.contains(k) <==> (keys.contains(k) && k != keys[i]) by {
        if rest.contains(k) {
            lemma_slot_of_member(rest, k);
            let j = slot(rest, k);
            if j < i {
                assert(keys[j] == k);
            } else {
                assert(keys[j + 1] == k);
            }
        }
        if keys.contains(k) && k != keys[i] {
            lemma_slot_of_member(keys, k);
            let j = slot(keys, k);
            if j < i {
                assert(rest[j] == k);
            } else {
                assert(rest[j - 1] == k);
            }
        }
    }
    assert forall|k: Seq<char>| rest.contains(k) implies #[trigger] book(
        rest,
        amounts.remove(i),
    )[k] == book(keys, amounts).remove(keys[i])[k] by {
        lemma_slot_of_member(rest, k);
        lemma_slot_of_member(keys, k);
        let j = slot(rest, k);
        if j < i {
            assert(keys[j] == k);
        } else {
            assert(keys[j + 1] == k);
        }
    }
    assert(book(rest, amounts.remove(i)) =~= book(keys, amounts).remove(keys[i]));
}

/// The balances of one token, held in memory.
pub struct Ledger {
    ids: Vec<String>,
    amounts: Vec<u128>,
    total_supply: u128,
    account_storage_usage: u64,
}

impl View for Ledger {
    type V = LedgerState;

    closed spec fn view(&self) -> LedgerState {
        LedgerState {
            balances: book(keys(self.ids@), self.amounts@),
            total_supply: self.total_supply as nat,
            account_storage_usage: self.account_storage_usage as nat,
        }
    }
}

impl Ledger {
    /// No account is entered twice, and the supply is the sum of all balances.
    pub closed spec fn wf(&self) -> bool {
        &&& self.ids@.len() == self.amounts@.len()
        &&& keys(self.ids@).no_duplicates()
        &&& self.total_supply as nat == sum(self.amounts@)
    }

    /// In a well-formed ledger no account holds more than exists.
    pub proof fn lemma_bounded(&self)
        requires
            self.wf(),
        ensures
            self@.bounded(),
    {
        let ks = keys(self.ids@);
        assert forall|id: Seq<char>| #[trigger] self@.balance_of(id) <= self@.total_supply by {
            if ks.contains(id) {
                lemma_slot_of_member(ks, id);
                lemma_sum_bound(self.amounts@, slot(ks, id));
            }
        }
    }

    /// A ledger without accounts, in which one balance entry takes
    /// `account_storage_usage` bytes.
    pub fn new(account_storage_usage: u64) -> (ledger: Self)
        ensures
            ledger.wf(),
            ledger@ == LedgerState::empty(account_storage_usage as nat),
    {
        let ledger = Ledger {
            ids: Vec::new(),
            amounts: Vec::new(),
            total_supply: 0,
            account_storage_usage,
        };
        assert(ledger@.balances =~= Map::empty());
        ledger
    }

    fn position_of(&self, id: &String) -> (found: Option<usize>)
        requires
            self.wf(),
        ensures
            match found {
                Some(i) => i < self.ids@.len() && self.ids@[i as int]@ == id@ && slot(
                    keys(self.ids@),
                    id@,
                ) == i && keys(self.ids@).contains(id@),
                None => !keys(self.ids@).contains(id@),
            },
    {
        let mut i: usize = 0;
        while i < self.ids.len()
            invariant
                self.wf(),
                i <= self.ids@.len(),
                forall|j: int| 0 <= j < i ==> keys(self.ids@)[j] != id@,
            decreases self.ids@.len() - i,
        {
            if self.ids[i] == *id {
                proof {
                    assert(keys(self.ids@)[i as int] == id@);
                    lemma_slot(keys(self.ids@), i as int);
                }
                return Some(i);
            }
            i += 1;
        }
        None
    }

    pub fn is_registered(&self, id: &String) -> (registered: bool)
        requires
            self.wf(),
        ensures
            registered == self@.is_registered(id@),
    {
        self.position_of(id).is_some()
    }

    /// What the account holds; nothing where it is not registered.
    pub fn balance_of(&self, id: &String) -> (balance: u128)
        requires
            self.wf(),
        ensures
            balance == self@.balance_of(id@),
    {
        match self.position_of(id) {
            Some(i) => self.amounts[i],
            None => 0,
        }
    }

    /// The number of tokens in existence.
    pub fn total_supply(&self) -> (supply: u128)
        ensures
            supply == self@.total_supply,
    {
        self.total_supply
    }

    /// The bytes that one balance entry takes.
    pub fn account_storage_usage(&self) -> (usage: u64)
        ensures
            usage == self@.account_storage_usage,
    {
        self.account_storage_usage
    }

    /// The price of storing one balance entry when a byte costs `byte_cost`.
    pub fn storage_price(&self, byte_cost: u128) -> (price: u128)
        ensures
            price == storage_bound(byte_cost as nat, self@.account_storage_usage),
    {
        let usage: u128 = self.account_storage_usage as u128;
        match byte_cost.checked_mul(usage) {
            Some(price) => price,
            None => u128::MAX,
        }
    }

    /// The accounts with their balances, name by name: a list of names and a
    /// list of amounts of the same length, from which `from_entries` makes
    /// this ledger again.
    pub fn entries(&self) -> (lists: (Vec<String>, Vec<u128>))
        requires
            self.wf(),
        ensures
            lists.0@.len() == lists.1@.len(),
            keys(lists.0@).no_duplicates(),
            book(keys(lists.0@), lists.1@) == self@.balances,
            sum(lists.1@) == self@.total_supply,
    {
        let mut names: Vec<String> = Vec::new();
        let mut amounts: Vec<u128> = Vec::new();
        let mut i: usize = 0;
        while i < self.ids.len()
            invariant
                self.wf(),
                i <= self.ids@.len(),
                names@.len() == i,
                amounts@.len() == i,
                forall|j: int| 0 <= j < i ==> names@[j]@ == self.ids@[j]@,
                forall|j: int| 0 <= j < i ==> amounts@[j] == self.amounts@[j],
            decreases self.ids@.len() - i,
        {
            names.push(self.ids[i].clone());
            amounts.push(self.amounts[i]);
            i += 1;
        }
        proof {
            assert(keys(names@) =~= keys(self.ids@));
            assert(amounts@ =~= self.amounts@);
        }
        (names, amounts)
    }

    /// The ledger that holds, name by name, the given balances, where one
    /// balance entry takes `account_storage_usage` bytes. There is none where
    /// the lists differ in length, a name occurs twice, or the balances add up
    /// to more than `u128` holds.
    pub fn from_entries(names: Vec<String>, amounts: Vec<u128>, account_storage_usage: u64) -> (made:
        Option<Ledger>)
        ensures
            made is Some <==> (names@.len() == amounts@.len() && keys(names@).no_duplicates()
                && sum(amounts@) <= u128::MAX),
            made matches Some(ledger) ==> ledger.wf() && ledger@ == (LedgerState {
                balances: book(keys(names@), amounts@),
                total_supply: sum(amounts@),
                account_storage_usage: account_storage_usage as nat,
            }),
    {
        if names.len() != amounts.len() {
            return None;
        }
        let ghost ks = keys(names@);
        let mut i: usize = 0;
        while i < names.len()
            invariant
                i <= names@.len(),
                ks == keys(names@),
                forall|a: int, b: int| 0 <= a < b < i ==> ks[a] != ks[b],
            decreases names@.len() - i,
        {
            let mut j: usize = 0;
            while j < i
                invariant
                    j <= i < names@.len(),
                    ks == keys(names@),
                    forall|a: int| 0 <= a < j ==> ks[a] != ks[i as int],
                decreases i - j,
            {
                if names[j] == names[i] {
                    assert(ks[j as int] == ks[i as int]);
                    return None;
                }
                j += 1;
            }
            i += 1;
        }
        assert(ks.no_duplicates());
        let mut total: u128 = 0;
        let mut k: usize = 0;
        while k < amounts.len()
            invariant
                k <= amounts@.len(),
                total == sum(amounts@.take(k as int)),
            decreases amounts@.len() - k,
        {
            proof {
                lemma_sum_prefix(amounts@, k as int);
                lemma_sum_prefix(amounts@, k + 1);
            }
            match total.checked_add(amounts[k]) {
                Some(next) => {
                    total = next;
                },
                None => {
                    return None;
                },
            }
            k += 1;
        }
        assert(amounts@.take(k as int) =~= amounts@);
        Some(Ledger { ids: names, amounts, total_supply: total, account_storage_usage })
    }

    /// Enters an account with a zero balance.
    pub fn open_account(&mut self, id: String) -> (done: Result<(), ContractError>)
        requires
            old(self).wf(),
        ensures
            final(self).wf(),
            match old(self)@.open_account(id@) {
                Ok(next) => done is Ok && final(self)@ == next,
                Err(e) => done == Err::<(), ContractError>(e) && final(self)@ == old(self)@,
            },
    {
        match self.position_of(&id) {
            Some(_) => Err(ContractError::AlreadyRegistered),
            None => {
                proof {
                    lemma_book_push(keys(self.ids@), self.amounts@, id@, 0);
                    lemma_sum_push(self.amounts@, 0);
                    assert(keys(self.ids@.push(id)) =~= keys(self.ids@).push(id@));
                }
                self.ids.push(id);
                self.amounts.push(0);
                Ok(())
            },
        }
    }

    /// Enters an account with a zero balance against a payment for its
    /// storage, and returns what of the payment is handed back.
    pub fn register(&mut self, id: String, payment: u128, byte_cost: u128) -> (done: Result<
        u128,
        ContractError,
    >)
        requires
            old(self).wf(),
        ensures
            final(self).wf(),
            match old(self)@.register(id@, payment as nat, byte_cost as nat) {
                Ok((next, refund)) => done == Ok::<u128, ContractError>(refund as u128)
                    && final(self)@ == next,
                Err(e) => done == Err::<u128, ContractError>(e) && final(self)@ == old(self)@,
            },
    {
        let price = self.storage_price(byte_cost);
        if self.is_registered(&id) {
            Err(ContractError::AlreadyRegistered)
        } else if payment < price {
            Err(ContractError::InsufficientStorageDeposit)
        } else {
            let opened = self.open_account(id);
            assert(opened is Ok);
            Ok(payment - price)
        }
    }

    /// Adds `amount` to what the account holds.
    pub fn deposit(&mut self, id: &String, amount: u128) -> (done: Result<(), ContractError>)
        requires
            old(self).wf(),
        ensures
            final(self).wf(),
            match old(self)@.deposit(id@, amount as nat) {
                Ok(next) => done is Ok && final(self)@ == next,
                Err(e) => done == Err::<(), ContractError>(e) && final(self)@ == old(self)@,
            },
    {
        match self.position_of(id) {
            None => Err(ContractError::AccountNotRegistered),
            Some(i) => {
                let balance = self.amounts[i];
                match (balance.checked_add(amount), self.total_supply.checked_add(amount)) {
                    (Some(raised), Some(supply)) => {
                        proof {
                            lemma_sum_update(self.amounts@, i as int, raised);
                            lemma_book_update(keys(self.ids@), self.amounts@, i as int, raised);
                        }
                        self.amounts.set(i, raised);
                        self.total_supply = supply;
                        Ok(())
                    },
                    _ => Err(ContractError::BalanceOverflow),
                }
            },
        }
    }

    /// Takes `amount` from what the account holds. It is refused where the
    /// balance does not cover the amount, also for an account without an
    /// entry, which holds nothing; no entry is made for it.
    pub fn withdraw(&mut self, id: &String, amount: u128) -> (done: Result<(), ContractError>)
        requires
            old(self).wf(),
        ensures
            final(self).wf(),
            match old(self)@.withdraw(id@, amount as nat) {
                Ok(next) => done is Ok && final(self)@ == next,
                Err(e) => done == Err::<(), ContractError>(e) && final(self)@ == old(self)@,
            },
    {
        match self.position_of(id) {
            None => if amount > 0 {
                Err(ContractError::InsufficientBalance)
            } else {
                Ok(())
            },
            Some(i) => {
                let balance = self.amounts[i];
                proof {
                    lemma_sum_bound(self.amounts@, i as int);
                }
                if balance < amount {
                    Err(ContractError::InsufficientBalance)
                } else {
                    let lowered = balance - amount;
                    proof {
                        lemma_sum_update(self.amounts@, i as int, lowered);
                        lemma_book_update(keys(self.ids@), self.amounts@, i as int, lowered);
                    }
                    self.amounts.set(i, lowered);
                    self.total_supply = self.total_supply - amount;
                    Ok(())
                }
            },
        }
    }

    /// Moves `amount` from what `sender` holds to what `receiver` holds. The
    /// supply stays as it is.
    pub fn transfer(&mut self, sender: &String, receiver: &String, amount: u128) -> (done: Result<
        (),
        ContractError,
    >)
        requires
            old(self).wf(),
        ensures
            final(self).wf(),
            match old(self)@.transfer(sender@, receiver@, amount as nat) {
                Ok(next) => done is Ok && final(self)@ == next,
                Err(e) => done == Err::<(), ContractError>(e) && final(self)@ == old(self)@,
            },
    {
        let ghost before = self@;
        proof {
            self.lemma_bounded();
            assert(before.balance_of(sender@) <= before.total_supply);
        }
        if self.balance_of(sender) < amount {
            return Err(ContractError::InsufficientBalance);
        }
        if !self.is_registered(receiver) {
            assert(before.withdraw(sender@, amount as nat) matches Ok(lowered)
                && !lowered.is_registered(receiver@));
            return Err(ContractError::AccountNotRegistered);
        }
        let taken = self.withdraw(sender, amount);
        assert(taken is Ok);
        let ghost lowered = self@;
        proof {
            self.lemma_bounded();
            assert(lowered.balance_of(receiver@) <= lowered.total_supply);
            assert(lowered.total_supply + amount <= before.total_supply);
        }
        let given = self.deposit(receiver, amount);
        assert(given is Ok);
        Ok(())
    }

    /// Releases an account that holds nothing, and returns the storage price
    /// that is handed back; `None` where the account had no entry.
    pub fn unregister(&mut self, id: &String, byte_cost: u128) -> (done: Result<
        Option<u128>,
        ContractError,
    >)
        requires
            old(self).wf(),
        ensures
            final(self).wf(),
            match old(self)@.unregister(id@, byte_cost as nat) {
                Ok((next, Some(refund))) => done == Ok::<Option<u128>, ContractError>(
                    Some(refund as u128),
                ) && final(self)@ == next,
                Ok((next, None)) => done == Ok::<Option<u128>, ContractError>(None)
                    && final(self)@ == next,
                Err(e) => done == Err::<Option<u128>, ContractError>(e)
                    && final(self)@ == old(self)@,
            },
    {
        match self.position_of(id) {
            None => Ok(None),
            Some(i) => {
                if self.amounts[i] != 0 {
                    Err(ContractError::NonZeroBalance)
                } else {
                    let refund = self.storage_price(byte_cost);
                    proof {
                        lemma_sum_remove(self.amounts@, i as int);
                        lemma_book_remove(keys(self.ids@), self.amounts@, i as int);
                        assert(keys(self.ids@.remove(i as int)) =~= keys(self.ids@).remove(
                            i as int,
                        ));
                    }
                    self.ids.remove(i);
                    self.amounts.remove(i);
                    Ok(Some(refund))
                }
            },
        }
    }
}

} // verus!
