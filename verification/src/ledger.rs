//! The token's accounts: who holds how much, and the two ways a balance
//! changes.

use crate::text::clone_text;
use crate::error::ContractError;
use vstd::prelude::*;

verus! {

/// One holder and what it holds.
#[derive(Debug, PartialEq, Eq)]
pub struct Account {
    pub address: String,
    pub balance: u128,
}

/// The sum of all balances.
pub open spec fn total(accounts: Seq<Account>) -> nat
    decreases accounts.len(),
{
    if accounts.len() == 0 {
        0
    } else {
        total(accounts.drop_last()) + accounts.last().balance as nat
    }
}

/// What `address` holds: the balance of its account, or zero without one.
pub open spec fn balance_in(accounts: Seq<Account>, address: Seq<char>) -> nat
    decreases accounts.len(),
{
    if accounts.len() == 0 {
        0
    } else if accounts.last().address@ == address {
        accounts.last().balance as nat
    } else {
        balance_in(accounts.drop_last(), address)
    }
}

/// Whether no address has two accounts.
pub open spec fn distinct(accounts: Seq<Account>) -> bool {
    forall|i: int, j: int|
        0 <= i < j < accounts.len() ==> accounts[i].address@ != accounts[j].address@
}

proof fn lemma_absent(accounts: Seq<Account>, address: Seq<char>)
    requires
        forall|i: int| 0 <= i < accounts.len() ==> accounts[i].address@ != address,
    ensures
        balance_in(accounts, address) == 0,
    decreases accounts.len(),
{
    if accounts.len() > 0 {
        lemma_absent(accounts.drop_last(), address);
    }
}

proof fn lemma_present(accounts: Seq<Account>, i: int)
    requires
        distinct(accounts),
        0 <= i < accounts.len(),
    ensures
        balance_in(accounts, accounts[i].address@) == accounts[i].balance,
    decreases accounts.len(),
{
    if i < accounts.len() - 1 {
        assert(accounts.drop_last()[i] == accounts[i]);
        lemma_present(accounts.drop_last(), i);
    }
}

proof fn lemma_balance_within_total(accounts: Seq<Account>, address: Seq<char>)
    ensures
        balance_in(accounts, address) <= total(accounts),
    decreases accounts.len(),
{
    if accounts.len() > 0 {
        lemma_balance_within_total(accounts.drop_last(), address);
    }
}

proof fn lemma_update(accounts: Seq<Account>, i: int, account: Account, other: Seq<char>)
    requires
        0 <= i < accounts.len(),
        account.address@ == accounts[i].address@,
    ensures
        total(accounts.update(i, account)) == total(accounts) - accounts[i].balance
            + account.balance,
        other != account.address@ ==> balance_in(accounts.update(i, account), other)
            == balance_in(accounts, other),
    decreases accounts.len(),
{
    let updated = accounts.update(i, account);
    if i == accounts.len() - 1 {
        assert(updated.drop_last() =~= accounts.drop_last());
    } else {
        assert(updated.drop_last() =~= accounts.drop_last().update(i, account));
        assert(accounts.drop_last()[i] == accounts[i]);
        lemma_update(accounts.drop_last(), i, account, other);
    }
}

proof fn lemma_update_distinct(accounts: Seq<Account>, i: int, account: Account)
    requires
        distinct(accounts),
        0 <= i < accounts.len(),
        account.address@ == accounts[i].address@,
    ensures
        distinct(accounts.update(i, account)),
        balance_in(accounts.update(i, account), account.address@) == account.balance,
{
    let updated = accounts.update(i, account);
    assert forall|a: int, b: int| 0 <= a < b < updated.len() implies updated[a].address@
        != updated[b].address@ by {
        assert(updated[a].address@ == accounts[a].address@);
        assert(updated[b].address@ == accounts[b].address@);
    }
    lemma_present(updated, i);
}

proof fn lemma_push(accounts: Seq<Account>, account: Account)
    requires
        distinct(accounts),
        forall|i: int| 0 <= i < accounts.len() ==> accounts[i].address@ != account.address@,
    ensures
        distinct(accounts.push(account)),
        total(accounts.push(account)) == total(accounts) + account.balance,
        forall|other: Seq<char>|
            balance_in(accounts.push(account), other) == if other == account.address@ {
                account.balance as nat
            } else {
                #[trigger] balance_in(accounts, other)
            },
{
    assert(accounts.push(account).drop_last() =~= accounts);
}

/// The accounts of the token. No address has two accounts, and all
/// balances together fit in 128 bits.
#[derive(Debug, PartialEq, Eq)]
pub struct Ledger {
    accounts: Vec<Account>,
}

impl Ledger {
    #[verifier::type_invariant]
    spec fn sound(self) -> bool {
        distinct(self.accounts@) && total(self.accounts@) <= u128::MAX
    }

    /// What `address` holds; zero where it has no account.
    pub closed spec fn balance_of(&self, address: Seq<char>) -> nat {
        balance_in(self.accounts@, address)
    }

    /// The sum of all balances.
    pub closed spec fn total_supply(&self) -> nat {
        total(self.accounts@)
    }

    /// No holder exceeds the total supply.
    pub proof fn lemma_balance_bounded(&self, address: Seq<char>)
        ensures
            self.balance_of(address) <= self.total_supply(),
    {
        lemma_balance_within_total(self.accounts@, address);
    }

    /// The ledger without any account.
    pub fn new() -> (ledger: Ledger)
        ensures
            ledger.total_supply() == 0,
            forall|address: Seq<char>| #[trigger] ledger.balance_of(address) == 0,
    {
        Ledger { accounts: Vec::new() }
    }

    fn position(&self, address: &String) -> (found: Option<usize>)
        ensures
            match found {
                Some(i) => i < self.accounts@.len() && self.accounts@[i as int].address@
                    == address@,
                None => forall|i: int|
                    0 <= i < self.accounts@.len() ==> self.accounts@[i].address@ != address@,
            },
    {
        let mut i: usize = 0;
        while i < self.accounts.len()
            invariant
                i <= self.accounts@.len(),
                forall|k: int| 0 <= k < i ==> self.accounts@[k].address@ != address@,
            decreases self.accounts@.len() - i,
        {
            if self.accounts[i].address == *address {
                return Some(i);
            }
            i += 1;
        }
        None
    }

    /// What `address` holds.
    pub fn balance(&self, address: &String) -> (amount: u128)
        ensures
            amount == self.balance_of(address@),
    {
        proof {
            use_type_invariant(self);
        }
        match self.position(address) {
            Some(i) => {
                proof {
                    lemma_present(self.accounts@, i as int);
                }
                self.accounts[i].balance
            },
            None => {
                proof {
                    lemma_absent(self.accounts@, address@);
                }
                0
            },
        }
    }

    /// The sum of all balances.
    pub fn supply(&self) -> (amount: u128)
        ensures
            amount == self.total_supply(),
    {
        proof {
            use_type_invariant(self);
        }
        let mut sum: u128 = 0;
        let mut i: usize = 0;
        while i < self.accounts.len()
            invariant
                i <= self.accounts@.len(),
                sum == total(self.accounts@.subrange(0, i as int)),
                total(self.accounts@) <= u128::MAX,
            decreases self.accounts@.len() - i,
        {
            proof {
                let next = self.accounts@.subrange(0, i + 1);
                assert(next.drop_last() =~= self.accounts@.subrange(0, i as int));
                lemma_prefix_within_total(self.accounts@, i + 1);
            }
            sum = sum + self.accounts[i].balance;
            i += 1;
        }
        assert(self.accounts@.subrange(0, i as int) =~= self.accounts@);
        sum
    }

    /// Takes `amount` from `address`. Fails, changing nothing, exactly
    /// where `address` holds less. The supply it finds fits in 128 bits.
    pub fn debit(&mut self, address: &String, amount: u128) -> (out: Result<(), ContractError>)
        ensures
            old(self).total_supply() <= u128::MAX,
            out is Ok <==> amount <= old(self).balance_of(address@),
            out matches Err(e) ==> e == ContractError::InsufficientFunds && *final(self) == *old(
                self,
            ),
            out is Ok ==> {
                &&& final(self).total_supply() == old(self).total_supply() - amount
                &&& final(self).balance_of(address@) == old(self).balance_of(address@) - amount
                &&& forall|other: Seq<char>|
                    other != address@ ==> #[trigger] final(self).balance_of(other) == old(
                        self,
                    ).balance_of(other)
            },
    {
        proof {
            use_type_invariant(&*self);
        }
        match self.position(address) {
            Some(i) => {
                proof {
                    lemma_present(self.accounts@, i as int);
                }
                let held: u128 = self.accounts[i].balance;
                if held < amount {
                    return Err(ContractError::InsufficientFunds);
                }
                let account = Account { address: clone_text(address), balance: held - amount };
                proof {
                    lemma_update_distinct(self.accounts@, i as int, account);
                    assert forall|other: Seq<char>| other != address@ implies balance_in(
                        self.accounts@.update(i as int, account),
                        other,
                    ) == balance_in(self.accounts@, other) by {
                        lemma_update(self.accounts@, i as int, account, other);
                    }
                    lemma_update(self.accounts@, i as int, account, address@);
                }
                let mut accounts: Vec<Account> = Vec::new();
                std::mem::swap(&mut self.accounts, &mut accounts);
                accounts.set(i, account);
                self.accounts = accounts;
                Ok(())
            },
            None => {
                proof {
                    lemma_absent(self.accounts@, address@);
                }
                if amount > 0 {
                    return Err(ContractError::InsufficientFunds);
                }
                Ok(())
            },
        }
    }

    /// Gives `amount` to `address`, opening an account where it has none.
    pub fn credit(&mut self, address: &String, amount: u128)
        requires
            old(self).total_supply() + amount <= u128::MAX,
        ensures
            final(self).total_supply() == old(self).total_supply() + amount,
            final(self).balance_of(address@) == old(self).balance_of(address@) + amount,
            forall|other: Seq<char>|
                other != address@ ==> #[trigger] final(self).balance_of(other) == old(
                    self,
                ).balance_of(other),
    {
        proof {
            use_type_invariant(&*self);
        }
        match self.position(address) {
            Some(i) => {
                proof {
                    lemma_present(self.accounts@, i as int);
                    lemma_balance_within_total(self.accounts@, address@);
                }
                let held: u128 = self.accounts[i].balance;
                let account = Account { address: clone_text(address), balance: held + amount };
                proof {
                    lemma_update_distinct(self.accounts@, i as int, account);
                    assert forall|other: Seq<char>| other != address@ implies balance_in(
                        self.accounts@.update(i as int, account),
                        other,
                    ) == balance_in(self.accounts@, other) by {
                        lemma_update(self.accounts@, i as int, account, other);
                    }
                    lemma_update(self.accounts@, i as int, account, address@);
                }
                let mut accounts: Vec<Account> = Vec::new();
                std::mem::swap(&mut self.accounts, &mut accounts);
                accounts.set(i, account);
                self.accounts = accounts;
            },
            None => {
                let account = Account { address: clone_text(address), balance: amount };
                proof {
                    lemma_absent(self.accounts@, address@);
                    lemma_push(self.accounts@, account);
                }
                let mut accounts: Vec<Account> = Vec::new();
                std::mem::swap(&mut self.accounts, &mut accounts);
                accounts.push(account);
                self.accounts = accounts;
            },
        }
    }
}

proof fn lemma_prefix_within_total(accounts: Seq<Account>, n: int)
    requires
        0 <= n <= accounts.len(),
    ensures
        total(accounts.subrange(0, n)) <= total(accounts),
    decreases accounts.len(),
{
    if n == accounts.len() {
        assert(accounts.subrange(0, n) =~= accounts);
    } else {
        assert(accounts.drop_last().subrange(0, n) =~= accounts.subrange(0, n));
        lemma_prefix_within_total(accounts.drop_last(), n);
    }
}

} // verus!
