//! Balance ledgers: an amount for each address, zero for an address that the
//! ledger has never seen.

use vstd::prelude::*;

verus! {

/// The mathematical value of a ledger: its accounts in the order in which
/// they were opened, each an address with its balance. No address occurs
/// twice.
pub type Accounts = Seq<(Seq<char>, nat)>;

/// The addresses that have an account, in order.
pub open spec fn holders(accounts: Accounts) -> Seq<Seq<char>> {
    accounts.map_values(|account: (Seq<char>, nat)| account.0)
}

/// The balance of `who`: zero where `who` has no account.
pub open spec fn balance_in(accounts: Accounts, who: Seq<char>) -> nat {
    match holders(accounts).index_of_first(who) {
        Some(i) => accounts[i].1,
        None => 0,
    }
}

/// The sum of all balances.
pub open spec fn total_of(accounts: Accounts) -> nat
    decreases accounts.len(),
{
    if accounts.len() == 0 {
        0
    } else {
        total_of(accounts.drop_last()) + accounts.last().1
    }
}

/// The accounts once the balance of `who` is set to `amount`: the account of
/// `who` is changed where it stands, or opened behind the others.
pub open spec fn with_balance(accounts: Accounts, who: Seq<char>, amount: nat) -> Accounts {
    match holders(accounts).index_of_first(who) {
        Some(i) => accounts.update(i, (who, amount)),
        None => accounts.push((who, amount)),
    }
}

/// Changing one account changes the sum by the difference of its balance.
pub proof fn lemma_total_update(accounts: Accounts, i: int, account: (Seq<char>, nat))
    requires
        0 <= i < accounts.len(),
    ensures
        total_of(accounts.update(i, account)) + accounts[i].1 == total_of(accounts) + account.1,
    decreases accounts.len(),
{
    let changed = accounts.update(i, account);
    if i == accounts.len() - 1 {
        assert(changed.drop_last() =~= accounts.drop_last());
    } else {
        lemma_total_update(accounts.drop_last(), i, account);
        assert(changed.drop_last() =~= accounts.drop_last().update(i, account));
    }
}

/// No balance is above the sum of all balances.
pub proof fn lemma_balance_within_total(accounts: Accounts, who: Seq<char>)
    ensures
        balance_in(accounts, who) <= total_of(accounts),
{
    holders(accounts).index_of_first_ensures(who);
    match holders(accounts).index_of_first(who) {
        Some(i) => {
            lemma_total_update(accounts, i, (who, 0nat));
        },
        None => {},
    }
}

/// Setting a balance: `who` then has `amount`, every other address has what
/// it had, the sum moves by the difference, and still no address occurs twice.
pub proof fn lemma_with_balance(accounts: Accounts, who: Seq<char>, amount: nat)
    requires
        holders(accounts).no_duplicates(),
    ensures
        balance_in(with_balance(accounts, who, amount), who) == amount,
        forall|other: Seq<char>|
            other != who ==> #[trigger] balance_in(with_balance(accounts, who, amount), other)
                == balance_in(accounts, other),
        total_of(with_balance(accounts, who, amount)) + balance_in(accounts, who) == total_of(
            accounts,
        ) + amount,
        holders(with_balance(accounts, who, amount)).no_duplicates(),
{
    let after = with_balance(accounts, who, amount);
    let names = holders(accounts);
    let names_after = holders(after);
    names.index_of_first_ensures(who);
    names_after.index_of_first_ensures(who);
    match names.index_of_first(who) {
        Some(i) => {
            lemma_total_update(accounts, i, (who, amount));
            assert(names_after =~= names);
            assert forall|other: Seq<char>| other != who implies #[trigger] balance_in(
                after,
                other,
            ) == balance_in(accounts, other) by {
                names.index_of_first_ensures(other);
            }
        },
        None => {
            assert(after.drop_last() =~= accounts);
            assert(names_after =~= names.push(who));
            assert(names_after[names.len() as int] == who);
            assert(names_after.index_of_first(who) == Some(names.len() as int)) by {
                let k = names_after.index_of_first(who).unwrap();
                if k < names.len() {
                    assert(names[k] == who);
                }
            }
            assert forall|other: Seq<char>| other != who implies #[trigger] balance_in(
                after,
                other,
            ) == balance_in(accounts, other) by {
                names.index_of_first_ensures(other);
                names_after.index_of_first_ensures(other);
                match names.index_of_first(other) {
                    Some(j) => {
                        assert(names_after[j] == other);
                        let k = names_after.index_of_first(other).unwrap();
                        if k < j {
                            assert(names[k] == other);
                        }
                        if k > j {
                        }
                    },
                    None => {
                        if names_after.contains(other) {
                            let k = names_after.index_of_first(other).unwrap();
                            assert(names[k] == other);
                        }
                    },
                }
            }
            assert forall|a: int, b: int|
                0 <= a < names_after.len() && 0 <= b < names_after.len() && a != b implies names_after[a]
                != names_after[b] by {
                if a < names.len() && b < names.len() {
                } else if a < names.len() {
                    assert(names[a] == names_after[a]);
                } else {
                    assert(names[b] == names_after[b]);
                }
            }
        },
    }
}

/// One account of a ledger.
struct Account {
    holder: String,
    amount: u128,
}

/// An amount for each address, zero by default.
pub struct Ledger {
    accounts: Vec<Account>,
}

impl View for Ledger {
    type V = Accounts;

    closed spec fn view(&self) -> Accounts {
        self.accounts@.map_values(|a: Account| (a.holder@, a.amount as nat))
    }
}

impl Ledger {
    #[verifier::type_invariant]
    spec fn distinct(self) -> bool {
        holders(self@).no_duplicates()
    }

    /// A ledger without accounts.
    pub fn new() -> (ledger: Ledger)
        ensures
            ledger@ == Seq::<(Seq<char>, nat)>::empty(),
    {
        let ledger = Ledger { accounts: Vec::new() };
        assert(ledger@ =~= Seq::<(Seq<char>, nat)>::empty());
        ledger
    }

    /// Where the account of `who` stands, if there is one.
    fn position(&self, who: &String) -> (found: Option<usize>)
        ensures
            match found {
                Some(i) => holders(self@).index_of_first(who@) == Some(i as int) && i
                    < self.accounts.len(),
                None => holders(self@).index_of_first(who@) is None,
            },
    {
        let ghost names = holders(self@);
        let mut i: usize = 0;
        while i < self.accounts.len()
            invariant
                i <= self.accounts.len(),
                names == holders(self@),
                names.len() == self.accounts.len(),
                forall|j: int| 0 <= j < i ==> names[j] != who@,
            decreases self.accounts.len() - i,
        {
            if self.accounts[i].holder == *who {
                proof {
                    names.index_of_first_ensures(who@);
                    assert(names[i as int] == who@);
                }
                return Some(i);
            }
            i = i + 1;
        }
        proof {
            names.index_of_first_ensures(who@);
            if names.contains(who@) {
                let k = names.index_of_first(who@).unwrap();
                assert(names[k] == who@);
            }
        }
        None
    }

    /// The balance of `who`.
    pub fn balance(&self, who: &String) -> (amount: u128)
        ensures
            amount == balance_in(self@, who@),
            holders(self@).no_duplicates(),
    {
        proof {
            use_type_invariant(self);
        }
        match self.position(who) {
            Some(i) => self.accounts[i].amount,
            None => 0,
        }
    }

    /// Sets the balance of `who` to `amount`.
    pub fn set(&mut self, who: &String, amount: u128)
        ensures
            final(self)@ == with_balance(old(self)@, who@, amount as nat),
            holders(final(self)@).no_duplicates(),
    {
        proof {
            use_type_invariant(&*self);
            lemma_with_balance(self@, who@, amount as nat);
        }
        let found = self.position(who);
        let mut accounts: Vec<Account> = Vec::new();
        core::mem::swap(&mut accounts, &mut self.accounts);
        let account = Account { holder: who.clone(), amount };
        match found {
            Some(i) => {
                accounts[i] = account;
            },
            None => {
                accounts.push(account);
            },
        }
        let ghost target = with_balance(old(self)@, who@, amount as nat);
        assert(accounts@.map_values(|a: Account| (a.holder@, a.amount as nat)) =~= target);
        self.accounts = accounts;
    }

    /// Makes a ledger of a list of accounts, unless an address occurs twice
    /// in it.
    pub fn from_accounts(list: &Vec<(String, u128)>) -> (made: Option<Ledger>)
        ensures
            match made {
                Some(ledger) => ledger@ == listed(list@) && holders(ledger@).no_duplicates(),
                None => !holders(listed(list@)).no_duplicates(),
            },
    {
        let ghost names = holders(listed(list@));
        let mut accounts: Vec<Account> = Vec::new();
        let mut i: usize = 0;
        while i < list.len()
            invariant
                i <= list.len(),
                names == holders(listed(list@)),
                accounts@.len() == i,
                forall|j: int|
                    0 <= j < i ==> (#[trigger] accounts@[j]).holder@ == list@[j].0@ && accounts@[j].amount
                        == list@[j].1,
                forall|a: int, b: int| 0 <= a < b < i ==> names[a] != names[b],
            decreases list.len() - i,
        {
            let mut j: usize = 0;
            while j < i
                invariant
                    j <= i < list.len(),
                    names == holders(listed(list@)),
                    forall|a: int| 0 <= a < j ==> names[a] != names[i as int],
                decreases i - j,
            {
                if list[j].0 == list[i].0 {
                    assert(names[j as int] == names[i as int]);
                    return None;
                }
                j = j + 1;
            }
            accounts.push(Account { holder: list[i].0.clone(), amount: list[i].1 });
            i = i + 1;
        }
        assert(accounts@.map_values(|a: Account| (a.holder@, a.amount as nat)) =~= listed(list@));
        Some(Ledger { accounts })
    }

    /// The accounts, each as an address and its balance, in order.
    pub fn accounts(&self) -> (list: Vec<(String, u128)>)
        ensures
            listed(list@) == self@,
            holders(self@).no_duplicates(),
    {
        proof {
            use_type_invariant(self);
        }
        let mut list: Vec<(String, u128)> = Vec::new();
        let mut i: usize = 0;
        while i < self.accounts.len()
            invariant
                i <= self.accounts.len(),
                list@.len() == i,
                forall|j: int| 0 <= j < i ==> (#[trigger] list@[j]).0@ == self@[j].0 && list@[j].1 == self@[j].1,
            decreases self.accounts.len() - i,
        {
            list.push((self.accounts[i].holder.clone(), self.accounts[i].amount));
            i = i + 1;
        }
        assert(listed(list@) =~= self@);
        list
    }
}

/// The value of a list of accounts.
pub open spec fn listed(list: Seq<(String, u128)>) -> Accounts {
    list.map_values(|a: (String, u128)| (a.0@, a.1 as nat))
}

} // verus!
