//! A registry laid out as plain records, to keep it between calls, and the
//! way back: a registry is made only of records between which everything
//! holds that must.

use vstd::prelude::*;
use crate::blacklist::is_ordered;
use crate::contract::{copy_texts, lemma_ids_count};
use crate::ledger::{Accounts, Ledger, balance_in, holders, listed, total_of};
use crate::msg::{optional_text, texts_view};
use crate::query::copy_optional_text;
use crate::registry::{Core, Registry, RegistryView, consistent, occurrences};
use crate::state::{
    Config, NO_REQUEST, Request, RequestStore, State, ids_below, pairs_view, roll_view,
};

verus! {

/// The records of a registry.
#[derive(Clone, Debug, PartialEq, Eq)]
pub struct Snapshot {
    pub config: Config,
    pub state: State,
    pub admin: Option<String>,
    pub new_admin: Option<String>,
    /// The pending requests with their ids.
    pub requests: Vec<(u64, Request)>,
    /// What each address has staked.
    pub stake_balance: Vec<(String, u128)>,
    /// What each address holds in its recurring pool.
    pub recurring_balance: Vec<(String, u128)>,
    pub blacklist: Vec<String>,
}

impl View for Snapshot {
    type V = RegistryView;

    open spec fn view(&self) -> RegistryView {
        RegistryView {
            config: self.config@,
            state: self.state@,
            admin: optional_text(self.admin),
            new_admin: optional_text(self.new_admin),
            requests: pairs_view(self.requests@),
            stake_balance: listed(self.stake_balance@),
            recurring_balance: listed(self.recurring_balance@),
            blacklist: texts_view(self.blacklist@),
        }
    }
}

/// An address with entries in the roll stands somewhere in it.
pub proof fn lemma_occurs(roll: Seq<Seq<char>>, who: Seq<char>)
    ensures
        occurrences(roll, who) > 0 <==> roll.contains(who),
    decreases roll.len(),
{
    if roll.len() > 0 {
        let front = roll.drop_last();
        lemma_occurs(front, who);
        if roll.last() == who {
            assert(roll[roll.len() - 1] == who);
        } else if front.contains(who) {
            let k = choose|k: int| 0 <= k < front.len() && front[k] == who;
            assert(roll[k] == who);
        } else if roll.contains(who) {
            let k = choose|k: int| 0 <= k < roll.len() && roll[k] == who;
            assert(front[k] == who);
        }
    }
}

/// Counts the entries of `who` in the stake roll.
pub fn count_stakes(roll: &Vec<String>, who: &String) -> (count: usize)
    ensures
        count == occurrences(roll_view(roll@), who@),
{
    let ghost all = roll_view(roll@);
    let mut count: usize = 0;
    let mut i: usize = 0;
    while i < roll.len()
        invariant
            i <= roll.len(),
            all == roll_view(roll@),
            count == occurrences(all.take(i as int), who@),
            count <= i,
        decreases roll.len() - i,
    {
        assert(all.take(i + 1).drop_last() =~= all.take(i as int));
        if roll[i] == *who {
            count = count + 1;
        }
        i = i + 1;
    }
    assert(all.take(i as int) =~= all);
    count
}

/// Adds up the balances of a list of accounts; nothing where the sum is out
/// of range.
pub fn sum_accounts(list: &Vec<(String, u128)>) -> (sum: Option<u128>)
    ensures
        match sum {
            Some(total) => total == total_of(listed(list@)),
            None => total_of(listed(list@)) > u128::MAX,
        },
{
    let ghost all = listed(list@);
    let mut total: u128 = 0;
    let mut i: usize = 0;
    while i < list.len()
        invariant
            i <= list.len(),
            all == listed(list@),
            total == total_of(all.take(i as int)),
        decreases list.len() - i,
    {
        assert(all.take(i + 1).drop_last() =~= all.take(i as int));
        match total.checked_add(list[i].1) {
            Some(next) => {
                total = next;
            },
            None => {
                proof {
                    lemma_total_grows(all, i + 1);
                }
                return None;
            },
        }
        i = i + 1;
    }
    assert(all.take(i as int) =~= all);
    Some(total)
}

/// The sum over the first accounts is at most the sum over all.
pub proof fn lemma_total_grows(accounts: Accounts, n: int)
    requires
        0 <= n <= accounts.len(),
    ensures
        total_of(accounts.take(n)) <= total_of(accounts),
    decreases accounts.len() - n,
{
    if n < accounts.len() {
        lemma_total_grows(accounts, n + 1);
        assert(accounts.take(n + 1).drop_last() =~= accounts.take(n));
    } else {
        assert(accounts.take(n) =~= accounts);
    }
}

/// Whether the staked balances are what the stake roll says: each account
/// holds one stake amount for each entry of its address, and each entry
/// belongs to an account, unless the stake amount is zero.
fn stakes_match(config: &Config, state: &State, stake_balance: &Vec<(String, u128)>) -> (matching: bool)
    requires
        holders(listed(stake_balance@)).no_duplicates(),
    ensures
        matching == (forall|who: Seq<char>| #[trigger]
            balance_in(listed(stake_balance@), who) == config@.stake_amount * occurrences(
                state@.stakes,
                who,
            )),
{
    let ghost accounts = listed(stake_balance@);
    let ghost names = holders(accounts);
    let ghost roll = state@.stakes;
    let ghost unit = config@.stake_amount;
    let mut i: usize = 0;
    while i < stake_balance.len()
        invariant
            i <= stake_balance.len(),
            accounts == listed(stake_balance@),
            names == holders(accounts),
            names.no_duplicates(),
            roll == state@.stakes,
            unit == config@.stake_amount,
            forall|j: int| 0 <= j < i ==> accounts[j].1 == unit * occurrences(roll, #[trigger] names[j]),
        decreases stake_balance.len() - i,
    {
        let count = count_stakes(&state.stakes, &stake_balance[i].0);
        let ghost who = names[i as int];
        proof {
            names.index_of_first_ensures(who);
            assert(balance_in(accounts, who) == accounts[i as int].1);
        }
        match config.stake_amount.checked_mul(count as u128) {
            Some(due) => {
                if due != stake_balance[i].1 {
                    return false;
                }
            },
            None => {
                return false;
            },
        }
        i = i + 1;
    }
    if config.stake_amount != 0 {
        let mut k: usize = 0;
        while k < state.stakes.len()
            invariant
                k <= state.stakes.len(),
                accounts == listed(stake_balance@),
                names == holders(accounts),
                roll == state@.stakes,
                unit == config@.stake_amount,
                unit != 0,
                forall|j: int| 0 <= j < k ==> names.contains(#[trigger] roll[j]),
            decreases state.stakes.len() - k,
        {
            let ghost who = roll[k as int];
            let mut found = false;
            let mut j: usize = 0;
            while j < stake_balance.len() && !found
                invariant
                    j <= stake_balance.len(),
                    k < state.stakes.len(),
                    accounts == listed(stake_balance@),
                    names == holders(accounts),
                    roll == state@.stakes,
                    who == roll[k as int],
                    found ==> names.contains(who),
                    !found ==> forall|a: int| 0 <= a < j ==> names[a] != who,
                decreases stake_balance.len() - j + if found { 0int } else { 1int },
            {
                if stake_balance[j].0 == state.stakes[k] {
                    assert(names[j as int] == who);
                    found = true;
                } else {
                    j = j + 1;
                }
            }
            if !found {
                proof {
                    names.index_of_first_ensures(who);
                    lemma_occurs(roll, who);
                    assert(roll.contains(who));
                    assert(unit * occurrences(roll, who) > 0) by (nonlinear_arith)
                        requires
                            unit > 0,
                            occurrences(roll, who) > 0,
                    ;
                    assert(balance_in(accounts, who) == 0);
                }
                return false;
            }
            k = k + 1;
        }
    }
    proof {
        assert forall|who: Seq<char>| #[trigger]
            balance_in(accounts, who) == unit * occurrences(roll, who) by {
            names.index_of_first_ensures(who);
            lemma_occurs(roll, who);
            match names.index_of_first(who) {
                Some(j) => {
                    assert(names[j] == who);
                },
                None => {
                    if unit == 0 {
                        assert(unit * occurrences(roll, who) == 0) by (nonlinear_arith)
                            requires
                                unit == 0,
                        ;
                    } else {
                        if roll.contains(who) {
                            let j = choose|j: int| 0 <= j < roll.len() && roll[j] == who;
                            assert(names.contains(roll[j]));
                        }
                        assert(unit * 0 == 0) by (nonlinear_arith);
                    }
                },
            }
        }
    }
    true
}

impl Registry {
    /// The records of the registry.
    pub fn snapshot(&self) -> (snapshot: Snapshot)
        ensures
            snapshot@ == self@,
            consistent(snapshot@),
    {
        self.is_consistent();
        let state = self.state();
        let snapshot = Snapshot {
            config: self.config().duplicate(),
            state: State {
                curr_executing_request_id: state.curr_executing_request_id,
                next_request_id: state.next_request_id,
                total_requests: state.total_requests,
                total_recurring_fee: state.total_recurring_fee,
                total_staked: state.total_staked,
                stakes: copy_texts(&state.stakes),
                last_epoch: state.last_epoch,
                executor: state.executor.clone(),
            },
            admin: copy_optional_text(self.admin()),
            new_admin: copy_optional_text(self.new_admin()),
            requests: self.requests().entries(),
            stake_balance: self.stake_balance().accounts(),
            recurring_balance: self.recurring_balance().accounts(),
            blacklist: copy_texts(self.blacklist()),
        };
        proof {
            assert(snapshot@.state == self@.state);
            assert(snapshot@ == self@);
        }
        snapshot
    }

    /// Makes a registry of records. There is one exactly where the records
    /// are consistent.
    pub fn restore(snapshot: Snapshot) -> (restored: Option<Registry>)
        ensures
            match restored {
                Some(registry) => registry@ == snapshot@ && consistent(snapshot@),
                None => !consistent(snapshot@),
            },
    {
        let ghost v = snapshot@;
        if snapshot.config.blocks_in_epoch == 0 {
            return None;
        }
        let state = &snapshot.state;
        if state.curr_executing_request_id != NO_REQUEST && state.curr_executing_request_id
            >= state.next_request_id {
            return None;
        }
        let requests = match RequestStore::from_entries(&snapshot.requests) {
            Some(store) => store,
            None => {
                return None;
            },
        };
        let pending = snapshot.requests.len();
        if pending > 0 && snapshot.requests[pending - 1].0 >= state.next_request_id {
            assert(!(v.requests[pending - 1].0 < v.state.next_request_id));
            return None;
        }
        assert(ids_below(v.requests, v.state.next_request_id)) by {
            assert forall|i: int| 0 <= i < v.requests.len() implies (#[trigger] v.requests[i]).0
                < v.state.next_request_id by {
                if i < pending - 1 {
                    assert(v.requests[i].0 < v.requests[pending - 1].0);
                }
            }
        }
        proof {
            lemma_ids_count(v.requests, v.state.next_request_id);
        }
        if state.total_requests != pending as u64 {
            return None;
        }
        match snapshot.config.stake_amount.checked_mul(state.stakes.len() as u128) {
            Some(due) => {
                if due != state.total_staked {
                    return None;
                }
            },
            None => {
                return None;
            },
        }
        let stake_balance = match Ledger::from_accounts(&snapshot.stake_balance) {
            Some(ledger) => ledger,
            None => {
                return None;
            },
        };
        if !stakes_match(&snapshot.config, state, &snapshot.stake_balance) {
            return None;
        }
        let recurring_balance = match Ledger::from_accounts(&snapshot.recurring_balance) {
            Some(ledger) => ledger,
            None => {
                return None;
            },
        };
        match sum_accounts(&snapshot.recurring_balance) {
            Some(total) => {
                if total != state.total_recurring_fee {
                    return None;
                }
            },
            None => {
                return None;
            },
        }
        if !is_ordered(&snapshot.blacklist) {
            return None;
        }
        let core = Core {
            config: snapshot.config,
            state: snapshot.state,
            admin: snapshot.admin,
            new_admin: snapshot.new_admin,
            requests,
            stake_balance,
            recurring_balance,
            blacklist: snapshot.blacklist,
        };
        assert(core@ == v);
        Some(Registry::assemble(core))
    }
}

} // verus!
