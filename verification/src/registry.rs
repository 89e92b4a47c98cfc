//! The registry as one value: parameters, counters, ledgers, blacklist and
//! request store, together with what always holds between them.

use vstd::prelude::*;
use crate::asset::{AssetInfo, AssetInfoView};
use crate::blacklist::ordered;
use crate::ledger::{Accounts, Ledger, balance_in, holders, total_of};
use crate::msg::{optional_text, texts_view};
use crate::state::{
    Config, ConfigView, NO_REQUEST, Pending, RequestStore, State, StateView, ascending, ids_below,
};

verus! {

/// How many entries of the stake roll belong to `who`.
pub open spec fn occurrences(roll: Seq<Seq<char>>, who: Seq<char>) -> nat
    decreases roll.len(),
{
    if roll.len() == 0 {
        0
    } else {
        occurrences(roll.drop_last(), who) + if roll.last() == who {
            1nat
        } else {
            0nat
        }
    }
}

/// The roll once the entry at `index` is taken out: the last entry moves to
/// its place.
pub open spec fn swap_removed(roll: Seq<Seq<char>>, index: int) -> Seq<Seq<char>>
    recommends
        0 <= index < roll.len(),
{
    roll.update(index, roll.last()).drop_last()
}

/// Nobody has more entries than the roll is long.
pub proof fn lemma_occurrences_bound(roll: Seq<Seq<char>>, who: Seq<char>)
    ensures
        occurrences(roll, who) <= roll.len(),
    decreases roll.len(),
{
    if roll.len() > 0 {
        lemma_occurrences_bound(roll.drop_last(), who);
    }
}

/// An entry added at the end counts for its owner and for nobody else.
pub proof fn lemma_occurrences_push(roll: Seq<Seq<char>>, entry: Seq<char>, who: Seq<char>)
    ensures
        occurrences(roll.push(entry), who) == occurrences(roll, who) + if entry == who {
            1nat
        } else {
            0nat
        },
{
    assert(roll.push(entry).drop_last() =~= roll);
}

/// Replacing an entry takes one from its old owner and gives one to the new.
pub proof fn lemma_occurrences_update(
    roll: Seq<Seq<char>>,
    index: int,
    entry: Seq<char>,
    who: Seq<char>,
)
    requires
        0 <= index < roll.len(),
    ensures
        occurrences(roll.update(index, entry), who) + if roll[index] == who {
            1nat
        } else {
            0nat
        } == occurrences(roll, who) + if entry == who {
            1nat
        } else {
            0nat
        },
    decreases roll.len(),
{
    let changed = roll.update(index, entry);
    if index == roll.len() - 1 {
        assert(changed.drop_last() =~= roll.drop_last());
    } else {
        lemma_occurrences_update(roll.drop_last(), index, entry, who);
        assert(changed.drop_last() =~= roll.drop_last().update(index, entry));
    }
}

/// Taking an entry out takes one from its owner and leaves the others theirs.
pub proof fn lemma_occurrences_swap_removed(roll: Seq<Seq<char>>, index: int, who: Seq<char>)
    requires
        0 <= index < roll.len(),
    ensures
        occurrences(swap_removed(roll, index), who) + if roll[index] == who {
            1nat
        } else {
            0nat
        } == occurrences(roll, who),
        swap_removed(roll, index).len() == roll.len() - 1,
{
    lemma_occurrences_update(roll, index, roll.last(), who);
    let changed = roll.update(index, roll.last());
    assert(changed.last() == roll.last());
}

/// The mathematical value of a registry.
pub struct RegistryView {
    /// The parameters.
    pub config: ConfigView,
    /// The counters, the stake roll and the executor.
    pub state: StateView,
    /// The admin.
    pub admin: Option<Seq<char>>,
    /// The address that the admin proposed as the next admin.
    pub new_admin: Option<Seq<char>>,
    /// The pending requests, by ascending id.
    pub requests: Pending,
    /// What each address has staked.
    pub stake_balance: Accounts,
    /// What each address holds in its recurring pool.
    pub recurring_balance: Accounts,
    /// The targets that no request may call.
    pub blacklist: Seq<Seq<char>>,
}

/// What holds of every registry at all times.
pub open spec fn consistent(v: RegistryView) -> bool {
    // An epoch has at least one block.
    &&& v.config.blocks_in_epoch > 0
    // The counter of pending requests counts the stored requests.
    &&& v.state.total_requests == v.requests.len()
    // No id is stored twice, and every stored id was handed out before.
    &&& ascending(v.requests)
    &&& ids_below(v.requests, v.state.next_request_id)
    // The request in execution, if any, was handed out before.
    &&& (v.state.curr_executing_request_id == NO_REQUEST || v.state.curr_executing_request_id
        < v.state.next_request_id)
    // The stake roll has one entry for each stake paid.
    &&& v.state.total_staked == v.config.stake_amount * v.state.stakes.len()
    &&& forall|who: Seq<char>| #[trigger]
        balance_in(v.stake_balance, who) == v.config.stake_amount * occurrences(v.state.stakes, who)
    // The recurring pools add up to their recorded sum.
    &&& v.state.total_recurring_fee == total_of(v.recurring_balance)
    // No address has two accounts.
    &&& holders(v.stake_balance).no_duplicates()
    &&& holders(v.recurring_balance).no_duplicates()
    // The blacklist is in the order of bytes, so that no target is on it twice.
    &&& ordered(v.blacklist)
}

/// The parts of a registry.
pub(crate) struct Core {
    pub(crate) config: Config,
    pub(crate) state: State,
    pub(crate) admin: Option<String>,
    pub(crate) new_admin: Option<String>,
    pub(crate) requests: RequestStore,
    pub(crate) stake_balance: Ledger,
    pub(crate) recurring_balance: Ledger,
    pub(crate) blacklist: Vec<String>,
}

impl Core {
    /// The value of the registry that these parts make.
    pub(crate) open spec fn view(&self) -> RegistryView {
        RegistryView {
            config: self.config@,
            state: self.state@,
            admin: optional_text(self.admin),
            new_admin: optional_text(self.new_admin),
            requests: self.requests@,
            stake_balance: self.stake_balance@,
            recurring_balance: self.recurring_balance@,
            blacklist: texts_view(self.blacklist@),
        }
    }
}

/// A registry without requests, stakes or admin, whose parameters are zero
/// but for the length of an epoch, which is one block.
pub open spec fn blank_registry() -> RegistryView {
    RegistryView {
        config: ConfigView {
            fee_amount: 0,
            fee_denom: Seq::empty(),
            auto: AssetInfoView::NativeToken { denom: Seq::empty() },
            stake_amount: 0,
            blocks_in_epoch: 1,
        },
        state: StateView {
            curr_executing_request_id: NO_REQUEST,
            next_request_id: 0,
            total_requests: 0,
            total_recurring_fee: 0,
            total_staked: 0,
            stakes: Seq::empty(),
            last_epoch: 0,
            executor: Seq::empty(),
        },
        admin: None,
        new_admin: None,
        requests: Seq::empty(),
        stake_balance: Seq::empty(),
        recurring_balance: Seq::empty(),
        blacklist: Seq::empty(),
    }
}

impl Core {
    /// Parts that make the blank registry.
    pub(crate) fn blank() -> (core: Core)
        ensures
            core@ == blank_registry(),
            consistent(core@),
    {
        let core = Core {
            config: Config {
                fee_amount: 0,
                fee_denom: String::new(),
                auto: AssetInfo::NativeToken { denom: String::new() },
                stake_amount: 0,
                blocks_in_epoch: 1,
            },
            state: State {
                curr_executing_request_id: NO_REQUEST,
                next_request_id: 0,
                total_requests: 0,
                total_recurring_fee: 0,
                total_staked: 0,
                stakes: Vec::new(),
                last_epoch: 0,
                executor: String::new(),
            },
            admin: None,
            new_admin: None,
            requests: RequestStore::new(),
            stake_balance: Ledger::new(),
            recurring_balance: Ledger::new(),
            blacklist: Vec::new(),
        };
        proof {
            assert(core@.state.stakes =~= Seq::<Seq<char>>::empty());
            assert(core@.blacklist =~= Seq::<Seq<char>>::empty());
            assert(core@.state == blank_registry().state);
            assert(core@ == blank_registry());
            assert forall|who: Seq<char>| #[trigger]
                balance_in(core@.stake_balance, who) == core@.config.stake_amount * occurrences(
                    core@.state.stakes,
                    who,
                ) by {
                holders(core@.stake_balance).index_of_first_ensures(who);
            }
        }
        core
    }
}

/// The registry. Its parts can be read and are changed by the operations of
/// the protocol alone, so what holds between them always holds.
pub struct Registry {
    pub(crate) core: Core,
}

impl View for Registry {
    type V = RegistryView;

    closed spec fn view(&self) -> RegistryView {
        self.core@
    }
}

impl Registry {
    #[verifier::type_invariant]
    pub(crate) closed spec fn well_formed(self) -> bool {
        consistent(self.core@)
    }

    /// The parts, to read.
    pub(crate) fn parts(&self) -> (core: &Core)
        ensures
            core@ == self@,
            consistent(core@),
    {
        proof {
            use_type_invariant(self);
        }
        &self.core
    }

    /// Makes a registry of parts between which everything holds that must.
    pub(crate) fn assemble(core: Core) -> (registry: Registry)
        requires
            consistent(core@),
        ensures
            registry@ == core@,
    {
        Registry { core }
    }

    /// Takes the parts out, leaving a blank registry behind.
    pub(crate) fn take(&mut self) -> (core: Core)
        ensures
            core@ == old(self)@,
            consistent(core@),
    {
        proof {
            use_type_invariant(&*self);
        }
        let mut core = Core::blank();
        core::mem::swap(&mut core, &mut self.core);
        core
    }

    /// Puts parts in, in place of those that are there.
    pub(crate) fn put(&mut self, core: Core)
        requires
            consistent(core@),
        ensures
            final(self)@ == core@,
    {
        self.core = core;
    }

    /// Every registry is consistent.
    pub fn is_consistent(&self)
        ensures
            consistent(self@),
    {
        proof {
            use_type_invariant(self);
        }
    }

    /// The parameters.
    pub fn config(&self) -> (config: &Config)
        ensures
            config@ == self@.config,
    {
        &self.core.config
    }

    /// The counters, the stake roll and the executor.
    pub fn state(&self) -> (state: &State)
        ensures
            state@ == self@.state,
    {
        &self.core.state
    }

    /// The admin.
    pub fn admin(&self) -> (admin: &Option<String>)
        ensures
            optional_text(*admin) == self@.admin,
    {
        &self.core.admin
    }

    /// The address proposed as the next admin.
    pub fn new_admin(&self) -> (admin: &Option<String>)
        ensures
            optional_text(*admin) == self@.new_admin,
    {
        &self.core.new_admin
    }

    /// The pending requests.
    pub fn requests(&self) -> (store: &RequestStore)
        ensures
            store@ == self@.requests,
    {
        &self.core.requests
    }

    /// What each address has staked.
    pub fn stake_balance(&self) -> (ledger: &Ledger)
        ensures
            ledger@ == self@.stake_balance,
    {
        &self.core.stake_balance
    }

    /// What each address holds in its recurring pool.
    pub fn recurring_balance(&self) -> (ledger: &Ledger)
        ensures
            ledger@ == self@.recurring_balance,
    {
        &self.core.recurring_balance
    }

    /// The targets that no request may call.
    pub fn blacklist(&self) -> (list: &Vec<String>)
        ensures
            texts_view(list@) == self@.blacklist,
    {
        &self.core.blacklist
    }
}

} // verus!
