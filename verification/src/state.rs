//! The records that the registry keeps: its parameters, its counters and
//! stake roll, and the store of pending requests.

use vstd::prelude::*;
use crate::asset::{Asset, AssetInfo, AssetInfoView, AssetView, optional_asset_view};
use crate::msg::OrderBy;

verus! {

/// The parameters of the protocol.
#[derive(Clone, Debug, PartialEq, Eq)]
pub struct Config {
    /// The fee for one execution of a request.
    pub fee_amount: u128,
    /// The denomination of the fee.
    pub fee_denom: String,
    /// The asset that executors stake.
    pub auto: AssetInfo,
    /// The amount of one stake.
    pub stake_amount: u128,
    /// The length of an epoch, in blocks.
    pub blocks_in_epoch: u64,
}

/// The mathematical value of a [`Config`].
pub struct ConfigView {
    pub fee_amount: nat,
    pub fee_denom: Seq<char>,
    pub auto: AssetInfoView,
    pub stake_amount: nat,
    pub blocks_in_epoch: u64,
}

impl View for Config {
    type V = ConfigView;

    open spec fn view(&self) -> ConfigView {
        ConfigView {
            fee_amount: self.fee_amount as nat,
            fee_denom: self.fee_denom@,
            auto: self.auto@,
            stake_amount: self.stake_amount as nat,
            blocks_in_epoch: self.blocks_in_epoch,
        }
    }
}

impl Config {
    /// A copy of this value.
    pub fn duplicate(&self) -> (copy: Config)
        ensures
            copy@ == self@,
    {
        Config {
            fee_amount: self.fee_amount,
            fee_denom: self.fee_denom.clone(),
            auto: self.auto.duplicate(),
            stake_amount: self.stake_amount,
            blocks_in_epoch: self.blocks_in_epoch,
        }
    }
}

/// The id that stands for "no request is in execution".
pub const NO_REQUEST: u64 = u64::MAX;

/// The counters of the registry, the stake roll and the executor drawn from it.
#[derive(Clone, Debug, PartialEq, Eq)]
pub struct State {
    /// The request in execution, or [`NO_REQUEST`].
    pub curr_executing_request_id: u64,
    /// The id that the next request gets.
    pub next_request_id: u64,
    /// How many requests are pending.
    pub total_requests: u64,
    /// The sum of all recurring pools.
    pub total_recurring_fee: u128,
    /// The sum of all staked amounts.
    pub total_staked: u128,
    /// The stake roll: one entry for each stake, the staker's address.
    pub stakes: Vec<String>,
    /// The epoch for which an executor was last drawn.
    pub last_epoch: u64,
    /// The executor drawn then; empty where anyone may execute.
    pub executor: String,
}

/// The mathematical value of a [`State`].
pub struct StateView {
    pub curr_executing_request_id: u64,
    pub next_request_id: u64,
    pub total_requests: u64,
    pub total_recurring_fee: nat,
    pub total_staked: nat,
    pub stakes: Seq<Seq<char>>,
    pub last_epoch: u64,
    pub executor: Seq<char>,
}

/// The values of the entries of a stake roll, in order.
pub open spec fn roll_view(stakes: Seq<String>) -> Seq<Seq<char>> {
    stakes.map_values(|s: String| s@)
}

impl View for State {
    type V = StateView;

    open spec fn view(&self) -> StateView {
        StateView {
            curr_executing_request_id: self.curr_executing_request_id,
            next_request_id: self.next_request_id,
            total_requests: self.total_requests,
            total_recurring_fee: self.total_recurring_fee as nat,
            total_staked: self.total_staked as nat,
            stakes: roll_view(self.stakes@),
            last_epoch: self.last_epoch,
            executor: self.executor@,
        }
    }
}

/// A pending request.
#[derive(Clone, Debug, PartialEq, Eq)]
pub struct Request {
    /// Who created the request, and alone may cancel it.
    pub user: String,
    /// The address to call.
    pub target: String,
    /// The payload handed to the target, as it is.
    pub msg: Vec<u8>,
    /// The asset held in escrow for the target.
    pub input_asset: Option<Asset>,
    /// Whether the request stays after an execution.
    pub is_recurring: bool,
    /// The time of the block in which the request was created.
    pub created_at: u64,
}

/// The mathematical value of a [`Request`].
pub struct RequestView {
    pub user: Seq<char>,
    pub target: Seq<char>,
    pub msg: Seq<u8>,
    pub input_asset: Option<AssetView>,
    pub is_recurring: bool,
    pub created_at: u64,
}

impl View for Request {
    type V = RequestView;

    open spec fn view(&self) -> RequestView {
        RequestView {
            user: self.user@,
            target: self.target@,
            msg: self.msg@,
            input_asset: optional_asset_view(self.input_asset),
            is_recurring: self.is_recurring,
            created_at: self.created_at,
        }
    }
}

/// The payload of the empty request: an empty text in double quotes.
pub open spec fn empty_payload() -> Seq<u8> {
    seq![34u8, 34u8]
}

/// The request that stands for "no such request": no user, no target, the
/// empty payload, no asset, not recurring, created at time zero.
pub open spec fn empty_request() -> RequestView {
    RequestView {
        user: Seq::empty(),
        target: Seq::empty(),
        msg: empty_payload(),
        input_asset: None,
        is_recurring: false,
        created_at: 0,
    }
}

/// A copy of a list of bytes.
pub fn copy_bytes(bytes: &Vec<u8>) -> (copy: Vec<u8>)
    ensures
        copy@ == bytes@,
{
    let mut copy: Vec<u8> = Vec::new();
    let mut i: usize = 0;
    while i < bytes.len()
        invariant
            i <= bytes.len(),
            copy@.len() == i,
            forall|j: int| 0 <= j < i ==> copy@[j] == bytes@[j],
        decreases bytes.len() - i,
    {
        copy.push(bytes[i]);
        i = i + 1;
    }
    assert(copy@ =~= bytes@);
    copy
}

/// A copy of an optional asset.
pub fn copy_asset(asset: &Option<Asset>) -> (copy: Option<Asset>)
    ensures
        optional_asset_view(copy) == optional_asset_view(*asset),
{
    match asset {
        Some(a) => Some(a.duplicate()),
        None => None,
    }
}

impl Request {
    /// The request that stands for "no such request".
    pub fn empty() -> (request: Request)
        ensures
            request@ == empty_request(),
    {
        let mut msg: Vec<u8> = Vec::new();
        msg.push(34u8);
        msg.push(34u8);
        assert(msg@ =~= empty_payload());
        Request {
            user: String::new(),
            target: String::new(),
            msg,
            input_asset: None,
            is_recurring: false,
            created_at: 0,
        }
    }

    /// A copy of this value.
    pub fn duplicate(&self) -> (copy: Request)
        ensures
            copy@ == self@,
    {
        Request {
            user: self.user.clone(),
            target: self.target.clone(),
            msg: copy_bytes(&self.msg),
            input_asset: copy_asset(&self.input_asset),
            is_recurring: self.is_recurring,
            created_at: self.created_at,
        }
    }
}

/// The mathematical value of the request store: the pending requests with
/// their ids, by ascending id.
pub type Pending = Seq<(u64, RequestView)>;

/// The ids of the pending requests, in order.
pub open spec fn ids(pending: Pending) -> Seq<u64> {
    pending.map_values(|entry: (u64, RequestView)| entry.0)
}

/// Whether the ids ascend strictly, so that none occurs twice.
pub open spec fn ascending(pending: Pending) -> bool {
    forall|i: int, j: int| 0 <= i < j < pending.len() ==> pending[i].0 < pending[j].0
}

/// The request stored under `id`, if there is one.
pub open spec fn lookup(pending: Pending, id: u64) -> Option<RequestView> {
    match ids(pending).index_of_first(id) {
        Some(i) => Some(pending[i].1),
        None => None,
    }
}

/// The store without the request `id`.
pub open spec fn without(pending: Pending, id: u64) -> Pending {
    match ids(pending).index_of_first(id) {
        Some(i) => pending.remove(i),
        None => pending,
    }
}

/// Whether every stored id is below `bound`.
pub open spec fn ids_below(pending: Pending, bound: u64) -> bool {
    forall|i: int| 0 <= i < pending.len() ==> (#[trigger] pending[i]).0 < bound
}

/// The largest page that a listing returns.
pub const MAX_LIMIT: u32 = 30;

/// The size of a page where none is asked for.
pub const DEFAULT_LIMIT: u32 = 10;

/// The size of the page for the limit asked for: the default where none is
/// given, and never more than the maximum.
pub open spec fn page_size(limit: Option<u32>) -> nat {
    let asked = match limit {
        Some(n) => n,
        None => DEFAULT_LIMIT,
    };
    if asked <= MAX_LIMIT {
        asked as nat
    } else {
        MAX_LIMIT as nat
    }
}

/// Whether the id lies behind the cursor: every id does where there is none.
pub open spec fn behind(start_after: Option<u64>, id: u64) -> bool {
    match start_after {
        Some(cursor) => id > cursor,
        None => true,
    }
}

/// The requests of one page: those whose id is above the cursor, in the order
/// asked for (ascending where none is), and of those the first `page_size`.
pub open spec fn page_of(
    pending: Pending,
    start_after: Option<u64>,
    limit: Option<u32>,
    order_by: Option<OrderBy>,
) -> Pending {
    let eligible = pending.filter(|entry: (u64, RequestView)| behind(start_after, entry.0));
    let ordered = if order_by == Some(OrderBy::Desc) {
        eligible.reverse()
    } else {
        eligible
    };
    if page_size(limit) <= ordered.len() {
        ordered.take(page_size(limit) as int)
    } else {
        ordered
    }
}

/// In a store with ascending ids, the requests above the cursor are those
/// from the first such request on.
pub proof fn lemma_eligible_is_suffix(pending: Pending, start_after: Option<u64>, k: int)
    requires
        ascending(pending),
        0 <= k <= pending.len(),
        forall|i: int| 0 <= i < k ==> !behind(start_after, pending[i].0),
        forall|i: int| k <= i < pending.len() ==> behind(start_after, pending[i].0),
    ensures
        pending.filter(|entry: (u64, RequestView)| behind(start_after, entry.0)) == pending.skip(k),
    decreases pending.len(),
{
    let pred = |entry: (u64, RequestView)| behind(start_after, entry.0);
    reveal(Seq::filter);
    if pending.len() == 0 {
        assert(pending.filter(pred) =~= pending.skip(k));
    } else {
        let front = pending.drop_last();
        if k == pending.len() {
            lemma_eligible_is_suffix(front, start_after, k - 1);
            assert(front.skip(k - 1) =~= Seq::<(u64, RequestView)>::empty());
            assert(!pred(pending.last()));
            assert(pending.filter(pred) =~= pending.skip(k));
        } else {
            lemma_eligible_is_suffix(front, start_after, k);
            assert(pred(pending.last()));
            assert(front.skip(k).push(pending.last()) =~= pending.skip(k));
        }
    }
}

/// One stored request.
struct Stored {
    id: u64,
    request: Request,
}

/// The pending requests, each under its id.
pub struct RequestStore {
    entries: Vec<Stored>,
}

impl View for RequestStore {
    type V = Pending;

    closed spec fn view(&self) -> Pending {
        self.entries@.map_values(|e: Stored| (e.id, e.request@))
    }
}

impl RequestStore {
    #[verifier::type_invariant]
    spec fn sorted(self) -> bool {
        ascending(self@)
    }

    /// A store without requests.
    pub fn new() -> (store: RequestStore)
        ensures
            store@ == Seq::<(u64, RequestView)>::empty(),
    {
        let store = RequestStore { entries: Vec::new() };
        assert(store@ =~= Seq::<(u64, RequestView)>::empty());
        store
    }

    /// How many requests are pending.
    pub fn len(&self) -> (n: usize)
        ensures
            n == self@.len(),
            ascending(self@),
    {
        proof {
            use_type_invariant(self);
        }
        self.entries.len()
    }

    /// Where the request `id` stands, if it is stored.
    fn position(&self, id: u64) -> (found: Option<usize>)
        ensures
            match found {
                Some(i) => ids(self@).index_of_first(id) == Some(i as int) && i < self.entries.len(),
                None => ids(self@).index_of_first(id) is None,
            },
    {
        let ghost all = ids(self@);
        let mut i: usize = 0;
        while i < self.entries.len()
            invariant
                i <= self.entries.len(),
                all == ids(self@),
                all.len() == self.entries.len(),
                forall|j: int| 0 <= j < i ==> all[j] != id,
            decreases self.entries.len() - i,
        {
            if self.entries[i].id == id {
                proof {
                    all.index_of_first_ensures(id);
                    assert(all[i as int] == id);
                }
                return Some(i);
            }
            i = i + 1;
        }
        proof {
            all.index_of_first_ensures(id);
            if all.contains(id) {
                let k = all.index_of_first(id).unwrap();
                assert(all[k] == id);
            }
        }
        None
    }

    /// The request stored under `id`, if there is one.
    pub fn get(&self, id: u64) -> (found: Option<&Request>)
        ensures
            match found {
                Some(request) => lookup(self@, id) == Some(request@),
                None => lookup(self@, id) is None,
            },
            ascending(self@),
    {
        proof {
            use_type_invariant(self);
        }
        match self.position(id) {
            Some(i) => Some(&self.entries[i].request),
            None => None,
        }
    }

    /// Stores `request` under `id`, behind the others. Nothing is stored, and
    /// `false` returned, where a stored id is not below `id`.
    pub fn append(&mut self, id: u64, request: Request) -> (stored: bool)
        ensures
            stored == ids_below(old(self)@, id),
            stored ==> final(self)@ == old(self)@.push((id, request@)),
            !stored ==> final(self)@ == old(self)@,
            ascending(final(self)@),
    {
        proof {
            use_type_invariant(&*self);
        }
        let n = self.entries.len();
        if n > 0 && self.entries[n - 1].id >= id {
            assert(!(self@[n - 1].0 < id));
            return false;
        }
        assert(ids_below(self@, id)) by {
            assert forall|i: int| 0 <= i < self@.len() implies (#[trigger] self@[i]).0 < id by {
                if i < n - 1 {
                    assert(self@[i].0 < self@[n - 1].0);
                }
            }
        }
        let mut entries: Vec<Stored> = Vec::new();
        core::mem::swap(&mut entries, &mut self.entries);
        entries.push(Stored { id, request });
        let ghost target = old(self)@.push((id, request@));
        assert(entries@.map_values(|e: Stored| (e.id, e.request@)) =~= target);
        self.entries = entries;
        true
    }

    /// Takes the request `id` out of the store and returns it, if it is there.
    pub fn remove(&mut self, id: u64) -> (removed: Option<Request>)
        ensures
            match removed {
                Some(request) => lookup(old(self)@, id) == Some(request@),
                None => lookup(old(self)@, id) is None,
            },
            final(self)@ == without(old(self)@, id),
            ascending(final(self)@),
    {
        proof {
            use_type_invariant(&*self);
        }
        match self.position(id) {
            Some(i) => {
                let mut entries: Vec<Stored> = Vec::new();
                core::mem::swap(&mut entries, &mut self.entries);
                let taken = entries.remove(i);
                let ghost target = old(self)@.remove(i as int);
                assert(entries@.map_values(|e: Stored| (e.id, e.request@)) =~= target);
                self.entries = entries;
                Some(taken.request)
            },
            None => None,
        }
    }

    /// Makes a store of a list of requests with their ids, unless the ids
    /// do not ascend.
    pub fn from_entries(list: &Vec<(u64, Request)>) -> (made: Option<RequestStore>)
        ensures
            match made {
                Some(store) => store@ == pairs_view(list@) && ascending(store@),
                None => !ascending(pairs_view(list@)),
            },
    {
        let ghost all = pairs_view(list@);
        let mut entries: Vec<Stored> = Vec::new();
        let mut i: usize = 0;
        while i < list.len()
            invariant
                i <= list.len(),
                all == pairs_view(list@),
                entries@.len() == i,
                forall|j: int|
                    0 <= j < i ==> (#[trigger] entries@[j]).id == list@[j].0 && entries@[j].request@
                        == list@[j].1@,
                forall|a: int, b: int| 0 <= a < b < i ==> all[a].0 < all[b].0,
            decreases list.len() - i,
        {
            if i > 0 && list[i - 1].0 >= list[i].0 {
                assert(!(all[i - 1].0 < all[i as int].0));
                return None;
            }
            assert forall|a: int, b: int| 0 <= a < b < i + 1 implies all[a].0 < all[b].0 by {
                if b == i && a < i - 1 {
                    assert(all[a].0 < all[i - 1].0);
                }
            }
            entries.push(Stored { id: list[i].0, request: list[i].1.duplicate() });
            i = i + 1;
        }
        assert(entries@.map_values(|e: Stored| (e.id, e.request@)) =~= all);
        Some(RequestStore { entries })
    }

    /// The stored requests with their ids, by ascending id.
    pub fn entries(&self) -> (list: Vec<(u64, Request)>)
        ensures
            pairs_view(list@) == self@,
            ascending(self@),
    {
        proof {
            use_type_invariant(self);
        }
        let mut list: Vec<(u64, Request)> = Vec::new();
        let mut i: usize = 0;
        while i < self.entries.len()
            invariant
                i <= self.entries.len(),
                list@.len() == i,
                forall|j: int| 0 <= j < i ==> (#[trigger] list@[j]).0 == self@[j].0 && list@[j].1@ == self@[j].1,
            decreases self.entries.len() - i,
        {
            list.push((self.entries[i].id, self.entries[i].request.duplicate()));
            i = i + 1;
        }
        assert(pairs_view(list@) =~= self@);
        list
    }
}

/// The value of a list of requests with their ids.
pub open spec fn pairs_view(list: Seq<(u64, Request)>) -> Pending {
    list.map_values(|pair: (u64, Request)| (pair.0, pair.1@))
}

/// Reads one page of the store: the requests whose id is above `start_after`,
/// in the order asked for, up to the page size.
pub fn read_requests(
    store: &RequestStore,
    start_after: Option<u64>,
    limit: Option<u32>,
    order_by: Option<OrderBy>,
) -> (page: Vec<(u64, Request)>)
    ensures
        pairs_view(page@) == page_of(store@, start_after, limit, order_by),
{
    proof {
        use_type_invariant(store);
    }
    let asked: u32 = match limit {
        Some(n) => n,
        None => DEFAULT_LIMIT,
    };
    let size: usize = if asked <= MAX_LIMIT {
        asked as usize
    } else {
        MAX_LIMIT as usize
    };
    let n = store.entries.len();
    // The first request above the cursor.
    let mut k: usize = 0;
    while k < n && !is_behind(start_after, store.entries[k].id)
        invariant
            k <= n,
            n == store.entries.len(),
            forall|i: int| 0 <= i < k ==> !behind(start_after, store@[i].0),
        decreases n - k,
    {
        k = k + 1;
    }
    let ghost eligible = store@.skip(k as int);
    proof {
        assert forall|i: int| k <= i < n implies behind(start_after, store@[i].0) by {
            if i > k {
                assert(store@[k as int].0 < store@[i].0);
            }
        }
        lemma_eligible_is_suffix(store@, start_after, k as int);
    }
    let count: usize = if size <= n - k {
        size
    } else {
        n - k
    };
    let descending = match order_by {
        Some(OrderBy::Desc) => true,
        _ => false,
    };
    let mut page: Vec<(u64, Request)> = Vec::new();
    let mut j: usize = 0;
    while j < count
        invariant
            j <= count,
            count <= n - k,
            n == store.entries.len(),
            page@.len() == j,
            forall|m: int|
                0 <= m < j ==> {
                    let at = if descending {
                        n - 1 - m
                    } else {
                        k + m
                    };
                    (#[trigger] page@[m]).0 == store@[at].0 && page@[m].1@ == store@[at].1
                },
        decreases count - j,
    {
        let at: usize = if descending {
            n - 1 - j
        } else {
            k + j
        };
        page.push((store.entries[at].id, store.entries[at].request.duplicate()));
        j = j + 1;
    }
    proof {
        let ordered = if order_by == Some(OrderBy::Desc) {
            eligible.reverse()
        } else {
            eligible
        };
        assert(descending == (order_by == Some(OrderBy::Desc)));
        assert(ordered.len() == n - k);
        let wanted = page_of(store@, start_after, limit, order_by);
        assert(wanted.len() == count);
        assert forall|m: int| 0 <= m < count implies pairs_view(page@)[m] == wanted[m] by {
            if descending {
                assert(ordered[m] == eligible[eligible.len() - 1 - m]);
            } else {
                assert(ordered[m] == eligible[m]);
            }
        }
        assert(pairs_view(page@) =~= wanted);
    }
    page
}

/// Whether the id lies behind the cursor.
fn is_behind(start_after: Option<u64>, id: u64) -> (b: bool)
    ensures
        b == behind(start_after, id),
{
    match start_after {
        Some(cursor) => id > cursor,
        None => true,
    }
}

} // verus!
