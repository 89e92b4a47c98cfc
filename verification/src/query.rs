//! The questions that the registry answers. None of them changes it.

use vstd::prelude::*;
use crate::contract::copy_texts;
use crate::ledger::balance_in;
use crate::msg::{
    AdminResponse, BlacklistResponse, Env, EnvView, EpochInfoResponse, OrderBy, QueryMsg,
    RecurringFeeAmountResponse, RequestInfoResponse, RequestInfoResponseView, RequestsResponse,
    StakeAmountResponse, StakesResponse, StateResponse, optional_text, texts_view,
};
use crate::registry::{Registry, RegistryView};
use crate::rotation::{epoch, epoch_of};
use crate::state::{
    Config, Pending, Request, RequestView, empty_request, lookup, page_of, pairs_view,
    read_requests, roll_view,
};

verus! {

/// A copy of an optional text.
pub fn copy_optional_text(text: &Option<String>) -> (copy: Option<String>)
    ensures
        optional_text(copy) == optional_text(*text),
{
    match text {
        Some(t) => Some(t.clone()),
        None => None,
    }
}

/// The admin.
pub fn query_admin(registry: &Registry) -> (response: AdminResponse)
    ensures
        optional_text(response.admin) == registry@.admin,
{
    AdminResponse { admin: copy_optional_text(registry.admin()) }
}

/// The address that the admin proposed as the next admin.
pub fn query_pending_admin(registry: &Registry) -> (response: AdminResponse)
    ensures
        optional_text(response.admin) == registry@.new_admin,
{
    AdminResponse { admin: copy_optional_text(registry.new_admin()) }
}

/// The parameters.
pub fn query_config(registry: &Registry) -> (config: Config)
    ensures
        config@ == registry@.config,
{
    registry.config().duplicate()
}

/// What is told of the request `id`: the request, or the empty request where
/// none is stored under that id.
pub open spec fn request_info(v: RegistryView, id: u64) -> RequestInfoResponseView {
    RequestInfoResponseView {
        id,
        request: match lookup(v.requests, id) {
            Some(request) => request,
            None => empty_request(),
        },
    }
}

/// The request `id`. For an id under which nothing is stored, the answer is
/// the empty request and no error.
pub fn query_request_info(registry: &Registry, id: u64) -> (response: RequestInfoResponse)
    ensures
        response@ == request_info(registry@, id),
{
    let request = match registry.requests().get(id) {
        Some(request) => request.duplicate(),
        None => Request::empty(),
    };
    RequestInfoResponse { id, request }
}

/// The requests of a page as they are told.
pub open spec fn told(page: Pending) -> Seq<RequestInfoResponseView> {
    page.map_values(|entry: (u64, RequestView)| RequestInfoResponseView { id: entry.0, request: entry.1 })
}

/// One page of the pending requests: those whose id is above `start_after`,
/// in the order asked for, up to the page size.
pub fn query_requests(
    registry: &Registry,
    start_after: Option<u64>,
    limit: Option<u32>,
    order_by: Option<OrderBy>,
) -> (response: RequestsResponse)
    ensures
        response@ == told(page_of(registry@.requests, start_after, limit, order_by)),
{
    let mut page = read_requests(registry.requests(), start_after, limit, order_by);
    let ghost wanted = pairs_view(page@);
    let mut requests: Vec<RequestInfoResponse> = Vec::new();
    let mut i: usize = 0;
    while i < page.len()
        invariant
            i <= page.len(),
            requests@.len() == i,
            wanted == pairs_view(page@),
            forall|j: int| 0 <= j < i ==> (#[trigger] requests@[j])@ == told(wanted)[j],
        decreases page.len() - i,
    {
        requests.push(RequestInfoResponse { id: page[i].0, request: page[i].1.duplicate() });
        i = i + 1;
    }
    let response = RequestsResponse { requests };
    assert(response@ =~= told(wanted));
    response
}

/// The counters of a registry as they are told.
pub open spec fn counters(v: RegistryView) -> StateResponse {
    StateResponse {
        curr_executing_request_id: v.state.curr_executing_request_id,
        total_requests: v.state.total_requests,
        total_recurring_fee: v.state.total_recurring_fee as u128,
        next_request_id: v.state.next_request_id,
        total_stake_amount: v.state.total_staked as u128,
        stakes_len: v.state.stakes.len() as u64,
    }
}

/// The counters. The number of pending requests is the number of requests
/// stored, and the staked total is one stake amount for each entry of the
/// stake roll.
pub fn query_state(registry: &Registry) -> (response: StateResponse)
    ensures
        response == counters(registry@),
        response.total_requests == registry@.requests.len(),
        response.total_stake_amount == registry@.config.stake_amount * response.stakes_len,
{
    registry.is_consistent();
    let state = registry.state();
    StateResponse {
        curr_executing_request_id: state.curr_executing_request_id,
        total_requests: state.total_requests,
        total_recurring_fee: state.total_recurring_fee,
        next_request_id: state.next_request_id,
        total_stake_amount: state.total_staked,
        stakes_len: state.stakes.len() as u64,
    }
}

/// The epoch of the current height, the epoch for which an executor was last
/// drawn, and that executor.
pub fn query_epoch_info(registry: &Registry, env: &Env) -> (response: EpochInfoResponse)
    ensures
        response.cur_epoch == epoch_of(env.height, registry@.config.blocks_in_epoch),
        response.last_epoch == registry@.state.last_epoch,
        response.executor@ == registry@.state.executor,
{
    registry.is_consistent();
    let state = registry.state();
    EpochInfoResponse {
        cur_epoch: epoch(env.height, registry.config().blocks_in_epoch),
        last_epoch: state.last_epoch,
        executor: state.executor.clone(),
    }
}

/// What `user` holds in the recurring pool.
pub fn query_recurring_fees(registry: &Registry, user: String) -> (response: RecurringFeeAmountResponse)
    ensures
        response.amount == balance_in(registry@.recurring_balance, user@),
{
    RecurringFeeAmountResponse { amount: registry.recurring_balance().balance(&user) }
}

/// What `user` has staked.
pub fn query_stake_amount(registry: &Registry, user: String) -> (response: StakeAmountResponse)
    ensures
        response.amount == balance_in(registry@.stake_balance, user@),
{
    StakeAmountResponse { amount: registry.stake_balance().balance(&user) }
}

/// The smaller of a number and a length.
pub open spec fn capped(n: int, len: nat) -> int {
    if n <= len {
        n
    } else {
        len as int
    }
}

/// The entries of the stake roll from position `start` on, `limit` of them
/// at most; none where the roll ends before `start`.
pub open spec fn roll_slice(roll: Seq<Seq<char>>, start: u64, limit: u64) -> Seq<Seq<char>> {
    roll.subrange(capped(start as int, roll.len()), capped(start + limit, roll.len()))
}

/// A part of the stake roll, as it stands.
pub fn query_stakes(registry: &Registry, start: u64, limit: u64) -> (response: StakesResponse)
    ensures
        texts_view(response.stakes@) == roll_slice(registry@.state.stakes, start, limit),
{
    let roll = &registry.state().stakes;
    let ghost all = roll_view(roll@);
    let len = roll.len();
    let from: usize = if start <= len as u64 {
        start as usize
    } else {
        len
    };
    let to: usize = match start.checked_add(limit) {
        Some(end) => if end <= len as u64 {
            end as usize
        } else {
            len
        },
        None => len,
    };
    let mut stakes: Vec<String> = Vec::new();
    let mut i: usize = from;
    while i < to
        invariant
            from <= i <= to <= len,
            len == roll.len(),
            stakes@.len() == i - from,
            forall|j: int| 0 <= j < i - from ==> (#[trigger] stakes@[j])@ == roll@[from + j]@,
        decreases to - i,
    {
        stakes.push(roll[i].clone());
        i = i + 1;
    }
    assert(texts_view(stakes@) =~= roll_slice(all, start, limit));
    StakesResponse { stakes }
}

/// The blacklist, in the order of the targets' bytes.
pub fn query_blacklist(registry: &Registry) -> (response: BlacklistResponse)
    ensures
        texts_view(response.blacklist@) == registry@.blacklist,
{
    BlacklistResponse { blacklist: copy_texts(registry.blacklist()) }
}

/// An answer of the registry.
#[derive(Clone, Debug, PartialEq, Eq)]
pub enum QueryResponse {
    Admin(AdminResponse),
    PendingAdmin(AdminResponse),
    Config(Config),
    State(StateResponse),
    RecurringFees(RecurringFeeAmountResponse),
    RequestInfo(RequestInfoResponse),
    Requests(RequestsResponse),
    EpochInfo(EpochInfoResponse),
    StakeAmount(StakeAmountResponse),
    Stakes(StakesResponse),
    Blacklist(BlacklistResponse),
}

/// Whether `response` is the answer to `msg`.
pub open spec fn answers(v: RegistryView, env: EnvView, msg: QueryMsg, response: QueryResponse) -> bool {
    match msg {
        QueryMsg::Admin {  } => response matches QueryResponse::Admin(r) && optional_text(r.admin)
            == v.admin,
        QueryMsg::PendingAdmin {  } => response matches QueryResponse::PendingAdmin(r)
            && optional_text(r.admin) == v.new_admin,
        QueryMsg::Config {  } => response matches QueryResponse::Config(r) && r@ == v.config,
        QueryMsg::State {  } => response matches QueryResponse::State(r) && r == counters(v),
        QueryMsg::RecurringFees { user } => response matches QueryResponse::RecurringFees(r)
            && r.amount == balance_in(v.recurring_balance, user@),
        QueryMsg::RequestInfo { id } => response matches QueryResponse::RequestInfo(r) && r@
            == request_info(v, id),
        QueryMsg::Requests { start_after, limit, order_by } => response matches QueryResponse::Requests(r)
            && r@ == told(page_of(v.requests, start_after, limit, order_by)),
        QueryMsg::EpochInfo {  } => response matches QueryResponse::EpochInfo(r) && r.cur_epoch
            == epoch_of(env.height, v.config.blocks_in_epoch) && r.last_epoch == v.state.last_epoch
            && r.executor@ == v.state.executor,
        QueryMsg::StakeAmount { user } => response matches QueryResponse::StakeAmount(r) && r.amount
            == balance_in(v.stake_balance, user@),
        QueryMsg::Stakes { start, limit } => response matches QueryResponse::Stakes(r) && texts_view(
            r.stakes@,
        ) == roll_slice(v.state.stakes, start, limit),
        QueryMsg::Blacklist {  } => response matches QueryResponse::Blacklist(r) && texts_view(
            r.blacklist@,
        ) == v.blacklist,
    }
}

/// Answers a question.
pub fn query(registry: &Registry, env: &Env, msg: QueryMsg) -> (response: QueryResponse)
    ensures
        answers(registry@, env@, msg, response),
{
    match msg {
        QueryMsg::Admin {  } => QueryResponse::Admin(query_admin(registry)),
        QueryMsg::PendingAdmin {  } => QueryResponse::PendingAdmin(query_pending_admin(registry)),
        QueryMsg::Config {  } => QueryResponse::Config(query_config(registry)),
        QueryMsg::RequestInfo { id } => QueryResponse::RequestInfo(query_request_info(registry, id)),
        QueryMsg::Requests { start_after, limit, order_by } => QueryResponse::Requests(
            query_requests(registry, start_after, limit, order_by),
        ),
        QueryMsg::State {  } => QueryResponse::State(query_state(registry)),
        QueryMsg::EpochInfo {  } => QueryResponse::EpochInfo(query_epoch_info(registry, env)),
        QueryMsg::RecurringFees { user } => QueryResponse::RecurringFees(
            query_recurring_fees(registry, user),
        ),
        QueryMsg::StakeAmount { user } => QueryResponse::StakeAmount(query_stake_amount(registry, user)),
        QueryMsg::Stakes { start, limit } => QueryResponse::Stakes(query_stakes(registry, start, limit)),
        QueryMsg::Blacklist {  } => QueryResponse::Blacklist(query_blacklist(registry)),
    }
}

} // verus!
