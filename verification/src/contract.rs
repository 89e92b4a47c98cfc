//! The operations of the registry. Each one either succeeds, changes the
//! registry and hands back instructions for the host, or fails with an error
//! and leaves the registry as it was.

use vstd::prelude::*;
use crate::asset::{
    Asset, AssetInfo, AssetInfoView, AssetView, CoinView, check_failure, find_denom,
    first_of_denom, lemma_first_of_denom, transfer_of,
};
use crate::blacklist::{lemma_without_target, ordered, put_target, with_target};
use crate::text::lowercase_of;
use crate::error::{CommonError, ContractError, ContractErrorView, not_found, unauthorized};
use crate::payment::{must_pay, payment_in};
use crate::ledger::{
    balance_in, holders, lemma_balance_within_total, lemma_with_balance, with_balance,
};
use crate::msg::{
    CosmosMsg, CosmosMsgView, CreateOrUpdateConfig, CreateRequestInfo, CreateRequestInfoView,
    Cw20HookMsg, Cw20ReceiveMsg, Env, EnvView, Event, EventView, ExecuteMsg, InstantiateMsg,
    optional_text, MessageInfo, MessageInfoView, REPLY_REQUEST_EXECUTED, Reply, ReplyOn, Response,
    ResponseView, SubMsg, SubMsgView, messages_view, outcome, plain, texts_view,
};
use crate::registry::{
    Core, Registry, RegistryView, consistent, lemma_occurrences_bound, lemma_occurrences_push,
    lemma_occurrences_swap_removed, occurrences, swap_removed,
};
use crate::rotation::{_update_executor, epoch_of, first_draw, rotated};
use crate::state::{
    Config, ConfigView, NO_REQUEST, Pending, Request, RequestView, StateView, ascending,
    copy_asset, copy_bytes, ids, ids_below, lookup, roll_view, without,
};

verus! {

/// What an operation does: where `failure` names an error, it returns that
/// error and the registry stays as it was; else it returns `response` and the
/// registry becomes `next`.
pub open spec fn transition(
    pre: RegistryView,
    post: RegistryView,
    result: Result<ResponseView, ContractErrorView>,
    failure: Option<ContractErrorView>,
    next: RegistryView,
    response: ResponseView,
) -> bool {
    match failure {
        Some(e) => result == Err::<ResponseView, ContractErrorView>(e) && post == pre,
        None => result == Ok::<ResponseView, ContractErrorView>(response) && post == next,
    }
}

/// The state after the rotation that an operation at the height of `env`
/// starts with.
pub open spec fn rotated_at(v: RegistryView, env: EnvView) -> StateView {
    rotated(v.state, env.height, v.config.blocks_in_epoch, first_draw(env.height as u128))
}

/// In a store whose ids ascend and lie below `bound`, there are at most
/// `bound` requests.
pub proof fn lemma_ids_count(pending: Pending, bound: u64)
    requires
        ascending(pending),
        ids_below(pending, bound),
    ensures
        pending.len() <= bound,
    decreases pending.len(),
{
    if pending.len() > 0 {
        let front = pending.drop_last();
        let last = pending.last();
        assert(pending[pending.len() - 1].0 < bound);
        assert forall|i: int| 0 <= i < front.len() implies (#[trigger] front[i]).0 < last.0 by {
            assert(pending[i].0 < pending[pending.len() - 1].0);
        }
        lemma_ids_count(front, last.0);
    }
}

/// Where `who` stands in a list of addresses, if it is there.
pub fn find_text(list: &Vec<String>, who: &String) -> (found: Option<usize>)
    ensures
        match found {
            Some(i) => texts_view(list@).index_of_first(who@) == Some(i as int) && i < list.len(),
            None => texts_view(list@).index_of_first(who@) is None,
        },
        found is Some == texts_view(list@).contains(who@),
{
    let ghost all = texts_view(list@);
    let mut i: usize = 0;
    while i < list.len()
        invariant
            i <= list.len(),
            all == texts_view(list@),
            forall|j: int| 0 <= j < i ==> all[j] != who@,
        decreases list.len() - i,
    {
        if list[i] == *who {
            proof {
                all.index_of_first_ensures(who@);
                assert(all[i as int] == who@);
            }
            return Some(i);
        }
        i = i + 1;
    }
    proof {
        all.index_of_first_ensures(who@);
    }
    None
}

/// Whether the first coin of denomination `denom` among `funds` holds at
/// least `amount`.
pub open spec fn covers(funds: Seq<CoinView>, denom: Seq<char>, amount: nat) -> bool {
    match first_of_denom(funds, denom) {
        Some(i) => funds[i].amount >= amount,
        None => false,
    }
}

/// The coins that are left once `fee` is taken from the first coin of
/// denomination `denom`.
pub open spec fn fee_removed(funds: Seq<CoinView>, denom: Seq<char>, fee: nat) -> Seq<CoinView> {
    match first_of_denom(funds, denom) {
        Some(i) => funds.update(i, CoinView { denom: funds[i].denom, amount: (funds[i].amount - fee) as nat }),
        None => funds,
    }
}

/// The coins that can cover the asset of a request: those sent, less the fee
/// where the request pays one.
pub open spec fn available(v: RegistryView, info: MessageInfoView, req: CreateRequestInfoView) -> Seq<CoinView> {
    if req.is_recurring {
        info.funds
    } else {
        fee_removed(info.funds, v.config.fee_denom, v.config.fee_amount)
    }
}

/// Why a request cannot be created: the first of these that holds. The target
/// is blacklisted; the request is recurring and holds an asset; it is not
/// recurring and no coin of the fee's denomination was sent, or less than the
/// fee; its asset is a native coin and what is left of the coins sent does
/// not cover it; no id is left to hand out.
pub open spec fn create_request_failure(
    v: RegistryView,
    info: MessageInfoView,
    req: CreateRequestInfoView,
) -> Option<ContractErrorView> {
    if v.blacklist.contains(req.target) {
        Some(ContractErrorView::TargetBlacklisted)
    } else if req.is_recurring && req.input_asset is Some {
        Some(ContractErrorView::NoInputAssetForRecurring)
    } else if !req.is_recurring && first_of_denom(info.funds, v.config.fee_denom) is None {
        Some(ContractErrorView::NoFeePaid)
    } else if !req.is_recurring && !covers(info.funds, v.config.fee_denom, v.config.fee_amount) {
        Some(ContractErrorView::InsufficientFee)
    } else if req.input_asset matches Some(asset) && asset.info matches AssetInfoView::NativeToken { denom }
        && !covers(available(v, info, req), denom, asset.amount) {
        Some(ContractErrorView::InvalidInputAssets)
    } else if v.state.next_request_id == u64::MAX {
        Some(ContractErrorView::Overflow)
    } else {
        None
    }
}

/// The request that `create_request` stores.
pub open spec fn created_request(env: EnvView, info: MessageInfoView, req: CreateRequestInfoView) -> RequestView {
    RequestView {
        user: info.sender,
        target: req.target,
        msg: req.msg,
        input_asset: req.input_asset,
        is_recurring: req.is_recurring,
        created_at: env.time,
    }
}

/// The registry after a request was created: the executor is rotated, the
/// request is stored under the next id, and both counters go up by one.
pub open spec fn create_request_state(
    v: RegistryView,
    env: EnvView,
    info: MessageInfoView,
    req: CreateRequestInfoView,
) -> RegistryView {
    RegistryView {
        state: StateView {
            next_request_id: (v.state.next_request_id + 1) as u64,
            total_requests: (v.state.total_requests + 1) as u64,
            ..rotated_at(v, env)
        },
        requests: v.requests.push((v.state.next_request_id, created_request(env, info, req))),
        ..v
    }
}

/// What creating a request hands back: where the asset is a token, the
/// instruction that moves it from the caller into the registry's custody;
/// and the event.
pub open spec fn create_request_response(
    v: RegistryView,
    env: EnvView,
    info: MessageInfoView,
    req: CreateRequestInfoView,
) -> ResponseView {
    ResponseView {
        messages: match req.input_asset {
            Some(AssetView { info: AssetInfoView::Token { contract_addr }, amount }) => seq![
                plain(
                    CosmosMsgView::TransferFrom {
                        contract_addr,
                        owner: info.sender,
                        recipient: env.contract_address,
                        amount,
                    },
                ),
            ],
            _ => Seq::empty(),
        },
        event: EventView::CreateRequest {
            id: v.state.next_request_id,
            user: info.sender,
            target: req.target,
            msg: req.msg,
            asset: req.input_asset,
            is_recurring: req.is_recurring,
            created_at: env.time,
        },
    }
}

/// What `create_request` does.
pub open spec fn create_request_spec(
    pre: RegistryView,
    env: EnvView,
    info: MessageInfoView,
    req: CreateRequestInfoView,
    post: RegistryView,
    result: Result<ResponseView, ContractErrorView>,
) -> bool {
    transition(
        pre,
        post,
        result,
        create_request_failure(pre, info, req),
        create_request_state(pre, env, info, req),
        create_request_response(pre, env, info, req),
    )
}

/// Taking the fee from a coin keeps every coin's denomination, so the same
/// coin is found for a denomination before and after.
pub proof fn lemma_fee_removed(funds: Seq<CoinView>, fee_denom: Seq<char>, fee: nat, denom: Seq<char>)
    ensures
        first_of_denom(fee_removed(funds, fee_denom, fee), denom) == first_of_denom(funds, denom),
        fee_removed(funds, fee_denom, fee).len() == funds.len(),
{
    let left = fee_removed(funds, fee_denom, fee);
    lemma_first_of_denom(funds, fee_denom);
    lemma_first_of_denom(funds, denom);
    lemma_first_of_denom(left, denom);
    assert forall|j: int| 0 <= j < funds.len() implies left[j].denom == funds[j].denom by {}
    match first_of_denom(funds, denom) {
        Some(i) => {
            assert(left[i].denom == denom);
            match first_of_denom(left, denom) {
                Some(k) => {
                    assert(funds[k].denom == left[k].denom);
                    if k < i {
                    }
                    if i < k {
                    }
                },
                None => {},
            }
        },
        None => {
            match first_of_denom(left, denom) {
                Some(k) => {
                    assert(funds[k].denom == left[k].denom);
                },
                None => {},
            }
        },
    }
}

/// Creates a request for `info.sender`: a call of `request_info.target` with
/// the payload `request_info.msg`, to be made later by the executor of the
/// epoch.
///
/// A request that is not recurring pays the fee with the coins sent; a native
/// asset for the target must be covered by what is left of them, a token is
/// fetched from the caller by the instruction handed back.
pub fn create_request(
    registry: &mut Registry,
    env: &Env,
    info: &MessageInfo,
    request_info: CreateRequestInfo,
) -> (result: Result<Response, ContractError>)
    ensures
        create_request_spec(
            old(registry)@,
            env@,
            info@,
            request_info@,
            final(registry)@,
            outcome(result),
        ),
        consistent(final(registry)@),
{
    let ghost pre = registry@;
    let ghost funds = info@.funds;
    let core = registry.parts();

    // The target may not be called at all.
    if find_text(&core.blacklist, &request_info.target).is_some() {
        return Err(ContractError::TargetBlacklisted {  });
    }
    // A recurring request holds nothing in escrow.
    if request_info.is_recurring && request_info.input_asset.is_some() {
        return Err(ContractError::NoInputAssetForRecurring {  });
    }
    // A request that runs once pays its fee now, from the first coin of
    // the fee's denomination.
    let mut fee_index: Option<usize> = None;
    if !request_info.is_recurring {
        match find_denom(&info.funds, &core.config.fee_denom) {
            Some(i) => {
                if info.funds[i].amount < core.config.fee_amount {
                    return Err(ContractError::InsufficientFee {  });
                }
                fee_index = Some(i);
            },
            None => {
                return Err(ContractError::NoFeePaid {  });
            },
        }
    }
    // A native asset comes out of what is left of the coins; a token is
    // fetched from the caller.
    let mut messages: Vec<SubMsg> = Vec::new();
    match &request_info.input_asset {
        Some(input_asset) => {
            match &input_asset.info {
                AssetInfo::NativeToken { denom } => {
                    proof {
                        lemma_fee_removed(funds, pre.config.fee_denom, pre.config.fee_amount, denom@);
                        lemma_first_of_denom(funds, denom@);
                    }
                    match find_denom(&info.funds, denom) {
                        Some(j) => {
                            let sent = info.funds[j].amount;
                            let left = match fee_index {
                                Some(i) => if i == j {
                                    sent - core.config.fee_amount
                                } else {
                                    sent
                                },
                                None => sent,
                            };
                            if left < input_asset.amount {
                                return Err(ContractError::InvalidInputAssets {  });
                            }
                        },
                        None => {
                            return Err(ContractError::InvalidInputAssets {  });
                        },
                    }
                },
                AssetInfo::Token { contract_addr } => {
                    messages.push(
                        SubMsg::new(
                            CosmosMsg::TransferFrom {
                                contract_addr: contract_addr.clone(),
                                owner: info.sender.clone(),
                                recipient: env.contract_address.clone(),
                                amount: input_asset.amount,
                            },
                        ),
                    );
                },
            }
        },
        None => {},
    }
    if core.state.next_request_id == u64::MAX {
        return Err(ContractError::Overflow {  });
    }
    assert(create_request_failure(pre, info@, request_info@) is None);
    assert(messages_view(messages@) =~= create_request_response(pre, env@, info@, request_info@).messages);

    // Nothing can fail from here on.
    let mut core = registry.take();
    proof {
        lemma_ids_count(core.requests@, core.state.next_request_id);
    }
    _update_executor(&mut core.state, env, core.config.blocks_in_epoch);
    let id = core.state.next_request_id;
    let event = Event::CreateRequest {
        id,
        user: info.sender.clone(),
        target: request_info.target.clone(),
        msg: copy_bytes(&request_info.msg),
        asset: copy_asset(&request_info.input_asset),
        is_recurring: request_info.is_recurring,
        created_at: env.time,
    };
    let request = Request {
        user: info.sender.clone(),
        target: request_info.target,
        msg: request_info.msg,
        input_asset: request_info.input_asset,
        is_recurring: request_info.is_recurring,
        created_at: env.time,
    };
    core.state.next_request_id = id + 1;
    core.state.total_requests = core.state.total_requests + 1;
    let stored = core.requests.append(id, request);
    assert(stored);
    proof {
        let next = create_request_state(pre, env@, info@, request_info@);
        assert(core@.state == next.state);
        assert(core@ == next);
    }
    registry.put(core);
    Ok(Response { messages, event })
}

/// The instruction that pays one fee to `to`.
pub open spec fn fee_payment(v: RegistryView, to: Seq<char>) -> CosmosMsgView {
    CosmosMsgView::Send { to_address: to, denom: v.config.fee_denom, amount: v.config.fee_amount }
}

/// The registry without the request `id`, which is counted no longer.
pub open spec fn request_removed(v: RegistryView, id: u64) -> RegistryView {
    RegistryView {
        state: StateView { total_requests: (v.state.total_requests - 1) as u64, ..v.state },
        requests: without(v.requests, id),
        ..v
    }
}

/// Why a request cannot be cancelled: it is not stored, or the caller is not
/// the one who created it.
pub open spec fn cancel_request_failure(v: RegistryView, info: MessageInfoView, id: u64) -> Option<
    ContractErrorView,
> {
    match lookup(v.requests, id) {
        None => Some(not_found()),
        Some(request) => if request.user != info.sender {
            Some(unauthorized())
        } else {
            None
        },
    }
}

/// What the owner of a cancelled request gets back: the asset held in escrow,
/// if any, and then the fee, unless the request is recurring and paid none.
pub open spec fn refunds(v: RegistryView, request: RequestView) -> Seq<SubMsgView> {
    let escrow = match request.input_asset {
        Some(asset) => seq![plain(transfer_of(asset, request.user))],
        None => Seq::empty(),
    };
    if request.is_recurring {
        escrow
    } else {
        escrow.push(plain(fee_payment(v, request.user)))
    }
}

/// What `cancel_request` does.
pub open spec fn cancel_request_spec(
    pre: RegistryView,
    info: MessageInfoView,
    id: u64,
    post: RegistryView,
    result: Result<ResponseView, ContractErrorView>,
) -> bool {
    transition(
        pre,
        post,
        result,
        cancel_request_failure(pre, info, id),
        request_removed(pre, id),
        ResponseView {
            messages: refunds(pre, lookup(pre.requests, id).unwrap()),
            event: EventView::CancelRequest { id },
        },
    )
}

/// A request that is stored stands at some place in the store, under an id
/// that was handed out before; taking it out leaves one request fewer, and
/// the ids of the others as they were.
pub proof fn lemma_stored(pending: Pending, id: u64, bound: u64)
    requires
        ascending(pending),
        ids_below(pending, bound),
        lookup(pending, id) is Some,
    ensures
        pending.len() > 0,
        id < bound,
        without(pending, id).len() == pending.len() - 1,
        ascending(without(pending, id)),
        ids_below(without(pending, id), bound),
        lookup(without(pending, id), id) is None,
{
    ids(pending).index_of_first_ensures(id);
    let i = ids(pending).index_of_first(id).unwrap();
    assert(pending[i].0 == id);
    let rest = without(pending, id);
    assert forall|a: int, b: int| 0 <= a < b < rest.len() implies rest[a].0 < rest[b].0 by {
        let a0 = if a < i { a } else { a + 1 };
        let b0 = if b < i { b } else { b + 1 };
        assert(rest[a] == pending[a0]);
        assert(rest[b] == pending[b0]);
    }
    assert forall|a: int| 0 <= a < rest.len() implies (#[trigger] rest[a]).0 < bound by {
        let a0 = if a < i { a } else { a + 1 };
        assert(rest[a] == pending[a0]);
    }
    ids(rest).index_of_first_ensures(id);
    if ids(rest).contains(id) {
        let k = ids(rest).index_of_first(id).unwrap();
        let k0 = if k < i { k } else { k + 1 };
        assert(rest[k] == pending[k0]);
        if k0 < i {
            assert(pending[k0].0 < pending[i].0);
        } else {
            assert(pending[i].0 < pending[k0].0);
        }
    }
}

/// Cancels the request `id` for its owner, who gets the asset in escrow back
/// and, unless the request is recurring, the fee.
pub fn cancel_request(registry: &mut Registry, env: &Env, info: &MessageInfo, id: u64) -> (result: Result<
    Response,
    ContractError,
>)
    ensures
        cancel_request_spec(old(registry)@, info@, id, final(registry)@, outcome(result)),
        consistent(final(registry)@),
{
    let ghost pre = registry@;
    let core = registry.parts();
    match core.requests.get(id) {
        None => {
            return Err(ContractError::not_found());
        },
        Some(request) => {
            // Only the owner cancels.
            if request.user != info.sender {
                return Err(ContractError::unauthorized());
            }
        },
    }
    proof {
        lemma_stored(pre.requests, id, pre.state.next_request_id);
    }
    let mut core = registry.take();
    let removed = core.requests.remove(id);
    let request = removed.unwrap();
    let recipient = request.user;
    let mut messages: Vec<SubMsg> = Vec::new();
    // The escrow goes back first,
    match request.input_asset {
        Some(input_asset) => {
            messages.push(SubMsg::new(input_asset.into_msg(&recipient)));
        },
        None => {},
    }
    // then the fee, where one was paid.
    if !request.is_recurring {
        let fee_asset = Asset {
            info: AssetInfo::NativeToken { denom: core.config.fee_denom.clone() },
            amount: core.config.fee_amount,
        };
        messages.push(SubMsg::new(fee_asset.into_msg(&recipient)));
    }
    core.state.total_requests = core.state.total_requests - 1;
    proof {
        assert(messages_view(messages@) =~= refunds(pre, lookup(pre.requests, id).unwrap()));
        assert(core@ == request_removed(pre, id));
    }
    registry.put(core);
    Ok(Response { messages, event: Event::CancelRequest { id } })
}

/// Why a request cannot be executed: the first of these that holds. It is not
/// stored; no executor was drawn yet for the epoch of the current height; an
/// executor was drawn and the caller is another; the request is recurring and
/// its owner's pool holds less than the fee.
pub open spec fn execute_request_failure(v: RegistryView, env: EnvView, info: MessageInfoView, id: u64) -> Option<
    ContractErrorView,
> {
    match lookup(v.requests, id) {
        None => Some(not_found()),
        Some(request) => if epoch_of(env.height, v.config.blocks_in_epoch) != v.state.last_epoch {
            Some(ContractErrorView::ExecutorNotUpdated)
        } else if v.state.executor.len() > 0 && v.state.executor != info.sender {
            Some(ContractErrorView::InvalidExecutor)
        } else if request.is_recurring && balance_in(v.recurring_balance, request.user)
            < v.config.fee_amount {
            Some(ContractErrorView::InsufficientRecurringFee)
        } else {
            None
        },
    }
}

/// The registry once `who` has paid one fee out of the recurring pool.
pub open spec fn fee_debited(v: RegistryView, who: Seq<char>) -> RegistryView {
    RegistryView {
        state: StateView {
            total_recurring_fee: (v.state.total_recurring_fee - v.config.fee_amount) as nat,
            ..v.state
        },
        recurring_balance: with_balance(
            v.recurring_balance,
            who,
            (balance_in(v.recurring_balance, who) - v.config.fee_amount) as nat,
        ),
        ..v
    }
}

/// The registry with the request `id` marked as the one in execution.
pub open spec fn marked_executing(v: RegistryView, id: u64) -> RegistryView {
    RegistryView { state: StateView { curr_executing_request_id: id, ..v.state }, ..v }
}

/// The registry after the request `id` was executed: it is marked as the one
/// in execution; a recurring request has paid the fee from its owner's pool
/// and stays, any other request is taken out of the store.
pub open spec fn execute_request_state(v: RegistryView, id: u64) -> RegistryView {
    let request = lookup(v.requests, id).unwrap();
    if request.is_recurring {
        marked_executing(fee_debited(v, request.user), id)
    } else {
        request_removed(marked_executing(v, id), id)
    }
}

/// The call of a request's target, on whose success the host reports back.
pub open spec fn target_call(request: RequestView) -> SubMsgView {
    SubMsgView {
        id: REPLY_REQUEST_EXECUTED,
        msg: CosmosMsgView::Execute { contract_addr: request.target, msg: request.msg },
        reply_on: ReplyOn::Success,
    }
}

/// What executing a request hands back, in this order: the asset in escrow,
/// if any, goes to the target; the target is called with the payload; the
/// caller is paid the fee.
pub open spec fn execute_request_messages(v: RegistryView, info: MessageInfoView, request: RequestView) -> Seq<
    SubMsgView,
> {
    let forward = match request.input_asset {
        Some(asset) => seq![plain(transfer_of(asset, request.target))],
        None => Seq::empty(),
    };
    forward.push(target_call(request)).push(plain(fee_payment(v, info.sender)))
}

/// What `execute_request` does.
pub open spec fn execute_request_spec(
    pre: RegistryView,
    env: EnvView,
    info: MessageInfoView,
    id: u64,
    post: RegistryView,
    result: Result<ResponseView, ContractErrorView>,
) -> bool {
    transition(
        pre,
        post,
        result,
        execute_request_failure(pre, env, info, id),
        execute_request_state(pre, id),
        ResponseView {
            messages: execute_request_messages(pre, info, lookup(pre.requests, id).unwrap()),
            event: EventView::ExecuteRequest { id, executor: info.sender },
        },
    )
}

/// Executes the request `id` for the executor of the epoch, or for anyone
/// where the epoch has none. The request is marked as the one in execution
/// until the host reports that the call of the target has succeeded. The
/// mark is a record only: it does not keep a second request from being
/// executed in the meantime.
pub fn execute_request(registry: &mut Registry, env: &Env, info: &MessageInfo, id: u64) -> (result: Result<
    Response,
    ContractError,
>)
    ensures
        execute_request_spec(old(registry)@, env@, info@, id, final(registry)@, outcome(result)),
        consistent(final(registry)@),
{
    let ghost pre = registry@;
    let core = registry.parts();
    let request = match core.requests.get(id) {
        None => {
            return Err(ContractError::not_found());
        },
        Some(request) => request.duplicate(),
    };
    // The executor of this epoch must have been drawn, and be the caller.
    let cur_epoch = crate::rotation::epoch(env.height, core.config.blocks_in_epoch);
    if cur_epoch != core.state.last_epoch {
        return Err(ContractError::ExecutorNotUpdated {  });
    }
    if !core.state.executor.as_str().is_empty() {
        if core.state.executor != info.sender {
            return Err(ContractError::InvalidExecutor {  });
        }
    }
    // A recurring request pays from its owner's pool.
    let balance = core.recurring_balance.balance(&request.user);
    if request.is_recurring && balance < core.config.fee_amount {
        return Err(ContractError::InsufficientRecurringFee {  });
    }
    proof {
        lemma_stored(pre.requests, id, pre.state.next_request_id);
        lemma_balance_within_total(pre.recurring_balance, request@.user);
        if request.is_recurring {
            lemma_with_balance(
                pre.recurring_balance,
                request@.user,
                (balance - pre.config.fee_amount) as nat,
            );
        }
    }
    let mut core = registry.take();
    if request.is_recurring {
        core.recurring_balance.set(&request.user, balance - core.config.fee_amount);
        core.state.total_recurring_fee = core.state.total_recurring_fee - core.config.fee_amount;
    }
    core.state.curr_executing_request_id = id;
    // The escrow goes to the target, the target is called, the caller is paid.
    let mut messages: Vec<SubMsg> = Vec::new();
    match copy_asset(&request.input_asset) {
        Some(input_asset) => {
            messages.push(SubMsg::new(input_asset.into_msg(&request.target)));
        },
        None => {},
    }
    messages.push(
        SubMsg {
            id: REPLY_REQUEST_EXECUTED,
            msg: CosmosMsg::Execute {
                contract_addr: request.target.clone(),
                msg: copy_bytes(&request.msg),
            },
            reply_on: ReplyOn::Success,
        },
    );
    let fee_asset = Asset {
        info: AssetInfo::NativeToken { denom: core.config.fee_denom.clone() },
        amount: core.config.fee_amount,
    };
    messages.push(SubMsg::new(fee_asset.into_msg(&info.sender)));
    // A request that runs once is done.
    if !request.is_recurring {
        core.state.total_requests = core.state.total_requests - 1;
        let _ = core.requests.remove(id);
    }
    proof {
        assert(messages_view(messages@) =~= execute_request_messages(pre, info@, request@));
        assert(core@ == execute_request_state(pre, id));
    }
    registry.put(core);
    Ok(Response { messages, event: Event::ExecuteRequest { id, executor: info.sender.clone() } })
}

/// Why a report of the host is not taken: it is not the report on the call
/// of a request's target.
pub open spec fn reply_failure(id: u64) -> Option<ContractErrorView> {
    if id == REPLY_REQUEST_EXECUTED {
        None
    } else {
        Some(unauthorized())
    }
}

/// What `reply` and `execute_reply` do.
pub open spec fn reply_spec(
    pre: RegistryView,
    id: u64,
    post: RegistryView,
    result: Result<ResponseView, ContractErrorView>,
) -> bool {
    transition(
        pre,
        post,
        result,
        reply_failure(id),
        marked_executing(pre, NO_REQUEST),
        ResponseView { messages: Seq::empty(), event: EventView::FinalizeExecute },
    )
}

/// Takes a report of the host. Only the report on the call of a request's
/// target is taken, and it ends the execution that was marked.
pub fn reply(registry: &mut Registry, env: &Env, msg: Reply) -> (result: Result<Response, ContractError>)
    ensures
        reply_spec(old(registry)@, msg.id, final(registry)@, outcome(result)),
        consistent(final(registry)@),
{
    if msg.id == REPLY_REQUEST_EXECUTED {
        execute_reply(registry, env, msg.ok)
    } else {
        registry.is_consistent();
        Err(ContractError::unauthorized())
    }
}

/// Ends the execution that was marked, whether the call of the target
/// succeeded (`ok`) or not.
pub fn execute_reply(registry: &mut Registry, env: &Env, ok: bool) -> (result: Result<Response, ContractError>)
    ensures
        reply_spec(old(registry)@, REPLY_REQUEST_EXECUTED, final(registry)@, outcome(result)),
        consistent(final(registry)@),
{
    let mut core = registry.take();
    core.state.curr_executing_request_id = NO_REQUEST;
    registry.put(core);
    let messages: Vec<SubMsg> = Vec::new();
    assert(messages_view(messages@) =~= Seq::<SubMsgView>::empty());
    Ok(Response { messages, event: Event::FinalizeExecute {  } })
}

/// The registry once the recurring pool of `who` holds `balance`, and the
/// sum of all pools is `total`.
pub open spec fn with_recurring(v: RegistryView, who: Seq<char>, balance: nat, total: nat) -> RegistryView {
    RegistryView {
        state: StateView { total_recurring_fee: total, ..v.state },
        recurring_balance: with_balance(v.recurring_balance, who, balance),
        ..v
    }
}

/// Why fees cannot be paid into the recurring pool: the first of these that
/// holds. The amount for `count` fees is out of range; the count is zero; the
/// coins sent are not one payment in the fee's denomination; the payment is
/// not that amount; the sum of all pools would go out of range.
pub open spec fn deposit_recurring_fee_failure(v: RegistryView, info: MessageInfoView, count: u64) -> Option<
    ContractErrorView,
> {
    let amount = v.config.fee_amount * count;
    if amount > u128::MAX {
        Some(ContractErrorView::Overflow)
    } else if count == 0 {
        Some(ContractErrorView::InvalidRecurringCount)
    } else {
        match payment_in(info.funds, v.config.fee_denom) {
            Err(e) => Some(ContractErrorView::Payment(e)),
            Ok(paid) => if paid != amount {
                Some(ContractErrorView::InvalidRecurringCount)
            } else if v.state.total_recurring_fee + amount > u128::MAX {
                Some(ContractErrorView::Overflow)
            } else {
                None
            },
        }
    }
}

/// What `deposit_recurring_fee` does: on success the caller's pool and the
/// sum of all pools go up by `count` fees.
pub open spec fn deposit_recurring_fee_spec(
    pre: RegistryView,
    info: MessageInfoView,
    count: u64,
    post: RegistryView,
    result: Result<ResponseView, ContractErrorView>,
) -> bool {
    let amount = (pre.config.fee_amount * count) as nat;
    transition(
        pre,
        post,
        result,
        deposit_recurring_fee_failure(pre, info, count),
        with_recurring(
            pre,
            info.sender,
            balance_in(pre.recurring_balance, info.sender) + amount,
            pre.state.total_recurring_fee + amount,
        ),
        ResponseView {
            messages: Seq::empty(),
            event: EventView::DepositRecurringFee { recurring_count: count, amount },
        },
    )
}

/// Pays `recurring_count` fees into the caller's recurring pool, from which
/// the executions of the caller's recurring requests are paid. The coins
/// sent must be exactly that amount.
pub fn deposit_recurring_fee(registry: &mut Registry, info: &MessageInfo, recurring_count: u64) -> (result: Result<
    Response,
    ContractError,
>)
    ensures
        deposit_recurring_fee_spec(old(registry)@, info@, recurring_count, final(registry)@, outcome(result)),
        consistent(final(registry)@),
{
    let ghost pre = registry@;
    let core = registry.parts();
    let deposit_amount = match core.config.fee_amount.checked_mul(recurring_count as u128) {
        Some(amount) => amount,
        None => {
            return Err(ContractError::Overflow {  });
        },
    };
    if recurring_count == 0 {
        return Err(ContractError::InvalidRecurringCount {  });
    }
    match must_pay(info, &core.config.fee_denom) {
        Err(e) => {
            return Err(ContractError::Payment(e));
        },
        Ok(paid) => {
            if deposit_amount != paid {
                return Err(ContractError::InvalidRecurringCount {  });
            }
        },
    }
    let total = match core.state.total_recurring_fee.checked_add(deposit_amount) {
        Some(total) => total,
        None => {
            return Err(ContractError::Overflow {  });
        },
    };
    let balance = core.recurring_balance.balance(&info.sender);
    proof {
        lemma_balance_within_total(pre.recurring_balance, info@.sender);
        lemma_with_balance(pre.recurring_balance, info@.sender, (balance + deposit_amount) as nat);
    }
    let mut core = registry.take();
    core.state.total_recurring_fee = total;
    core.recurring_balance.set(&info.sender, balance + deposit_amount);
    registry.put(core);
    let messages: Vec<SubMsg> = Vec::new();
    assert(messages_view(messages@) =~= Seq::<SubMsgView>::empty());
    Ok(
        Response {
            messages,
            event: Event::DepositRecurringFee { recurring_count, amount: deposit_amount },
        },
    )
}

/// Why fees cannot be taken out of the recurring pool: the first of these
/// that holds. The amount for `count` fees is out of range; the count is
/// zero; the caller's pool holds less than that amount.
pub open spec fn withdraw_recurring_fee_failure(v: RegistryView, info: MessageInfoView, count: u64) -> Option<
    ContractErrorView,
> {
    let amount = v.config.fee_amount * count;
    if amount > u128::MAX {
        Some(ContractErrorView::Overflow)
    } else if count == 0 {
        Some(ContractErrorView::InvalidRecurringCount)
    } else if balance_in(v.recurring_balance, info.sender) < amount {
        Some(ContractErrorView::InvalidRecurringCount)
    } else {
        None
    }
}

/// What `withdraw_recurring_fee` does: on success the caller's pool and the
/// sum of all pools go down by `count` fees, which are sent to the caller.
pub open spec fn withdraw_recurring_fee_spec(
    pre: RegistryView,
    info: MessageInfoView,
    count: u64,
    post: RegistryView,
    result: Result<ResponseView, ContractErrorView>,
) -> bool {
    let amount = (pre.config.fee_amount * count) as nat;
    transition(
        pre,
        post,
        result,
        withdraw_recurring_fee_failure(pre, info, count),
        with_recurring(
            pre,
            info.sender,
            (balance_in(pre.recurring_balance, info.sender) - amount) as nat,
            (pre.state.total_recurring_fee - amount) as nat,
        ),
        ResponseView {
            messages: seq![
                plain(
                    CosmosMsgView::Send {
                        to_address: info.sender,
                        denom: pre.config.fee_denom,
                        amount,
                    },
                ),
            ],
            event: EventView::WithdrawRecurringFee { recurring_count: count, amount },
        },
    )
}

/// Takes `recurring_count` fees out of the caller's recurring pool and sends
/// them to the caller.
pub fn withdraw_recurring_fee(registry: &mut Registry, info: &MessageInfo, recurring_count: u64) -> (result: Result<
    Response,
    ContractError,
>)
    ensures
        withdraw_recurring_fee_spec(old(registry)@, info@, recurring_count, final(registry)@, outcome(result)),
        consistent(final(registry)@),
{
    let ghost pre = registry@;
    let core = registry.parts();
    let withdraw_amount = match core.config.fee_amount.checked_mul(recurring_count as u128) {
        Some(amount) => amount,
        None => {
            return Err(ContractError::Overflow {  });
        },
    };
    if recurring_count == 0 {
        return Err(ContractError::InvalidRecurringCount {  });
    }
    let balance = core.recurring_balance.balance(&info.sender);
    if balance < withdraw_amount {
        return Err(ContractError::InvalidRecurringCount {  });
    }
    proof {
        lemma_balance_within_total(pre.recurring_balance, info@.sender);
        lemma_with_balance(pre.recurring_balance, info@.sender, (balance - withdraw_amount) as nat);
    }
    let mut core = registry.take();
    core.state.total_recurring_fee = core.state.total_recurring_fee - withdraw_amount;
    core.recurring_balance.set(&info.sender, balance - withdraw_amount);
    let withdraw_asset = Asset {
        info: AssetInfo::NativeToken { denom: core.config.fee_denom.clone() },
        amount: withdraw_amount,
    };
    let mut messages: Vec<SubMsg> = Vec::new();
    messages.push(SubMsg::new(withdraw_asset.into_msg(&info.sender)));
    proof {
        let wanted = seq![
            plain(
                CosmosMsgView::Send {
                    to_address: info@.sender,
                    denom: pre.config.fee_denom,
                    amount: withdraw_amount as nat,
                },
            ),
        ];
        assert(messages_view(messages@) =~= wanted);
    }
    registry.put(core);
    Ok(
        Response {
            messages,
            event: Event::WithdrawRecurringFee { recurring_count, amount: withdraw_amount },
        },
    )
}

/// Why stakes cannot be added: the amount is not the stake amount times the
/// number of stakes, or the sum of all stakes would go out of range.
pub open spec fn stake_failure(v: RegistryView, num_stakes: u64, amount: nat) -> Option<ContractErrorView> {
    if v.config.stake_amount * num_stakes != amount {
        Some(ContractErrorView::InvalidStakeInfo)
    } else if v.state.total_staked + amount > u128::MAX {
        Some(ContractErrorView::Overflow)
    } else {
        None
    }
}

/// The registry after `sender` has added `num_stakes` stakes: the executor
/// is rotated, the stake roll has that many more entries of `sender` at its
/// end, and the balance of `sender` and the sum of all stakes go up by
/// `amount`.
pub open spec fn stake_state(v: RegistryView, env: EnvView, sender: Seq<char>, num_stakes: u64, amount: nat) -> RegistryView {
    RegistryView {
        state: StateView {
            stakes: v.state.stakes + Seq::new(num_stakes as nat, |i: int| sender),
            total_staked: v.state.total_staked + amount,
            ..rotated_at(v, env)
        },
        stake_balance: with_balance(v.stake_balance, sender, balance_in(v.stake_balance, sender) + amount),
        ..v
    }
}

/// What `stake` does.
pub open spec fn stake_spec(
    pre: RegistryView,
    env: EnvView,
    sender: Seq<char>,
    num_stakes: u64,
    amount: nat,
    post: RegistryView,
    result: Result<ResponseView, ContractErrorView>,
) -> bool {
    transition(
        pre,
        post,
        result,
        stake_failure(pre, num_stakes, amount),
        stake_state(pre, env, sender, num_stakes, amount),
        ResponseView { messages: Seq::empty(), event: EventView::Stake { user: sender, num_stakes } },
    )
}

/// Entries of one owner added at the end count for that owner alone.
pub proof fn lemma_occurrences_extended(roll: Seq<Seq<char>>, sender: Seq<char>, n: nat, who: Seq<char>)
    ensures
        occurrences(roll + Seq::new(n, |i: int| sender), who) == occurrences(roll, who) + if sender == who {
            n
        } else {
            0
        },
    decreases n,
{
    if n == 0 {
        assert(roll + Seq::new(n, |i: int| sender) =~= roll);
    } else {
        let shorter = roll + Seq::new((n - 1) as nat, |i: int| sender);
        lemma_occurrences_extended(roll, sender, (n - 1) as nat, who);
        lemma_occurrences_push(shorter, sender, who);
        assert(shorter.push(sender) =~= roll + Seq::new(n, |i: int| sender));
    }
}

/// Adds `num_stakes` stakes for `sender`, who has handed `amount` over: one
/// entry in the stake roll for each.
pub fn stake(
    registry: &mut Registry,
    env: &Env,
    info: &MessageInfo,
    sender: &String,
    num_stakes: u64,
    amount: u128,
) -> (result: Result<Response, ContractError>)
    ensures
        stake_spec(old(registry)@, env@, sender@, num_stakes, amount as nat, final(registry)@, outcome(result)),
        consistent(final(registry)@),
{
    let ghost pre = registry@;
    let core = registry.parts();
    // An amount that is out of range matches no payment.
    match core.config.stake_amount.checked_mul(num_stakes as u128) {
        Some(due) => {
            if due != amount {
                return Err(ContractError::InvalidStakeInfo {  });
            }
        },
        None => {
            return Err(ContractError::InvalidStakeInfo {  });
        },
    }
    let total = match core.state.total_staked.checked_add(amount) {
        Some(total) => total,
        None => {
            return Err(ContractError::Overflow {  });
        },
    };
    let balance = core.stake_balance.balance(sender);
    let ghost unit = pre.config.stake_amount;
    let ghost roll = pre.state.stakes;
    proof {
        lemma_occurrences_bound(roll, sender@);
        assert(unit * occurrences(roll, sender@) <= unit * roll.len()) by (nonlinear_arith)
            requires
                occurrences(roll, sender@) <= roll.len(),
        ;
        lemma_with_balance(pre.stake_balance, sender@, (balance + amount) as nat);
    }
    let mut core = registry.take();
    _update_executor(&mut core.state, env, core.config.blocks_in_epoch);
    // One entry in the roll for each stake.
    let mut stakes: Vec<String> = Vec::new();
    core::mem::swap(&mut stakes, &mut core.state.stakes);
    let mut added: u64 = 0;
    while added < num_stakes
        invariant
            added <= num_stakes,
            stakes@.len() == roll.len() + added,
            forall|j: int| 0 <= j < roll.len() ==> (#[trigger] stakes@[j])@ == roll[j],
            forall|j: int| roll.len() <= j < stakes@.len() ==> (#[trigger] stakes@[j])@ == sender@,
        decreases num_stakes - added,
    {
        stakes.push(sender.clone());
        added = added + 1;
    }
    assert(roll_view(stakes@) =~= roll + Seq::new(num_stakes as nat, |i: int| sender@));
    core.state.stakes = stakes;
    core.stake_balance.set(sender, balance + amount);
    core.state.total_staked = total;
    proof {
        let next = stake_state(pre, env@, sender@, num_stakes, amount as nat);
        assert(core@.state == next.state);
        assert(core@ == next);
        assert(unit * (roll.len() + num_stakes) == unit * roll.len() + unit * num_stakes)
            by (nonlinear_arith);
        assert forall|who: Seq<char>| #[trigger]
            balance_in(next.stake_balance, who) == unit * occurrences(next.state.stakes, who) by {
            lemma_occurrences_extended(roll, sender@, num_stakes as nat, who);
            if who == sender@ {
                assert(unit * (occurrences(roll, who) + num_stakes) == unit * occurrences(roll, who)
                    + unit * num_stakes) by (nonlinear_arith);
            }
        }
    }
    registry.put(core);
    let messages: Vec<SubMsg> = Vec::new();
    assert(messages_view(messages@) =~= Seq::<SubMsgView>::empty());
    Ok(Response { messages, event: Event::Stake { user: sender.clone(), num_stakes } })
}

/// What `receive_cw20` does: tokens can be staked only where the stake asset
/// is a token and its contract is the caller, and the message that came with
/// them could be read; then `cw20_sender` stakes `amount`.
pub open spec fn receive_cw20_spec(
    pre: RegistryView,
    env: EnvView,
    info: MessageInfoView,
    cw20_sender: Seq<char>,
    amount: nat,
    hook: Option<Cw20HookMsg>,
    post: RegistryView,
    result: Result<ResponseView, ContractErrorView>,
) -> bool {
    match hook {
        None => result == Err::<ResponseView, ContractErrorView>(ContractErrorView::DataShouldBeGiven)
            && post == pre,
        Some(Cw20HookMsg::Stake { num_stakes }) => match pre.config.auto {
            AssetInfoView::NativeToken { denom } => result == Err::<ResponseView, ContractErrorView>(
                ContractErrorView::InvalidAutoToken,
            ) && post == pre,
            AssetInfoView::Token { contract_addr } => if contract_addr != info.sender {
                result == Err::<ResponseView, ContractErrorView>(unauthorized()) && post == pre
            } else {
                stake_spec(pre, env, cw20_sender, num_stakes, amount, post, result)
            },
        },
    }
}

/// Stakes tokens that the token contract, the caller, has taken over from
/// `cw20_msg.sender`.
pub fn receive_cw20(registry: &mut Registry, env: &Env, info: &MessageInfo, cw20_msg: Cw20ReceiveMsg) -> (result: Result<
    Response,
    ContractError,
>)
    ensures
        receive_cw20_spec(
            old(registry)@,
            env@,
            info@,
            cw20_msg.sender@,
            cw20_msg.amount as nat,
            cw20_msg.msg,
            final(registry)@,
            outcome(result),
        ),
        consistent(final(registry)@),
{
    let core = registry.parts();
    match cw20_msg.msg {
        Some(Cw20HookMsg::Stake { num_stakes }) => {
            match &core.config.auto {
                AssetInfo::Token { contract_addr } => {
                    // Only the stake token's contract hands tokens over.
                    if *contract_addr != info.sender {
                        return Err(ContractError::unauthorized());
                    }
                },
                AssetInfo::NativeToken { denom: _ } => {
                    return Err(ContractError::InvalidAutoToken {  });
                },
            }
            stake(registry, env, info, &cw20_msg.sender, num_stakes, cw20_msg.amount)
        },
        None => Err(ContractError::DataShouldBeGiven {  }),
    }
}

/// What `receive_denom` does: native coins can be staked only where the
/// stake asset is a native coin and the coins sent are one payment in its
/// denomination; then the caller stakes what was paid.
pub open spec fn receive_denom_spec(
    pre: RegistryView,
    env: EnvView,
    info: MessageInfoView,
    num_stakes: u64,
    post: RegistryView,
    result: Result<ResponseView, ContractErrorView>,
) -> bool {
    match pre.config.auto {
        AssetInfoView::Token { contract_addr } => result == Err::<ResponseView, ContractErrorView>(
            unauthorized(),
        ) && post == pre,
        AssetInfoView::NativeToken { denom } => match payment_in(info.funds, denom) {
            Err(e) => result == Err::<ResponseView, ContractErrorView>(ContractErrorView::Payment(e))
                && post == pre,
            Ok(paid) => stake_spec(pre, env, info.sender, num_stakes, paid, post, result),
        },
    }
}

/// Stakes the native coins that came with the call, for the caller.
pub fn receive_denom(registry: &mut Registry, env: &Env, info: &MessageInfo, num_stakes: u64) -> (result: Result<
    Response,
    ContractError,
>)
    ensures
        receive_denom_spec(old(registry)@, env@, info@, num_stakes, final(registry)@, outcome(result)),
        consistent(final(registry)@),
{
    let core = registry.parts();
    let received_auto = match &core.config.auto {
        AssetInfo::Token { contract_addr: _ } => {
            return Err(ContractError::unauthorized());
        },
        AssetInfo::NativeToken { denom } => match must_pay(info, denom) {
            Ok(paid) => paid,
            Err(e) => {
                return Err(ContractError::Payment(e));
            },
        },
    };
    stake(registry, env, info, &info.sender, num_stakes, received_auto)
}

/// What taking stakes back does to the stake roll. The positions are gone
/// through in the order given, each against the roll as the removals before
/// it have left it: each must lie within that roll and hold an entry of
/// `who`, which is then taken out, the last entry moving to its place. The
/// first position that fails names the error.
pub open spec fn unstaked(roll: Seq<Seq<char>>, who: Seq<char>, idxs: Seq<u64>) -> Result<
    Seq<Seq<char>>,
    ContractErrorView,
>
    decreases idxs.len(),
{
    if idxs.len() == 0 {
        Ok(roll)
    } else if idxs[0] >= roll.len() {
        Err(ContractErrorView::IdxOutOfBound)
    } else if roll[idxs[0] as int] != who {
        Err(ContractErrorView::IdxNotYou)
    } else {
        unstaked(swap_removed(roll, idxs[0] as int), who, idxs.drop_first())
    }
}

/// The stake roll once the stakes at `idxs` are taken back, where they can be.
pub open spec fn roll_without(roll: Seq<Seq<char>>, who: Seq<char>, idxs: Seq<u64>) -> Seq<Seq<char>> {
    match unstaked(roll, who, idxs) {
        Ok(left) => left,
        Err(_) => roll,
    }
}

/// Why stakes cannot be taken back.
pub open spec fn unstake_failure(v: RegistryView, info: MessageInfoView, idxs: Seq<u64>) -> Option<
    ContractErrorView,
> {
    match unstaked(v.state.stakes, info.sender, idxs) {
        Ok(_) => None,
        Err(e) => Some(e),
    }
}

/// The registry after the caller has taken the stakes at `idxs` back: the
/// executor is rotated, the entries are out of the stake roll, and the
/// caller's balance and the sum of all stakes are down by one stake amount
/// for each.
pub open spec fn unstake_state(v: RegistryView, env: EnvView, info: MessageInfoView, idxs: Seq<u64>) -> RegistryView {
    let amount = v.config.stake_amount * idxs.len();
    RegistryView {
        state: StateView {
            stakes: roll_without(v.state.stakes, info.sender, idxs),
            total_staked: (v.state.total_staked - amount) as nat,
            ..rotated_at(v, env)
        },
        stake_balance: with_balance(
            v.stake_balance,
            info.sender,
            (balance_in(v.stake_balance, info.sender) - amount) as nat,
        ),
        ..v
    }
}

/// What `unstake` does.
pub open spec fn unstake_spec(
    pre: RegistryView,
    env: EnvView,
    info: MessageInfoView,
    idxs: Seq<u64>,
    post: RegistryView,
    result: Result<ResponseView, ContractErrorView>,
) -> bool {
    transition(
        pre,
        post,
        result,
        unstake_failure(pre, info, idxs),
        unstake_state(pre, env, info, idxs),
        ResponseView {
            messages: seq![
                plain(
                    transfer_of(
                        AssetView { info: pre.config.auto, amount: pre.config.stake_amount * idxs.len() },
                        info.sender,
                    ),
                ),
            ],
            event: EventView::Unstake { user: info.sender, count: idxs.len() as u64 },
        },
    )
}

/// A copy of a list of texts.
pub fn copy_texts(list: &Vec<String>) -> (copy: Vec<String>)
    ensures
        texts_view(copy@) == texts_view(list@),
{
    let mut copy: Vec<String> = Vec::new();
    let mut i: usize = 0;
    while i < list.len()
        invariant
            i <= list.len(),
            copy@.len() == i,
            forall|j: int| 0 <= j < i ==> copy@[j]@ == list@[j]@,
        decreases list.len() - i,
    {
        copy.push(list[i].clone());
        i = i + 1;
    }
    assert(texts_view(copy@) =~= texts_view(list@));
    copy
}

/// Takes back the caller's stakes at the positions `idxs` of the stake roll,
/// and sends the caller one stake amount for each.
///
/// A removal moves the last entry of the roll to the place of the entry
/// taken out, so each position is read against the roll as the removals
/// before it have left it, not against the roll as it was.
pub fn unstake(registry: &mut Registry, env: &Env, info: &MessageInfo, idxs: Vec<u64>) -> (result: Result<
    Response,
    ContractError,
>)
    ensures
        unstake_spec(old(registry)@, env@, info@, idxs@, final(registry)@, outcome(result)),
        consistent(final(registry)@),
{
    let ghost pre = registry@;
    let ghost who = info@.sender;
    let ghost start = pre.state.stakes;
    let core = registry.parts();
    // The removals are tried on a copy of the roll, so that a position that
    // fails leaves the registry untouched.
    let mut roll = copy_texts(&core.state.stakes);
    assert(texts_view(roll@) == roll_view(roll@));
    assert(texts_view(core.state.stakes@) == roll_view(core.state.stakes@));
    let mut n: usize = 0;
    assert(idxs@.skip(0) =~= idxs@);
    while n < idxs.len()
        invariant
            n <= idxs.len(),
            unstaked(start, who, idxs@) == unstaked(roll_view(roll@), who, idxs@.skip(n as int)),
            roll@.len() + n == start.len(),
            forall|other: Seq<char>| #[trigger]
                occurrences(roll_view(roll@), other) + if other == who {
                    n as nat
                } else {
                    0nat
                } == occurrences(start, other),
            pre == registry@,
            consistent(pre),
            who == info@.sender,
            start == pre.state.stakes,
        decreases idxs.len() - n,
    {
        let idx = idxs[n];
        let ghost rest = idxs@.skip(n as int);
        let ghost before = roll_view(roll@);
        assert(rest[0] == idx);
        assert(rest.drop_first() =~= idxs@.skip(n + 1));
        if idx >= roll.len() as u64 {
            return Err(ContractError::IdxOutOfBound {  });
        }
        let at = idx as usize;
        if roll[at] != info.sender {
            return Err(ContractError::IdxNotYou {  });
        }
        let _ = roll.swap_remove(at);
        proof {
            assert(roll_view(roll@) =~= swap_removed(before, at as int));
            assert forall|other: Seq<char>| #[trigger]
                occurrences(roll_view(roll@), other) + if other == who {
                    (n + 1) as nat
                } else {
                    0nat
                } == occurrences(start, other) by {
                lemma_occurrences_swap_removed(before, at as int, other);
            }
        }
        n = n + 1;
    }
    assert(idxs@.skip(n as int) =~= Seq::<u64>::empty());
    let ghost unit = pre.config.stake_amount;
    let count = idxs.len();
    let balance = core.stake_balance.balance(&info.sender);
    proof {
        assert(occurrences(roll_view(roll@), who) + count == occurrences(start, who));
        assert(unit * count <= unit * occurrences(start, who)) by (nonlinear_arith)
            requires
                count <= occurrences(start, who),
        ;
        assert(unit * count <= unit * start.len()) by (nonlinear_arith)
            requires
                count <= start.len(),
        ;
        lemma_with_balance(pre.stake_balance, who, (balance - unit * count) as nat);
    }
    let amount = core.config.stake_amount * (count as u128);
    let mut core = registry.take();
    _update_executor(&mut core.state, env, core.config.blocks_in_epoch);
    core.state.stakes = roll;
    core.stake_balance.set(&info.sender, balance - amount);
    core.state.total_staked = core.state.total_staked - amount;
    let return_asset = Asset { info: core.config.auto.duplicate(), amount };
    let mut messages: Vec<SubMsg> = Vec::new();
    messages.push(SubMsg::new(return_asset.into_msg(&info.sender)));
    proof {
        let next = unstake_state(pre, env@, info@, idxs@);
        assert(core@.state == next.state);
        assert(core@ == next);
        let wanted = seq![
            plain(transfer_of(AssetView { info: pre.config.auto, amount: unit * idxs@.len() }, who)),
        ];
        assert(messages_view(messages@) =~= wanted);
        assert(unit * (start.len() - count) == unit * start.len() - unit * count) by (nonlinear_arith);
        assert forall|other: Seq<char>| #[trigger]
            balance_in(next.stake_balance, other) == unit * occurrences(next.state.stakes, other) by {
            if other == who {
                assert(unit * (occurrences(start, who) - count) == unit * occurrences(start, who) - unit
                    * count) by (nonlinear_arith);
            }
        }
    }
    registry.put(core);
    Ok(Response { messages, event: Event::Unstake { user: info.sender.clone(), count: count as u64 } })
}

/// What `update_executor` does: the executor is rotated, and the event names
/// the epoch and the executor that then stand.
pub open spec fn update_executor_spec(
    pre: RegistryView,
    env: EnvView,
    post: RegistryView,
    result: Result<ResponseView, ContractErrorView>,
) -> bool {
    transition(
        pre,
        post,
        result,
        None,
        RegistryView { state: rotated_at(pre, env), ..pre },
        ResponseView {
            messages: Seq::empty(),
            event: EventView::UpdateExecutor {
                epoch: rotated_at(pre, env).last_epoch,
                executor: rotated_at(pre, env).executor,
            },
        },
    )
}

/// Draws the executor of the epoch of the current height, if none was drawn
/// yet for that epoch.
pub fn update_executor(registry: &mut Registry, env: &Env) -> (result: Result<Response, ContractError>)
    ensures
        update_executor_spec(old(registry)@, env@, final(registry)@, outcome(result)),
        consistent(final(registry)@),
{
    let mut core = registry.take();
    _update_executor(&mut core.state, env, core.config.blocks_in_epoch);
    let event = Event::UpdateExecutor { epoch: core.state.last_epoch, executor: core.state.executor.clone() };
    registry.put(core);
    let messages: Vec<SubMsg> = Vec::new();
    assert(messages_view(messages@) =~= Seq::<SubMsgView>::empty());
    Ok(Response { messages, event })
}

/// Whether every parameter is given.
pub open spec fn complete(config: CreateOrUpdateConfig) -> bool {
    &&& config.admin is Some
    &&& config.fee_amount is Some
    &&& config.fee_denom is Some
    &&& config.auto is Some
    &&& config.stake_amount is Some
    &&& config.blocks_in_epoch is Some
}

/// Why no registry can be made of the parameters: one is left out, or the
/// stake asset is not well named.
pub open spec fn instantiate_failure(config: CreateOrUpdateConfig) -> Option<ContractErrorView> {
    if !complete(config) {
        Some(ContractErrorView::Common(crate::error::CommonErrorView::InstantiateParamsUnavailable))
    } else {
        let auto = config.auto.unwrap();
        match check_failure(auto@, lowercase_of(auto.name())) {
            Some(e) => Some(ContractErrorView::Std(e)),
            None => None,
        }
    }
}

/// The registry that the parameters make: no requests, no stakes, nothing
/// in any pool, no executor drawn and none in execution, and the admin as
/// given.
pub open spec fn initial(config: CreateOrUpdateConfig) -> RegistryView {
    RegistryView {
        config: ConfigView {
            fee_amount: config.fee_amount.unwrap() as nat,
            fee_denom: config.fee_denom.unwrap()@,
            auto: config.auto.unwrap()@,
            stake_amount: config.stake_amount.unwrap() as nat,
            blocks_in_epoch: config.blocks_in_epoch.unwrap(),
        },
        state: StateView {
            curr_executing_request_id: NO_REQUEST,
            next_request_id: 0,
            total_requests: 0,
            total_recurring_fee: 0,
            total_staked: 0,
            stakes: Seq::empty(),
            last_epoch: 0,
            executor: Seq::empty(),
        },
        admin: optional_text(config.admin),
        new_admin: None,
        requests: Seq::empty(),
        stake_balance: Seq::empty(),
        recurring_balance: Seq::empty(),
        blacklist: Seq::empty(),
    }
}

/// Makes a registry of the parameters in `msg`, all of which must be given.
/// An epoch has at least one block.
pub fn instantiate(env: &Env, info: &MessageInfo, msg: InstantiateMsg) -> (result: Result<Registry, ContractError>)
    requires
        msg.config.blocks_in_epoch != Some(0u64),
    ensures
        match result {
            Ok(registry) => instantiate_failure(msg.config) is None && registry@ == initial(msg.config)
                && consistent(registry@),
            Err(e) => instantiate_failure(msg.config) == Some(e@),
        },
{
    let CreateOrUpdateConfig { admin, fee_amount, fee_denom, auto, stake_amount, blocks_in_epoch } =
        msg.config;
    let (admin, fee_amount, fee_denom, auto, stake_amount, blocks_in_epoch) = match (
        admin,
        fee_amount,
        fee_denom,
        auto,
        stake_amount,
        blocks_in_epoch,
    ) {
        (Some(a), Some(b), Some(c), Some(d), Some(e), Some(f)) => (a, b, c, d, e, f),
        _ => {
            return Err(ContractError::Common(CommonError::InstantiateParamsUnavailable {  }));
        },
    };
    match auto.check() {
        Err(e) => {
            return Err(ContractError::Std(e));
        },
        Ok(_) => {},
    }
    let mut core = Core::blank();
    core.config = Config { fee_amount, fee_denom, auto, stake_amount, blocks_in_epoch };
    core.admin = Some(admin);
    proof {
        let first = initial(msg.config);
        assert(core@.state.stakes =~= first.state.stakes);
        assert(core@.blacklist =~= first.blacklist);
        assert(core@.requests =~= first.requests);
        assert(core@.state == first.state);
        assert(core@ == first);
        assert(core@.config.stake_amount * core@.state.stakes.len() == 0) by (nonlinear_arith)
            requires
                core@.state.stakes.len() == 0,
        ;
        assert forall|who: Seq<char>| #[trigger]
            balance_in(core@.stake_balance, who) == core@.config.stake_amount * occurrences(
                core@.state.stakes,
                who,
            ) by {
            holders(core@.stake_balance).index_of_first_ensures(who);
            assert(core@.config.stake_amount * 0 == 0) by (nonlinear_arith);
        }
    }
    Ok(Registry::assemble(core))
}

/// Why the parameters cannot be changed: the caller is not the admin, or the
/// stake asset or the stake amount is to be changed.
pub open spec fn update_config_failure(v: RegistryView, info: MessageInfoView, config: CreateOrUpdateConfig) -> Option<
    ContractErrorView,
> {
    if v.admin != Some(info.sender) {
        Some(unauthorized())
    } else if config.auto is Some || config.stake_amount is Some {
        Some(ContractErrorView::UpdateConfigError)
    } else {
        None
    }
}

/// The registry after the parameters were changed: the fee, its denomination
/// and the length of an epoch are as given, where they are given; the next
/// admin proposed is the address given, or nobody where none is.
pub open spec fn update_config_state(v: RegistryView, config: CreateOrUpdateConfig) -> RegistryView {
    RegistryView {
        config: ConfigView {
            fee_amount: match config.fee_amount {
                Some(amount) => amount as nat,
                None => v.config.fee_amount,
            },
            fee_denom: match config.fee_denom {
                Some(denom) => denom@,
                None => v.config.fee_denom,
            },
            blocks_in_epoch: match config.blocks_in_epoch {
                Some(blocks) => blocks,
                None => v.config.blocks_in_epoch,
            },
            ..v.config
        },
        new_admin: optional_text(config.admin),
        ..v
    }
}

/// What `update_config` does.
pub open spec fn update_config_spec(
    pre: RegistryView,
    info: MessageInfoView,
    config: CreateOrUpdateConfig,
    post: RegistryView,
    result: Result<ResponseView, ContractErrorView>,
) -> bool {
    transition(
        pre,
        post,
        result,
        update_config_failure(pre, info, config),
        update_config_state(pre, config),
        ResponseView { messages: Seq::empty(), event: EventView::UpdateConfig },
    )
}

/// Whether `who` is the address in `slot`.
pub fn holds_role(slot: &Option<String>, who: &String) -> (held: bool)
    ensures
        held == (optional_text(*slot) == Some(who@)),
{
    match slot {
        Some(holder) => *holder == *who,
        None => false,
    }
}

/// Changes the parameters for the admin, and proposes `new_config.admin` as
/// the next admin. The stake asset and the stake amount cannot be changed.
/// An epoch has at least one block.
pub fn update_config(registry: &mut Registry, env: &Env, info: &MessageInfo, new_config: CreateOrUpdateConfig) -> (result: Result<
    Response,
    ContractError,
>)
    requires
        new_config.blocks_in_epoch != Some(0u64),
    ensures
        update_config_spec(old(registry)@, info@, new_config, final(registry)@, outcome(result)),
        consistent(final(registry)@),
{
    let ghost pre = registry@;
    let core = registry.parts();
    if !holds_role(&core.admin, &info.sender) {
        return Err(ContractError::unauthorized());
    }
    let CreateOrUpdateConfig { admin, fee_amount, fee_denom, auto, stake_amount, blocks_in_epoch } =
        new_config;
    if auto.is_some() || stake_amount.is_some() {
        return Err(ContractError::UpdateConfigError {  });
    }
    let mut core = registry.take();
    core.new_admin = admin;
    match fee_amount {
        Some(amount) => {
            core.config.fee_amount = amount;
        },
        None => {},
    }
    match fee_denom {
        Some(denom) => {
            core.config.fee_denom = denom;
        },
        None => {},
    }
    match blocks_in_epoch {
        Some(blocks) => {
            core.config.blocks_in_epoch = blocks;
        },
        None => {},
    }
    proof {
        let next = update_config_state(pre, new_config);
        assert(core@.config == next.config);
        assert(core@ == next);
    }
    registry.put(core);
    let messages: Vec<SubMsg> = Vec::new();
    assert(messages_view(messages@) =~= Seq::<SubMsgView>::empty());
    Ok(Response { messages, event: Event::UpdateConfig {  } })
}

/// What `claim_admin` does: the address that the admin proposed, and nobody
/// else, becomes the admin, and then nobody is proposed.
pub open spec fn claim_admin_spec(
    pre: RegistryView,
    info: MessageInfoView,
    post: RegistryView,
    result: Result<ResponseView, ContractErrorView>,
) -> bool {
    transition(
        pre,
        post,
        result,
        if pre.new_admin != Some(info.sender) {
            Some(unauthorized())
        } else {
            None
        },
        RegistryView { admin: Some(info.sender), new_admin: None, ..pre },
        ResponseView { messages: Seq::empty(), event: EventView::ClaimAdmin { new_admin: info.sender } },
    )
}

/// Makes the caller the admin, where the admin has proposed the caller.
pub fn claim_admin(registry: &mut Registry, env: &Env, info: &MessageInfo) -> (result: Result<
    Response,
    ContractError,
>)
    ensures
        claim_admin_spec(old(registry)@, info@, final(registry)@, outcome(result)),
        consistent(final(registry)@),
{
    let core = registry.parts();
    if !holds_role(&core.new_admin, &info.sender) {
        return Err(ContractError::unauthorized());
    }
    let mut core = registry.take();
    core.admin = Some(info.sender.clone());
    core.new_admin = None;
    registry.put(core);
    let messages: Vec<SubMsg> = Vec::new();
    assert(messages_view(messages@) =~= Seq::<SubMsgView>::empty());
    Ok(Response { messages, event: Event::ClaimAdmin { new_admin: info.sender.clone() } })
}

/// The blacklist with the addresses `addrs` put on it, one after another.
pub open spec fn with_targets(list: Seq<Seq<char>>, addrs: Seq<Seq<char>>) -> Seq<Seq<char>>
    decreases addrs.len(),
{
    if addrs.len() == 0 {
        list
    } else {
        with_targets(with_target(list, addrs[0]), addrs.drop_first())
    }
}

/// The blacklist with the addresses `addrs` taken off.
pub open spec fn without_targets(list: Seq<Seq<char>>, addrs: Seq<Seq<char>>) -> Seq<Seq<char>>
    decreases addrs.len(),
{
    if addrs.len() == 0 {
        list
    } else {
        without_targets(list.remove_value(addrs[0]), addrs.drop_first())
    }
}

/// Why the blacklist cannot be changed: the caller is not the admin.
pub open spec fn blacklist_failure(v: RegistryView, info: MessageInfoView) -> Option<ContractErrorView> {
    if v.admin != Some(info.sender) {
        Some(unauthorized())
    } else {
        None
    }
}

/// What `add_to_blacklist` does. Requests that are pending stay, whatever
/// their target.
pub open spec fn add_to_blacklist_spec(
    pre: RegistryView,
    info: MessageInfoView,
    addrs: Seq<Seq<char>>,
    post: RegistryView,
    result: Result<ResponseView, ContractErrorView>,
) -> bool {
    transition(
        pre,
        post,
        result,
        blacklist_failure(pre, info),
        RegistryView { blacklist: with_targets(pre.blacklist, addrs), ..pre },
        ResponseView { messages: Seq::empty(), event: EventView::AddToBlacklist },
    )
}

/// What `remove_from_blacklist` does.
pub open spec fn remove_from_blacklist_spec(
    pre: RegistryView,
    info: MessageInfoView,
    addrs: Seq<Seq<char>>,
    post: RegistryView,
    result: Result<ResponseView, ContractErrorView>,
) -> bool {
    transition(
        pre,
        post,
        result,
        blacklist_failure(pre, info),
        RegistryView { blacklist: without_targets(pre.blacklist, addrs), ..pre },
        ResponseView { messages: Seq::empty(), event: EventView::RemoveFromBlacklist },
    )
}

/// Puts the addresses `addrs` on the blacklist, for the admin. From then on
/// no request can be created that calls one of them.
pub fn add_to_blacklist(registry: &mut Registry, env: &Env, info: &MessageInfo, addrs: Vec<String>) -> (result: Result<
    Response,
    ContractError,
>)
    ensures
        add_to_blacklist_spec(old(registry)@, info@, texts_view(addrs@), final(registry)@, outcome(result)),
        consistent(final(registry)@),
{
    let ghost pre = registry@;
    let ghost wanted = texts_view(addrs@);
    if !holds_role(&registry.parts().admin, &info.sender) {
        return Err(ContractError::unauthorized());
    }
    let mut core = registry.take();
    let mut list: Vec<String> = Vec::new();
    core::mem::swap(&mut list, &mut core.blacklist);
    let mut i: usize = 0;
    assert(wanted.skip(0) =~= wanted);
    while i < addrs.len()
        invariant
            i <= addrs.len(),
            wanted == texts_view(addrs@),
            ordered(texts_view(list@)),
            with_targets(pre.blacklist, wanted) == with_targets(texts_view(list@), wanted.skip(i as int)),
        decreases addrs.len() - i,
    {
        let ghost rest = wanted.skip(i as int);
        assert(rest[0] == addrs@[i as int]@);
        assert(rest.drop_first() =~= wanted.skip(i + 1));
        put_target(&mut list, &addrs[i]);
        i = i + 1;
    }
    assert(wanted.skip(i as int) =~= Seq::<Seq<char>>::empty());
    core.blacklist = list;
    registry.put(core);
    let messages: Vec<SubMsg> = Vec::new();
    assert(messages_view(messages@) =~= Seq::<SubMsgView>::empty());
    Ok(Response { messages, event: Event::AddToBlacklist {  } })
}

/// Takes the addresses `addrs` off the blacklist, for the admin.
pub fn remove_from_blacklist(registry: &mut Registry, env: &Env, info: &MessageInfo, addrs: Vec<String>) -> (result: Result<
    Response,
    ContractError,
>)
    ensures
        remove_from_blacklist_spec(
            old(registry)@,
            info@,
            texts_view(addrs@),
            final(registry)@,
            outcome(result),
        ),
        consistent(final(registry)@),
{
    let ghost pre = registry@;
    let ghost wanted = texts_view(addrs@);
    if !holds_role(&registry.parts().admin, &info.sender) {
        return Err(ContractError::unauthorized());
    }
    let mut core = registry.take();
    let mut list: Vec<String> = Vec::new();
    core::mem::swap(&mut list, &mut core.blacklist);
    let mut i: usize = 0;
    assert(wanted.skip(0) =~= wanted);
    while i < addrs.len()
        invariant
            i <= addrs.len(),
            wanted == texts_view(addrs@),
            ordered(texts_view(list@)),
            without_targets(pre.blacklist, wanted) == without_targets(
                texts_view(list@),
                wanted.skip(i as int),
            ),
        decreases addrs.len() - i,
    {
        let ghost before = texts_view(list@);
        let ghost rest = wanted.skip(i as int);
        assert(rest[0] == addrs@[i as int]@);
        assert(rest.drop_first() =~= wanted.skip(i + 1));
        proof {
            lemma_without_target(before, rest[0]);
        }
        match find_text(&list, &addrs[i]) {
            Some(k) => {
                let _ = list.remove(k);
                assert(texts_view(list@) =~= before.remove(k as int));
            },
            None => {},
        }
        i = i + 1;
    }
    assert(wanted.skip(i as int) =~= Seq::<Seq<char>>::empty());
    core.blacklist = list;
    registry.put(core);
    let messages: Vec<SubMsg> = Vec::new();
    assert(messages_view(messages@) =~= Seq::<SubMsgView>::empty());
    Ok(Response { messages, event: Event::RemoveFromBlacklist {  } })
}

/// What `execute` does: what the operation named by `msg` does.
pub open spec fn execute_spec(
    pre: RegistryView,
    env: EnvView,
    info: MessageInfoView,
    msg: ExecuteMsg,
    post: RegistryView,
    result: Result<ResponseView, ContractErrorView>,
) -> bool {
    match msg {
        ExecuteMsg::ClaimAdmin {  } => claim_admin_spec(pre, info, post, result),
        ExecuteMsg::UpdateConfig { config } => update_config_spec(pre, info, config, post, result),
        ExecuteMsg::CreateRequest { request_info } => create_request_spec(
            pre,
            env,
            info,
            request_info@,
            post,
            result,
        ),
        ExecuteMsg::CancelRequest { id } => cancel_request_spec(pre, info, id, post, result),
        ExecuteMsg::ExecuteRequest { id } => execute_request_spec(pre, env, info, id, post, result),
        ExecuteMsg::DepositRecurringFee { recurring_count } => deposit_recurring_fee_spec(
            pre,
            info,
            recurring_count,
            post,
            result,
        ),
        ExecuteMsg::WithdrawRecurringFee { recurring_count } => withdraw_recurring_fee_spec(
            pre,
            info,
            recurring_count,
            post,
            result,
        ),
        ExecuteMsg::Receive(cw20_msg) => receive_cw20_spec(
            pre,
            env,
            info,
            cw20_msg.sender@,
            cw20_msg.amount as nat,
            cw20_msg.msg,
            post,
            result,
        ),
        ExecuteMsg::StakeDenom { num_stakes } => receive_denom_spec(pre, env, info, num_stakes, post, result),
        ExecuteMsg::Unstake { idxs } => unstake_spec(pre, env, info, idxs@, post, result),
        ExecuteMsg::UpdateExecutor {  } => update_executor_spec(pre, env, post, result),
        ExecuteMsg::AddToBlacklist { addrs } => add_to_blacklist_spec(
            pre,
            info,
            texts_view(addrs@),
            post,
            result,
        ),
        ExecuteMsg::RemoveFromBlacklist { addrs } => remove_from_blacklist_spec(
            pre,
            info,
            texts_view(addrs@),
            post,
            result,
        ),
    }
}

/// Carries out the operation named by `msg` for the caller `info.sender`.
/// Where it changes the length of an epoch, the new length is at least one
/// block.
pub fn execute(registry: &mut Registry, env: &Env, info: &MessageInfo, msg: ExecuteMsg) -> (result: Result<
    Response,
    ContractError,
>)
    requires
        msg matches ExecuteMsg::UpdateConfig { config } ==> config.blocks_in_epoch != Some(0u64),
    ensures
        execute_spec(old(registry)@, env@, info@, msg, final(registry)@, outcome(result)),
        consistent(final(registry)@),
{
    match msg {
        ExecuteMsg::ClaimAdmin {  } => claim_admin(registry, env, info),
        ExecuteMsg::UpdateConfig { config } => update_config(registry, env, info, config),
        ExecuteMsg::CreateRequest { request_info } => create_request(registry, env, info, request_info),
        ExecuteMsg::CancelRequest { id } => cancel_request(registry, env, info, id),
        ExecuteMsg::ExecuteRequest { id } => execute_request(registry, env, info, id),
        ExecuteMsg::DepositRecurringFee { recurring_count } => deposit_recurring_fee(
            registry,
            info,
            recurring_count,
        ),
        ExecuteMsg::WithdrawRecurringFee { recurring_count } => withdraw_recurring_fee(
            registry,
            info,
            recurring_count,
        ),
        ExecuteMsg::Receive(msg) => receive_cw20(registry, env, info, msg),
        ExecuteMsg::StakeDenom { num_stakes } => receive_denom(registry, env, info, num_stakes),
        ExecuteMsg::Unstake { idxs } => unstake(registry, env, info, idxs),
        ExecuteMsg::UpdateExecutor {  } => update_executor(registry, env),
        ExecuteMsg::AddToBlacklist { addrs } => add_to_blacklist(registry, env, info, addrs),
        ExecuteMsg::RemoveFromBlacklist { addrs } => remove_from_blacklist(registry, env, info, addrs),
    }
}

} // verus!
