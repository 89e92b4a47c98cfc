//! What holds of the registry's operations, whatever the registry and
//! whatever the call.

use vstd::prelude::*;
use crate::asset::AssetInfoView;
use crate::blacklist::{lemma_with_target, lemma_without_target, ordered, with_target};
use crate::contract::{
    complete, deposit_recurring_fee_spec, execute_spec, initial, lemma_ids_count,
    lemma_occurrences_extended, lemma_stored, receive_cw20_spec, receive_denom_spec, reply_spec,
    stake_spec, unstaked, update_executor_spec, with_targets, withdraw_recurring_fee_spec,
    without_targets,
};
use crate::error::ContractErrorView;
use crate::ledger::{balance_in, holders, lemma_balance_within_total, lemma_with_balance, total_of};
use crate::msg::{
    CreateOrUpdateConfig, Cw20HookMsg, EnvView, ExecuteMsg, MessageInfoView, ResponseView,
    texts_view,
};
use crate::payment::payment_in;
use crate::registry::{
    RegistryView, consistent, lemma_occurrences_bound, lemma_occurrences_swap_removed, occurrences,
    swap_removed,
};
use crate::rotation::rotation_is_idempotent;
use crate::state::lookup;

verus! {

/// In a consistent registry the counter of pending requests is the number of
/// requests stored.
pub proof fn requests_are_counted(v: RegistryView)
    requires
        consistent(v),
    ensures
        v.state.total_requests == v.requests.len(),
{
}

/// In a consistent registry the staked total is one stake amount for each
/// entry of the stake roll, and the staked balance of each address is one
/// stake amount for each of its entries.
pub proof fn stakes_are_counted(v: RegistryView, who: Seq<char>)
    requires
        consistent(v),
    ensures
        v.state.total_staked == v.config.stake_amount * v.state.stakes.len(),
        balance_in(v.stake_balance, who) == v.config.stake_amount * occurrences(v.state.stakes, who),
{
}

/// In a consistent registry the recorded sum of the recurring pools is their
/// sum, and no pool holds more than it.
pub proof fn recurring_pools_add_up(v: RegistryView, who: Seq<char>)
    requires
        consistent(v),
    ensures
        v.state.total_recurring_fee == total_of(v.recurring_balance),
        balance_in(v.recurring_balance, who) <= v.state.total_recurring_fee,
{
    lemma_balance_within_total(v.recurring_balance, who);
}

/// Staking succeeds with exactly the stake amount times the number of
/// stakes, as long as the sum of all stakes stays in range, and fails with
/// `InvalidStakeInfo` with any other amount.
pub proof fn stake_takes_the_exact_amount(
    pre: RegistryView,
    env: EnvView,
    sender: Seq<char>,
    num_stakes: u64,
    amount: nat,
    post: RegistryView,
    result: Result<ResponseView, ContractErrorView>,
)
    requires
        stake_spec(pre, env, sender, num_stakes, amount, post, result),
    ensures
        amount == pre.config.stake_amount * num_stakes && pre.state.total_staked + amount <= u128::MAX
            ==> result is Ok,
        amount != pre.config.stake_amount * num_stakes ==> result == Err::<
            ResponseView,
            ContractErrorView,
        >(ContractErrorView::InvalidStakeInfo),
{
}

/// Updating the executor twice at one height leaves the registry as updating
/// it once does: the same executor, for the same epoch.
pub proof fn update_executor_twice(
    pre: RegistryView,
    env: EnvView,
    once: RegistryView,
    first: Result<ResponseView, ContractErrorView>,
    twice: RegistryView,
    second: Result<ResponseView, ContractErrorView>,
)
    requires
        consistent(pre),
        update_executor_spec(pre, env, once, first),
        update_executor_spec(once, env, twice, second),
    ensures
        twice == once,
        twice.state.executor == once.state.executor,
        twice.state.last_epoch == once.state.last_epoch,
{
    let draw = crate::rotation::first_draw(env.height as u128);
    rotation_is_idempotent(pre.state, env.height, pre.config.blocks_in_epoch, draw, draw);
}

/// Paying fees into the recurring pool and taking as many out again leaves
/// the caller's pool and the sum of all pools as they were: after a deposit
/// of `count` fees, the withdrawal of `count` fees by the same caller
/// succeeds and restores both.
pub proof fn deposit_then_withdraw_restores(
    pre: RegistryView,
    paying: MessageInfoView,
    taking: MessageInfoView,
    count: u64,
    paid: RegistryView,
    first: Result<ResponseView, ContractErrorView>,
    taken: RegistryView,
    second: Result<ResponseView, ContractErrorView>,
)
    requires
        consistent(pre),
        paying.sender == taking.sender,
        deposit_recurring_fee_spec(pre, paying, count, paid, first),
        first is Ok,
        withdraw_recurring_fee_spec(paid, taking, count, taken, second),
    ensures
        second is Ok,
        balance_in(taken.recurring_balance, paying.sender) == balance_in(
            pre.recurring_balance,
            paying.sender,
        ),
        taken.state.total_recurring_fee == pre.state.total_recurring_fee,
        forall|other: Seq<char>| #[trigger]
            balance_in(taken.recurring_balance, other) == balance_in(pre.recurring_balance, other),
{
    let who = paying.sender;
    let amount = (pre.config.fee_amount * count) as nat;
    let before = balance_in(pre.recurring_balance, who);
    lemma_with_balance(pre.recurring_balance, who, before + amount);
    lemma_with_balance(paid.recurring_balance, who, before);
    assert((before + amount - amount) as nat == before);
}

/// The registry that the parameters make is consistent.
pub proof fn initial_is_consistent(config: CreateOrUpdateConfig)
    requires
        complete(config),
        config.blocks_in_epoch != Some(0u64),
    ensures
        consistent(initial(config)),
{
    let v = initial(config);
    assert(v.config.stake_amount * v.state.stakes.len() == 0) by (nonlinear_arith)
        requires
            v.state.stakes.len() == 0,
    ;
    assert forall|who: Seq<char>| #[trigger]
        balance_in(v.stake_balance, who) == v.config.stake_amount * occurrences(v.state.stakes, who) by {
        holders(v.stake_balance).index_of_first_ensures(who);
        assert(v.config.stake_amount * 0 == 0) by (nonlinear_arith);
    }
}

/// Where stakes can be taken back, the roll loses one entry of their owner
/// for each position, and keeps the entries of everyone else.
pub proof fn lemma_unstaked(roll: Seq<Seq<char>>, who: Seq<char>, idxs: Seq<u64>, other: Seq<char>)
    requires
        unstaked(roll, who, idxs) is Ok,
    ensures
        unstaked(roll, who, idxs) matches Ok(left) && left.len() + idxs.len() == roll.len()
            && occurrences(left, other) + if other == who {
            idxs.len()
        } else {
            0
        } == occurrences(roll, other),
    decreases idxs.len(),
{
    if idxs.len() > 0 {
        let at = idxs[0] as int;
        lemma_occurrences_swap_removed(roll, at, other);
        lemma_unstaked(swap_removed(roll, at), who, idxs.drop_first(), other);
    }
}

/// Putting targets on an ordered blacklist, or taking targets off it, leaves
/// it ordered.
pub proof fn lemma_targets_ordered(list: Seq<Seq<char>>, addrs: Seq<Seq<char>>)
    requires
        ordered(list),
    ensures
        ordered(with_targets(list, addrs)),
        ordered(without_targets(list, addrs)),
    decreases addrs.len(),
{
    if addrs.len() > 0 {
        lemma_with_target(list, addrs[0]);
        lemma_without_target(list, addrs[0]);
        lemma_targets_ordered(with_target(list, addrs[0]), addrs.drop_first());
        lemma_targets_ordered(list.remove_value(addrs[0]), addrs.drop_first());
    }
}

/// Adding stakes keeps a registry consistent.
pub proof fn stake_keeps_consistency(
    pre: RegistryView,
    env: EnvView,
    sender: Seq<char>,
    num_stakes: u64,
    amount: nat,
    post: RegistryView,
    result: Result<ResponseView, ContractErrorView>,
)
    requires
        consistent(pre),
        stake_spec(pre, env, sender, num_stakes, amount, post, result),
    ensures
        consistent(post),
{
    if result is Ok {
        let unit = pre.config.stake_amount;
        let roll = pre.state.stakes;
        let balance = balance_in(pre.stake_balance, sender);
        lemma_with_balance(pre.stake_balance, sender, balance + amount);
        assert(unit * (roll.len() + num_stakes) == unit * roll.len() + unit * num_stakes)
            by (nonlinear_arith);
        assert forall|who: Seq<char>| #[trigger]
            balance_in(post.stake_balance, who) == unit * occurrences(post.state.stakes, who) by {
            lemma_occurrences_extended(roll, sender, num_stakes as nat, who);
            if who == sender {
                assert(unit * (occurrences(roll, who) + num_stakes) == unit * occurrences(roll, who)
                    + unit * num_stakes) by (nonlinear_arith);
            }
        }
    }
}

/// Staking tokens that a token contract handed over keeps a registry
/// consistent.
pub proof fn receive_cw20_keeps_consistency(
    pre: RegistryView,
    env: EnvView,
    info: MessageInfoView,
    cw20_sender: Seq<char>,
    amount: nat,
    hook: Option<Cw20HookMsg>,
    post: RegistryView,
    result: Result<ResponseView, ContractErrorView>,
)
    requires
        consistent(pre),
        receive_cw20_spec(pre, env, info, cw20_sender, amount, hook, post, result),
    ensures
        consistent(post),
{
    match hook {
        Some(Cw20HookMsg::Stake { num_stakes }) => {
            match pre.config.auto {
                AssetInfoView::Token { contract_addr } => {
                    if contract_addr == info.sender {
                        stake_keeps_consistency(pre, env, cw20_sender, num_stakes, amount, post, result);
                    }
                },
                AssetInfoView::NativeToken { denom } => {},
            }
        },
        None => {},
    }
}

/// Staking the native coins sent keeps a registry consistent.
pub proof fn receive_denom_keeps_consistency(
    pre: RegistryView,
    env: EnvView,
    info: MessageInfoView,
    num_stakes: u64,
    post: RegistryView,
    result: Result<ResponseView, ContractErrorView>,
)
    requires
        consistent(pre),
        receive_denom_spec(pre, env, info, num_stakes, post, result),
    ensures
        consistent(post),
{
    match pre.config.auto {
        AssetInfoView::NativeToken { denom } => {
            match payment_in(info.funds, denom) {
                Ok(paid) => {
                    stake_keeps_consistency(pre, env, info.sender, num_stakes, paid, post, result);
                },
                Err(_) => {},
            }
        },
        AssetInfoView::Token { contract_addr } => {},
    }
}

/// Every operation keeps a registry consistent, whether it succeeds or
/// fails: the counter of pending requests still counts the stored requests,
/// the stake roll still has one entry for each stake paid, and the recurring
/// pools still add up to their recorded sum.
pub proof fn operations_keep_consistency(
    pre: RegistryView,
    env: EnvView,
    info: MessageInfoView,
    msg: ExecuteMsg,
    post: RegistryView,
    result: Result<ResponseView, ContractErrorView>,
)
    requires
        consistent(pre),
        msg matches ExecuteMsg::UpdateConfig { config } ==> config.blocks_in_epoch != Some(0u64),
        execute_spec(pre, env, info, msg, post, result),
    ensures
        consistent(post),
{
    if result is Err {
        // A failed operation leaves the registry as it was.
        match msg {
            ExecuteMsg::Receive(cw20_msg) => {
                receive_cw20_keeps_consistency(
                    pre,
                    env,
                    info,
                    cw20_msg.sender@,
                    cw20_msg.amount as nat,
                    cw20_msg.msg,
                    post,
                    result,
                );
            },
            ExecuteMsg::StakeDenom { num_stakes } => {
                receive_denom_keeps_consistency(pre, env, info, num_stakes, post, result);
            },
            _ => {},
        }
    } else {
        operation_made_keeps_consistency(pre, env, info, msg, post, result);
    }
}

/// Every operation that succeeds keeps a registry consistent.
proof fn operation_made_keeps_consistency(
    pre: RegistryView,
    env: EnvView,
    info: MessageInfoView,
    msg: ExecuteMsg,
    post: RegistryView,
    result: Result<ResponseView, ContractErrorView>,
)
    requires
        consistent(pre),
        msg matches ExecuteMsg::UpdateConfig { config } ==> config.blocks_in_epoch != Some(0u64),
        execute_spec(pre, env, info, msg, post, result),
        result is Ok,
    ensures
        consistent(post),
{
    match msg {
        ExecuteMsg::ClaimAdmin {  } => {},
        ExecuteMsg::UpdateConfig { config } => {},
        ExecuteMsg::CreateRequest { request_info } => {
            lemma_ids_count(pre.requests, pre.state.next_request_id);
        },
        ExecuteMsg::CancelRequest { id } => {
            lemma_stored(pre.requests, id, pre.state.next_request_id);
        },
        ExecuteMsg::ExecuteRequest { id } => {
            lemma_stored(pre.requests, id, pre.state.next_request_id);
            let request = lookup(pre.requests, id).unwrap();
            let balance = balance_in(pre.recurring_balance, request.user);
            lemma_balance_within_total(pre.recurring_balance, request.user);
            if request.is_recurring {
                lemma_with_balance(
                    pre.recurring_balance,
                    request.user,
                    (balance - pre.config.fee_amount) as nat,
                );
            }
        },
        ExecuteMsg::DepositRecurringFee { recurring_count } => {
            let amount = (pre.config.fee_amount * recurring_count) as nat;
            let balance = balance_in(pre.recurring_balance, info.sender);
            lemma_with_balance(pre.recurring_balance, info.sender, balance + amount);
        },
        ExecuteMsg::WithdrawRecurringFee { recurring_count } => {
            let amount = (pre.config.fee_amount * recurring_count) as nat;
            let balance = balance_in(pre.recurring_balance, info.sender);
            lemma_balance_within_total(pre.recurring_balance, info.sender);
            lemma_with_balance(pre.recurring_balance, info.sender, (balance - amount) as nat);
        },
        ExecuteMsg::Receive(cw20_msg) => {
            receive_cw20_keeps_consistency(
                pre,
                env,
                info,
                cw20_msg.sender@,
                cw20_msg.amount as nat,
                cw20_msg.msg,
                post,
                result,
            );
        },
        ExecuteMsg::StakeDenom { num_stakes } => {
            receive_denom_keeps_consistency(pre, env, info, num_stakes, post, result);
        },
        ExecuteMsg::Unstake { idxs } => {
            let unit = pre.config.stake_amount;
            let roll = pre.state.stakes;
            let who = info.sender;
            let count = idxs@.len();
            let balance = balance_in(pre.stake_balance, who);
            lemma_unstaked(roll, who, idxs@, who);
            lemma_occurrences_bound(roll, who);
            assert(unit * count <= unit * occurrences(roll, who)) by (nonlinear_arith)
                requires
                    count <= occurrences(roll, who),
            ;
            assert(unit * count <= unit * roll.len()) by (nonlinear_arith)
                requires
                    count <= roll.len(),
            ;
            lemma_with_balance(pre.stake_balance, who, (balance - unit * count) as nat);
            assert(unit * (roll.len() - count) == unit * roll.len() - unit * count) by (nonlinear_arith);
            assert forall|other: Seq<char>| #[trigger]
                balance_in(post.stake_balance, other) == unit * occurrences(post.state.stakes, other) by {
                lemma_unstaked(roll, who, idxs@, other);
                if other == who {
                    assert(unit * (occurrences(roll, who) - count) == unit * occurrences(roll, who)
                        - unit * count) by (nonlinear_arith);
                }
            }
        },
        ExecuteMsg::UpdateExecutor {  } => {},
        ExecuteMsg::AddToBlacklist { addrs } => {
            lemma_targets_ordered(pre.blacklist, texts_view(addrs@));
        },
        ExecuteMsg::RemoveFromBlacklist { addrs } => {
            lemma_targets_ordered(pre.blacklist, texts_view(addrs@));
        },
    }
}

/// The report of the host on an execution keeps a registry consistent.
pub proof fn reply_keeps_consistency(
    pre: RegistryView,
    id: u64,
    post: RegistryView,
    result: Result<ResponseView, ContractErrorView>,
)
    requires
        consistent(pre),
        reply_spec(pre, id, post, result),
    ensures
        consistent(post),
{
}

/// An operation that fails leaves the registry as it was.
pub proof fn failed_operations_change_nothing(
    pre: RegistryView,
    env: EnvView,
    info: MessageInfoView,
    msg: ExecuteMsg,
    post: RegistryView,
    result: Result<ResponseView, ContractErrorView>,
)
    requires
        execute_spec(pre, env, info, msg, post, result),
        result is Err,
    ensures
        post == pre,
{
}

} // verus!
