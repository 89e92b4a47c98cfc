//! The swap wrapper: a companion of the registry that makes one swap on an
//! exchange and then checks, in a call to itself, that what the swap
//! brought lies within the range that the user asked for.

use vstd::prelude::*;
use crate::asset::{decimal, decimal_text};
use crate::error::{StdError, StdErrorView};
use crate::msg::{Env, EnvView, MessageInfo, MessageInfoView};
use crate::version::{order_view, precedes, version_precedes};

verus! {

/// What a wrapper is made with: nothing.
#[derive(Clone, Debug, PartialEq, Eq)]
pub struct InstantiateMsg {}

/// What a migration is asked with: nothing.
#[derive(Clone, Debug)]
pub struct MigrateMsg {}

/// One step of a swap: the pool to go through and the coin to leave it with.
#[derive(Clone, Debug, PartialEq, Eq)]
pub struct SwapAmountInRoute {
    pub pool_id: u64,
    pub token_out_denom: String,
}

/// The mathematical value of a [`SwapAmountInRoute`].
pub struct SwapAmountInRouteView {
    pub pool_id: u64,
    pub token_out_denom: Seq<char>,
}

impl View for SwapAmountInRoute {
    type V = SwapAmountInRouteView;

    open spec fn view(&self) -> SwapAmountInRouteView {
        SwapAmountInRouteView { pool_id: self.pool_id, token_out_denom: self.token_out_denom@ }
    }
}

/// The values of the steps of a route, in order.
pub open spec fn route_view(route: Seq<SwapAmountInRoute>) -> Seq<SwapAmountInRouteView> {
    route.map_values(|step: SwapAmountInRoute| step@)
}

/// The operations of the wrapper.
#[derive(Clone, Debug, PartialEq, Eq)]
pub enum ExecuteMsg {
    Swap {
        /// The user for whom the swap is made.
        sender: String,
        /// The pools to go through.
        route: Vec<SwapAmountInRoute>,
        denom_in: String,
        amount_in: u128,
        min_output: u128,
        max_output: u128,
        denom_out: String,
    },
    CheckRange {
        /// The user who gets what the swap brought.
        user: String,
        /// The denomination that the swap brings.
        denom: String,
        /// What the wrapper held of it before the swap.
        balance_before: u128,
        min_output: u128,
        max_output: u128,
    },
}

/// The errors of the wrapper.
#[derive(Clone, Debug, PartialEq, Eq)]
pub enum WrapperError {
    Std(StdError),
    /// A version could not be read; the text says why.
    SemVer(String),
    /// The range check was asked for by another than the wrapper itself.
    NotWrapperContract { expected: String, actual: String },
    /// What the swap brought lies outside the range.
    InvalidOutput { expected_min: u128, expected_max: u128, actual: u128 },
}

/// The mathematical value of a [`WrapperError`].
pub enum WrapperErrorView {
    Std(StdErrorView),
    SemVer(Seq<char>),
    NotWrapperContract { expected: Seq<char>, actual: Seq<char> },
    InvalidOutput { expected_min: nat, expected_max: nat, actual: nat },
}

impl View for WrapperError {
    type V = WrapperErrorView;

    open spec fn view(&self) -> WrapperErrorView {
        match self {
            WrapperError::Std(e) => WrapperErrorView::Std(e@),
            WrapperError::SemVer(text) => WrapperErrorView::SemVer(text@),
            WrapperError::NotWrapperContract { expected, actual } => WrapperErrorView::NotWrapperContract {
                expected: expected@,
                actual: actual@,
            },
            WrapperError::InvalidOutput { expected_min, expected_max, actual } => WrapperErrorView::InvalidOutput {
                expected_min: *expected_min as nat,
                expected_max: *expected_max as nat,
                actual: *actual as nat,
            },
        }
    }
}

/// An instruction of the wrapper for the host.
#[derive(Clone, Debug, PartialEq, Eq)]
pub enum WrapperMsg {
    /// Swap an exact amount in along a route, for at least an amount out.
    /// The amounts are written in decimal digits.
    SwapExactAmountIn {
        sender: String,
        routes: Vec<SwapAmountInRoute>,
        token_in_denom: String,
        token_in_amount: String,
        token_out_min_amount: String,
    },
    /// Call the wrapper at `contract_addr` to check the range.
    CheckRange {
        contract_addr: String,
        user: String,
        denom: String,
        balance_before: u128,
        min_output: u128,
        max_output: u128,
    },
    /// Send `amount` of the native coin `denom` to `to_address`.
    Send { to_address: String, denom: String, amount: u128 },
}

/// The mathematical value of a [`WrapperMsg`].
pub enum WrapperMsgView {
    SwapExactAmountIn {
        sender: Seq<char>,
        routes: Seq<SwapAmountInRouteView>,
        token_in_denom: Seq<char>,
        token_in_amount: Seq<char>,
        token_out_min_amount: Seq<char>,
    },
    CheckRange {
        contract_addr: Seq<char>,
        user: Seq<char>,
        denom: Seq<char>,
        balance_before: nat,
        min_output: nat,
        max_output: nat,
    },
    Send { to_address: Seq<char>, denom: Seq<char>, amount: nat },
}

impl View for WrapperMsg {
    type V = WrapperMsgView;

    open spec fn view(&self) -> WrapperMsgView {
        match self {
            WrapperMsg::SwapExactAmountIn {
                sender,
                routes,
                token_in_denom,
                token_in_amount,
                token_out_min_amount,
            } => WrapperMsgView::SwapExactAmountIn {
                sender: sender@,
                routes: route_view(routes@),
                token_in_denom: token_in_denom@,
                token_in_amount: token_in_amount@,
                token_out_min_amount: token_out_min_amount@,
            },
            WrapperMsg::CheckRange {
                contract_addr,
                user,
                denom,
                balance_before,
                min_output,
                max_output,
            } => WrapperMsgView::CheckRange {
                contract_addr: contract_addr@,
                user: user@,
                denom: denom@,
                balance_before: *balance_before as nat,
                min_output: *min_output as nat,
                max_output: *max_output as nat,
            },
            WrapperMsg::Send { to_address, denom, amount } => WrapperMsgView::Send {
                to_address: to_address@,
                denom: denom@,
                amount: *amount as nat,
            },
        }
    }
}

/// What an operation of the wrapper did.
#[derive(Clone, Copy, Debug, PartialEq, Eq)]
pub enum WrapperEvent {
    Swap,
    ExecuteCheckRange,
}

impl WrapperEvent {
    /// The name of the operation.
    pub fn action(&self) -> (name: &'static str)
        ensures
            name@ == match self {
                WrapperEvent::Swap => "swap"@,
                WrapperEvent::ExecuteCheckRange => "execute_check_range"@,
            },
    {
        match self {
            WrapperEvent::Swap => "swap",
            WrapperEvent::ExecuteCheckRange => "execute_check_range",
        }
    }
}

/// What a successful operation of the wrapper hands back.
#[derive(Clone, Debug, PartialEq, Eq)]
pub struct WrapperResponse {
    pub messages: Vec<WrapperMsg>,
    pub event: WrapperEvent,
}

/// The values of a list of instructions, in order.
pub open spec fn instructions_view(messages: Seq<WrapperMsg>) -> Seq<WrapperMsgView> {
    messages.map_values(|m: WrapperMsg| m@)
}

/// A copy of a route.
pub fn copy_route(route: &Vec<SwapAmountInRoute>) -> (copy: Vec<SwapAmountInRoute>)
    ensures
        route_view(copy@) == route_view(route@),
{
    let mut copy: Vec<SwapAmountInRoute> = Vec::new();
    let mut i: usize = 0;
    while i < route.len()
        invariant
            i <= route.len(),
            copy@.len() == i,
            forall|j: int| 0 <= j < i ==> (#[trigger] copy@[j])@ == route@[j]@,
        decreases route.len() - i,
    {
        copy.push(
            SwapAmountInRoute {
                pool_id: route[i].pool_id,
                token_out_denom: route[i].token_out_denom.clone(),
            },
        );
        i = i + 1;
    }
    assert(route_view(copy@) =~= route_view(route@));
    copy
}

/// The instructions of a swap: the swap itself, and then the call of the
/// wrapper by itself that checks what the swap brought, against what the
/// wrapper held before, `balance`.
pub open spec fn swap_messages(
    env: EnvView,
    sender: Seq<char>,
    route: Seq<SwapAmountInRouteView>,
    amount_in: nat,
    denom_in: Seq<char>,
    min_output: nat,
    max_output: nat,
    denom_out: Seq<char>,
    balance: nat,
) -> Seq<WrapperMsgView> {
    seq![
        WrapperMsgView::SwapExactAmountIn {
            sender,
            routes: route,
            token_in_denom: denom_in,
            token_in_amount: decimal(amount_in),
            token_out_min_amount: decimal(min_output),
        },
        WrapperMsgView::CheckRange {
            contract_addr: env.contract_address,
            user: sender,
            denom: denom_out,
            balance_before: balance,
            min_output,
            max_output,
        },
    ]
}

/// Plans a swap of `amount_in` of `denom_in` along `route` for `sender`,
/// where `balance` is what the wrapper holds of `denom_out` before it.
pub fn execute_swap(
    env: &Env,
    info: &MessageInfo,
    sender: String,
    route: Vec<SwapAmountInRoute>,
    amount_in: u128,
    denom_in: String,
    min_output: u128,
    max_output: u128,
    denom_out: String,
    balance: u128,
) -> (result: Result<WrapperResponse, WrapperError>)
    ensures
        result matches Ok(response) && response.event == WrapperEvent::Swap && instructions_view(
            response.messages@,
        ) == swap_messages(
            env@,
            sender@,
            route_view(route@),
            amount_in as nat,
            denom_in@,
            min_output as nat,
            max_output as nat,
            denom_out@,
            balance as nat,
        ),
{
    let mut messages: Vec<WrapperMsg> = Vec::new();
    // The swap itself,
    messages.push(
        WrapperMsg::SwapExactAmountIn {
            sender: sender.clone(),
            routes: route,
            token_in_denom: denom_in,
            token_in_amount: decimal_text(amount_in),
            token_out_min_amount: decimal_text(min_output),
        },
    );
    // then the check of what it brought.
    messages.push(
        WrapperMsg::CheckRange {
            contract_addr: env.contract_address.clone(),
            user: sender,
            denom: denom_out,
            balance_before: balance,
            min_output,
            max_output,
        },
    );
    assert(instructions_view(messages@) =~= swap_messages(
        env@,
        sender@,
        route_view(route@),
        amount_in as nat,
        denom_in@,
        min_output as nat,
        max_output as nat,
        denom_out@,
        balance as nat,
    ));
    Ok(WrapperResponse { messages, event: WrapperEvent::Swap })
}

/// Why the range check fails: it was not asked for by the wrapper itself, or
/// what the swap brought, `balance - balance_before`, lies outside the range.
pub open spec fn check_range_failure(
    env: EnvView,
    info: MessageInfoView,
    balance_before: nat,
    min_output: nat,
    max_output: nat,
    balance: nat,
) -> Option<WrapperErrorView> {
    let output = (balance - balance_before) as nat;
    if info.sender != env.contract_address {
        Some(WrapperErrorView::NotWrapperContract { expected: env.contract_address, actual: info.sender })
    } else if output < min_output || output > max_output {
        Some(
            WrapperErrorView::InvalidOutput {
                expected_min: min_output,
                expected_max: max_output,
                actual: output,
            },
        )
    } else {
        None
    }
}

/// Checks what a swap brought, where `balance` is what the wrapper holds of
/// `denom` now, and sends it to `user`. Where the wrapper itself asks, it
/// holds no less than before the swap.
pub fn execute_check_range(
    env: &Env,
    info: &MessageInfo,
    user: String,
    denom: String,
    balance_before: u128,
    min_output: u128,
    max_output: u128,
    balance: u128,
) -> (result: Result<WrapperResponse, WrapperError>)
    requires
        info.sender@ == env.contract_address@ ==> balance >= balance_before,
    ensures
        match result {
            Ok(response) => check_range_failure(
                env@,
                info@,
                balance_before as nat,
                min_output as nat,
                max_output as nat,
                balance as nat,
            ) is None && response.event == WrapperEvent::ExecuteCheckRange && instructions_view(
                response.messages@,
            ) == seq![
                WrapperMsgView::Send {
                    to_address: user@,
                    denom: denom@,
                    amount: (balance - balance_before) as nat,
                },
            ],
            Err(e) => check_range_failure(
                env@,
                info@,
                balance_before as nat,
                min_output as nat,
                max_output as nat,
                balance as nat,
            ) == Some(e@),
        },
{
    // Only the wrapper itself asks for the check.
    if info.sender != env.contract_address {
        return Err(
            WrapperError::NotWrapperContract {
                expected: env.contract_address.clone(),
                actual: info.sender.clone(),
            },
        );
    }
    let output = balance - balance_before;
    if output < min_output || output > max_output {
        return Err(
            WrapperError::InvalidOutput { expected_min: min_output, expected_max: max_output, actual: output },
        );
    }
    let mut messages: Vec<WrapperMsg> = Vec::new();
    messages.push(WrapperMsg::Send { to_address: user, denom, amount: output });
    assert(instructions_view(messages@) =~= seq![
        WrapperMsgView::Send { to_address: user@, denom: denom@, amount: output as nat },
    ]);
    Ok(WrapperResponse { messages, event: WrapperEvent::ExecuteCheckRange })
}

/// Carries out the operation named by `msg`, where `balance` is what the
/// wrapper holds of the denomination that the swap brings. At a range check
/// that the wrapper itself asks for, it holds no less than before the swap.
pub fn execute(env: &Env, info: &MessageInfo, msg: ExecuteMsg, balance: u128) -> (result: Result<
    WrapperResponse,
    WrapperError,
>)
    requires
        msg matches ExecuteMsg::CheckRange { balance_before, .. } ==> (info.sender@
            == env.contract_address@ ==> balance >= balance_before),
    ensures
        match msg {
            ExecuteMsg::Swap { sender, route, denom_in, amount_in, min_output, max_output, denom_out } => {
                result matches Ok(response) && response.event == WrapperEvent::Swap
                    && instructions_view(response.messages@) == swap_messages(
                    env@,
                    sender@,
                    route_view(route@),
                    amount_in as nat,
                    denom_in@,
                    min_output as nat,
                    max_output as nat,
                    denom_out@,
                    balance as nat,
                )
            },
            ExecuteMsg::CheckRange { user, denom, balance_before, min_output, max_output } => match result {
                Ok(response) => check_range_failure(
                    env@,
                    info@,
                    balance_before as nat,
                    min_output as nat,
                    max_output as nat,
                    balance as nat,
                ) is None && response.event == WrapperEvent::ExecuteCheckRange && instructions_view(
                    response.messages@,
                ) == seq![
                    WrapperMsgView::Send {
                        to_address: user@,
                        denom: denom@,
                        amount: (balance - balance_before) as nat,
                    },
                ],
                Err(e) => check_range_failure(
                    env@,
                    info@,
                    balance_before as nat,
                    min_output as nat,
                    max_output as nat,
                    balance as nat,
                ) == Some(e@),
            },
        },
{
    match msg {
        ExecuteMsg::Swap { sender, route, denom_in, amount_in, min_output, max_output, denom_out } => {
            execute_swap(
                env,
                info,
                sender,
                route,
                amount_in,
                denom_in,
                min_output,
                max_output,
                denom_out,
                balance,
            )
        },
        ExecuteMsg::CheckRange { user, denom, balance_before, min_output, max_output } => {
            execute_check_range(env, info, user, denom, balance_before, min_output, max_output, balance)
        },
    }
}

/// What a migration of the wrapper does for an order of versions.
pub open spec fn migration_for(order: Result<bool, Seq<char>>) -> Result<bool, WrapperErrorView> {
    match order {
        Ok(older) => Ok(older),
        Err(text) => Err(WrapperErrorView::SemVer(text)),
    }
}

/// The value of what a migration of the wrapper returned.
pub open spec fn migration_view(result: Result<bool, WrapperError>) -> Result<bool, WrapperErrorView> {
    match result {
        Ok(replace) => Ok(replace),
        Err(e) => Err(e@),
    }
}

/// Decides a migration of the wrapper from the order of the two versions.
pub fn migration_due(order: Result<bool, String>) -> (result: Result<bool, WrapperError>)
    ensures
        migration_view(result) == migration_for(order_view(order)),
{
    match order {
        Ok(older) => Ok(older),
        Err(text) => Err(WrapperError::SemVer(text)),
    }
}

/// Decides whether the version kept with the wrapper is to be replaced by
/// `current_version`: it is where it precedes it.
pub fn migrate(stored_version: &String, current_version: &String, msg: MigrateMsg) -> (result: Result<
    bool,
    WrapperError,
>)
    ensures
        migration_view(result) == migration_for(version_precedes(stored_version@, current_version@)),
{
    migration_due(precedes(stored_version, current_version))
}

} // verus!
