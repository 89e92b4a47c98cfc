//! What callers send to the registry, what the registry knows of a call, and
//! what it hands back: instructions for the host, an event, and the answers
//! to queries.

use vstd::prelude::*;
use crate::asset::{Asset, AssetInfo, AssetView, Coin, CoinView, coins_view, optional_asset_view};
use crate::error::{ContractError, ContractErrorView};
use crate::state::{Request, RequestView};

verus! {

/// The value of an optional text.
pub open spec fn optional_text(text: Option<String>) -> Option<Seq<char>> {
    match text {
        Some(t) => Some(t@),
        None => None,
    }
}

/// What the host says of the block and of the registry's own account.
#[derive(Clone, Debug, PartialEq, Eq)]
pub struct Env {
    /// The height of the current block.
    pub height: u64,
    /// The time of the current block, in seconds.
    pub time: u64,
    /// The address of the registry itself.
    pub contract_address: String,
}

/// The mathematical value of an [`Env`].
pub struct EnvView {
    pub height: u64,
    pub time: u64,
    pub contract_address: Seq<char>,
}

impl View for Env {
    type V = EnvView;

    open spec fn view(&self) -> EnvView {
        EnvView { height: self.height, time: self.time, contract_address: self.contract_address@ }
    }
}

/// Who calls, and the coins that came with the call.
#[derive(Clone, Debug, PartialEq, Eq)]
pub struct MessageInfo {
    pub sender: String,
    pub funds: Vec<Coin>,
}

/// The mathematical value of a [`MessageInfo`].
pub struct MessageInfoView {
    pub sender: Seq<char>,
    pub funds: Seq<CoinView>,
}

impl View for MessageInfo {
    type V = MessageInfoView;

    open spec fn view(&self) -> MessageInfoView {
        MessageInfoView { sender: self.sender@, funds: coins_view(self.funds@) }
    }
}

/// The parameters of the protocol, each optional: all but none are needed to
/// create a registry, and any subset may be given to update one.
#[derive(Clone, Debug, PartialEq, Eq)]
pub struct CreateOrUpdateConfig {
    /// The admin, or on update the address proposed as the next admin.
    pub admin: Option<String>,
    /// The fee for one execution of a request.
    pub fee_amount: Option<u128>,
    /// The denomination of the fee.
    pub fee_denom: Option<String>,
    /// The asset that executors stake.
    pub auto: Option<AssetInfo>,
    /// The amount of one stake.
    pub stake_amount: Option<u128>,
    /// The length of an epoch, in blocks.
    pub blocks_in_epoch: Option<u64>,
}

/// What a registry is made of: the parameters, all of them.
#[derive(Clone, Debug, PartialEq, Eq)]
pub struct InstantiateMsg {
    pub config: CreateOrUpdateConfig,
}

/// What a migration is asked with: nothing.
#[derive(Clone, Debug)]
pub struct MigrateMsg {}

/// What a caller asks for when creating a request.
#[derive(Clone, Debug, PartialEq, Eq)]
pub struct CreateRequestInfo {
    /// The address to call when the request is executed.
    pub target: String,
    /// The payload handed to the target, as it is.
    pub msg: Vec<u8>,
    /// An asset to hold in escrow and to forward to the target.
    pub input_asset: Option<Asset>,
    /// Whether the request stays after an execution, paid from the caller's
    /// recurring pool.
    pub is_recurring: bool,
}

/// The mathematical value of a [`CreateRequestInfo`].
pub struct CreateRequestInfoView {
    pub target: Seq<char>,
    pub msg: Seq<u8>,
    pub input_asset: Option<AssetView>,
    pub is_recurring: bool,
}

impl View for CreateRequestInfo {
    type V = CreateRequestInfoView;

    open spec fn view(&self) -> CreateRequestInfoView {
        CreateRequestInfoView {
            target: self.target@,
            msg: self.msg@,
            input_asset: optional_asset_view(self.input_asset),
            is_recurring: self.is_recurring,
        }
    }
}

/// What comes with tokens that a token contract hands over.
#[derive(Clone, Debug, PartialEq, Eq)]
pub enum Cw20HookMsg {
    /// Stake the tokens, as `num_stakes` stakes.
    Stake { num_stakes: u64 },
}

/// A token contract's notice that `sender` handed `amount` tokens over.
#[derive(Clone, Debug, PartialEq, Eq)]
pub struct Cw20ReceiveMsg {
    pub sender: String,
    pub amount: u128,
    /// The message that came with the tokens; `None` where it could not be read.
    pub msg: Option<Cw20HookMsg>,
}

/// The operations of the registry.
#[derive(Clone, Debug, PartialEq, Eq)]
pub enum ExecuteMsg {
    /// Become the admin, as the address that the admin proposed.
    ClaimAdmin {},
    /// Change the parameters, or propose the next admin.
    UpdateConfig { config: CreateOrUpdateConfig },
    /// Create a request.
    CreateRequest { request_info: CreateRequestInfo },
    /// Cancel the request `id`.
    CancelRequest { id: u64 },
    /// Execute the request `id`.
    ExecuteRequest { id: u64 },
    /// Pay `recurring_count` fees into the caller's recurring pool.
    DepositRecurringFee { recurring_count: u64 },
    /// Take `recurring_count` fees out of the caller's recurring pool.
    WithdrawRecurringFee { recurring_count: u64 },
    /// Stake tokens that a token contract handed over.
    Receive(Cw20ReceiveMsg),
    /// Stake the native coins sent, as `num_stakes` stakes.
    StakeDenom { num_stakes: u64 },
    /// Take back the caller's stakes at the positions `idxs`.
    Unstake { idxs: Vec<u64> },
    /// Draw the executor of the current epoch, if none was drawn yet.
    UpdateExecutor {},
    AddToBlacklist { addrs: Vec<String> },
    RemoveFromBlacklist { addrs: Vec<String> },
}

/// In which order a listing goes through the ids.
#[derive(Clone, Copy, Debug, PartialEq, Eq)]
pub enum OrderBy {
    Asc,
    Desc,
}

/// The questions that the registry answers.
#[derive(Clone, Debug, PartialEq, Eq)]
pub enum QueryMsg {
    Admin {},
    PendingAdmin {},
    Config {},
    State {},
    RecurringFees { user: String },
    RequestInfo { id: u64 },
    Requests { start_after: Option<u64>, limit: Option<u32>, order_by: Option<OrderBy> },
    EpochInfo {},
    StakeAmount { user: String },
    Stakes { start: u64, limit: u64 },
    Blacklist {},
}

/// The counters of the registry.
#[derive(Clone, Copy, Debug, PartialEq, Eq)]
pub struct StateResponse {
    /// The request in execution, or `u64::MAX` for none.
    pub curr_executing_request_id: u64,
    /// How many requests are pending.
    pub total_requests: u64,
    pub total_recurring_fee: u128,
    /// The id that the next request gets.
    pub next_request_id: u64,
    pub total_stake_amount: u128,
    /// How many stakes there are.
    pub stakes_len: u64,
}

/// A request with its id.
#[derive(Clone, Debug, PartialEq, Eq)]
pub struct RequestInfoResponse {
    pub id: u64,
    pub request: Request,
}

/// The mathematical value of a [`RequestInfoResponse`].
pub struct RequestInfoResponseView {
    pub id: u64,
    pub request: RequestView,
}

impl View for RequestInfoResponse {
    type V = RequestInfoResponseView;

    open spec fn view(&self) -> RequestInfoResponseView {
        RequestInfoResponseView { id: self.id, request: self.request@ }
    }
}

/// One page of requests.
#[derive(Clone, Debug, PartialEq, Eq)]
pub struct RequestsResponse {
    pub requests: Vec<RequestInfoResponse>,
}

impl View for RequestsResponse {
    type V = Seq<RequestInfoResponseView>;

    open spec fn view(&self) -> Seq<RequestInfoResponseView> {
        self.requests@.map_values(|r: RequestInfoResponse| r@)
    }
}

/// Where the rotation of executors stands.
#[derive(Clone, Debug, PartialEq, Eq)]
pub struct EpochInfoResponse {
    /// The epoch of the current height.
    pub cur_epoch: u64,
    /// The epoch for which an executor was last drawn.
    pub last_epoch: u64,
    /// The executor drawn then; empty where anyone may execute.
    pub executor: String,
}

/// What an address holds in its recurring pool.
#[derive(Clone, Copy, Debug, PartialEq, Eq)]
pub struct RecurringFeeAmountResponse {
    pub amount: u128,
}

/// What an address has staked.
#[derive(Clone, Copy, Debug, PartialEq, Eq)]
pub struct StakeAmountResponse {
    pub amount: u128,
}

/// A part of the stake roll.
#[derive(Clone, Debug, PartialEq, Eq)]
pub struct StakesResponse {
    pub stakes: Vec<String>,
}

/// The blacklist.
#[derive(Clone, Debug, PartialEq, Eq)]
pub struct BlacklistResponse {
    pub blacklist: Vec<String>,
}

/// The current or the proposed admin.
#[derive(Clone, Debug, PartialEq, Eq)]
pub struct AdminResponse {
    pub admin: Option<String>,
}

/// The values of a list of texts, in order.
pub open spec fn texts_view(texts: Seq<String>) -> Seq<Seq<char>> {
    texts.map_values(|t: String| t@)
}

/// An instruction for the host to carry out once the call has succeeded.
#[derive(Clone, Debug, PartialEq, Eq)]
pub enum CosmosMsg {
    /// Send `amount` of the native coin `denom` to `to_address`.
    Send { to_address: String, denom: String, amount: u128 },
    /// Have the token contract move `amount` of the registry's own tokens to
    /// `recipient`.
    Transfer { contract_addr: String, recipient: String, amount: u128 },
    /// Have the token contract move `amount` of `owner`'s tokens to `recipient`.
    TransferFrom { contract_addr: String, owner: String, recipient: String, amount: u128 },
    /// Call `contract_addr` with the payload `msg`, sending no coins along.
    Execute { contract_addr: String, msg: Vec<u8> },
}

/// The mathematical value of a [`CosmosMsg`].
pub enum CosmosMsgView {
    Send { to_address: Seq<char>, denom: Seq<char>, amount: nat },
    Transfer { contract_addr: Seq<char>, recipient: Seq<char>, amount: nat },
    TransferFrom { contract_addr: Seq<char>, owner: Seq<char>, recipient: Seq<char>, amount: nat },
    Execute { contract_addr: Seq<char>, msg: Seq<u8> },
}

impl View for CosmosMsg {
    type V = CosmosMsgView;

    open spec fn view(&self) -> CosmosMsgView {
        match self {
            CosmosMsg::Send { to_address, denom, amount } => CosmosMsgView::Send {
                to_address: to_address@,
                denom: denom@,
                amount: *amount as nat,
            },
            CosmosMsg::Transfer { contract_addr, recipient, amount } => CosmosMsgView::Transfer {
                contract_addr: contract_addr@,
                recipient: recipient@,
                amount: *amount as nat,
            },
            CosmosMsg::TransferFrom { contract_addr, owner, recipient, amount } => CosmosMsgView::TransferFrom {
                contract_addr: contract_addr@,
                owner: owner@,
                recipient: recipient@,
                amount: *amount as nat,
            },
            CosmosMsg::Execute { contract_addr, msg } => CosmosMsgView::Execute {
                contract_addr: contract_addr@,
                msg: msg@,
            },
        }
    }
}

/// When the host reports back on an instruction.
#[derive(Clone, Copy, Debug, PartialEq, Eq)]
pub enum ReplyOn {
    /// Never: the instruction is carried out and that is all.
    Never,
    /// Once the instruction has succeeded.
    Success,
}

/// The reply id of the call to a request's target.
pub const REPLY_REQUEST_EXECUTED: u64 = 1;

/// The host's report on an instruction: the id that the instruction was given,
/// and whether it succeeded.
#[derive(Clone, Copy, Debug, PartialEq, Eq)]
pub struct Reply {
    pub id: u64,
    pub ok: bool,
}

/// An instruction with the id under which the host reports back on it.
#[derive(Clone, Debug, PartialEq, Eq)]
pub struct SubMsg {
    pub id: u64,
    pub msg: CosmosMsg,
    pub reply_on: ReplyOn,
}

/// The mathematical value of a [`SubMsg`].
pub struct SubMsgView {
    pub id: u64,
    pub msg: CosmosMsgView,
    pub reply_on: ReplyOn,
}

impl View for SubMsg {
    type V = SubMsgView;

    open spec fn view(&self) -> SubMsgView {
        SubMsgView { id: self.id, msg: self.msg@, reply_on: self.reply_on }
    }
}

/// An instruction on which the host never reports back.
pub open spec fn plain(msg: CosmosMsgView) -> SubMsgView {
    SubMsgView { id: 0, msg, reply_on: ReplyOn::Never }
}

impl SubMsg {
    /// An instruction on which the host never reports back.
    pub fn new(msg: CosmosMsg) -> (sub: SubMsg)
        ensures
            sub@ == plain(msg@),
    {
        SubMsg { id: 0, msg, reply_on: ReplyOn::Never }
    }
}

/// What an operation did, for the host's event log.
#[derive(Clone, Debug, PartialEq, Eq)]
pub enum Event {
    UpdateConfig {},
    ClaimAdmin { new_admin: String },
    CreateRequest {
        id: u64,
        user: String,
        target: String,
        msg: Vec<u8>,
        asset: Option<Asset>,
        is_recurring: bool,
        created_at: u64,
    },
    CancelRequest { id: u64 },
    ExecuteRequest { id: u64, executor: String },
    DepositRecurringFee { recurring_count: u64, amount: u128 },
    WithdrawRecurringFee { recurring_count: u64, amount: u128 },
    Stake { user: String, num_stakes: u64 },
    Unstake { user: String, count: u64 },
    UpdateExecutor { epoch: u64, executor: String },
    AddToBlacklist {},
    RemoveFromBlacklist {},
    FinalizeExecute {},
}

/// The mathematical value of an [`Event`].
pub enum EventView {
    UpdateConfig,
    ClaimAdmin { new_admin: Seq<char> },
    CreateRequest {
        id: u64,
        user: Seq<char>,
        target: Seq<char>,
        msg: Seq<u8>,
        asset: Option<AssetView>,
        is_recurring: bool,
        created_at: u64,
    },
    CancelRequest { id: u64 },
    ExecuteRequest { id: u64, executor: Seq<char> },
    DepositRecurringFee { recurring_count: u64, amount: nat },
    WithdrawRecurringFee { recurring_count: u64, amount: nat },
    Stake { user: Seq<char>, num_stakes: u64 },
    Unstake { user: Seq<char>, count: u64 },
    UpdateExecutor { epoch: u64, executor: Seq<char> },
    AddToBlacklist,
    RemoveFromBlacklist,
    FinalizeExecute,
}

impl View for Event {
    type V = EventView;

    open spec fn view(&self) -> EventView {
        match self {
            Event::UpdateConfig {  } => EventView::UpdateConfig,
            Event::ClaimAdmin { new_admin } => EventView::ClaimAdmin { new_admin: new_admin@ },
            Event::CreateRequest { id, user, target, msg, asset, is_recurring, created_at } => EventView::CreateRequest {
                id: *id,
                user: user@,
                target: target@,
                msg: msg@,
                asset: optional_asset_view(*asset),
                is_recurring: *is_recurring,
                created_at: *created_at,
            },
            Event::CancelRequest { id } => EventView::CancelRequest { id: *id },
            Event::ExecuteRequest { id, executor } => EventView::ExecuteRequest {
                id: *id,
                executor: executor@,
            },
            Event::DepositRecurringFee { recurring_count, amount } => EventView::DepositRecurringFee {
                recurring_count: *recurring_count,
                amount: *amount as nat,
            },
            Event::WithdrawRecurringFee { recurring_count, amount } => EventView::WithdrawRecurringFee {
                recurring_count: *recurring_count,
                amount: *amount as nat,
            },
            Event::Stake { user, num_stakes } => EventView::Stake { user: user@, num_stakes: *num_stakes },
            Event::Unstake { user, count } => EventView::Unstake { user: user@, count: *count },
            Event::UpdateExecutor { epoch, executor } => EventView::UpdateExecutor {
                epoch: *epoch,
                executor: executor@,
            },
            Event::AddToBlacklist {  } => EventView::AddToBlacklist,
            Event::RemoveFromBlacklist {  } => EventView::RemoveFromBlacklist,
            Event::FinalizeExecute {  } => EventView::FinalizeExecute,
        }
    }
}

impl Event {
    /// The name of the operation that the event records.
    pub fn action(&self) -> (name: &'static str)
        ensures
            name@ == action_name(self@),
    {
        match self {
            Event::UpdateConfig {  } => "update_config",
            Event::ClaimAdmin { .. } => "claim_admin",
            Event::CreateRequest { .. } => "create_request",
            Event::CancelRequest { .. } => "cancel_request",
            Event::ExecuteRequest { .. } => "execute_request",
            Event::DepositRecurringFee { .. } => "deposit_recurring_fee",
            Event::WithdrawRecurringFee { .. } => "withdraw_recurring_fee",
            Event::Stake { .. } => "stake",
            Event::Unstake { .. } => "unstake",
            Event::UpdateExecutor { .. } => "update_executor",
            Event::AddToBlacklist {  } => "add_to_blacklist",
            Event::RemoveFromBlacklist {  } => "remove_from_blacklist",
            Event::FinalizeExecute {  } => "finalize_execute",
        }
    }
}

/// The name of the operation that an event records.
pub open spec fn action_name(event: EventView) -> Seq<char> {
    match event {
        EventView::UpdateConfig => "update_config"@,
        EventView::ClaimAdmin { .. } => "claim_admin"@,
        EventView::CreateRequest { .. } => "create_request"@,
        EventView::CancelRequest { .. } => "cancel_request"@,
        EventView::ExecuteRequest { .. } => "execute_request"@,
        EventView::DepositRecurringFee { .. } => "deposit_recurring_fee"@,
        EventView::WithdrawRecurringFee { .. } => "withdraw_recurring_fee"@,
        EventView::Stake { .. } => "stake"@,
        EventView::Unstake { .. } => "unstake"@,
        EventView::UpdateExecutor { .. } => "update_executor"@,
        EventView::AddToBlacklist => "add_to_blacklist"@,
        EventView::RemoveFromBlacklist => "remove_from_blacklist"@,
        EventView::FinalizeExecute => "finalize_execute"@,
    }
}

/// What a successful operation hands back: the instructions for the host, in
/// the order in which it is to carry them out, and the event to record.
#[derive(Clone, Debug, PartialEq, Eq)]
pub struct Response {
    pub messages: Vec<SubMsg>,
    pub event: Event,
}

/// The mathematical value of a [`Response`].
pub struct ResponseView {
    pub messages: Seq<SubMsgView>,
    pub event: EventView,
}

/// The values of a list of instructions, in order.
pub open spec fn messages_view(messages: Seq<SubMsg>) -> Seq<SubMsgView> {
    messages.map_values(|m: SubMsg| m@)
}

impl View for Response {
    type V = ResponseView;

    open spec fn view(&self) -> ResponseView {
        ResponseView { messages: messages_view(self.messages@), event: self.event@ }
    }
}

/// The value of what an operation returned.
pub open spec fn outcome(result: Result<Response, ContractError>) -> Result<ResponseView, ContractErrorView> {
    match result {
        Ok(response) => Ok(response@),
        Err(e) => Err(e@),
    }
}

} // verus!
