use registry_stake::asset::{Asset, AssetInfo, Coin};
use registry_stake::contract::{execute, instantiate, reply};
use registry_stake::error::{CommonError, ContractError};
use registry_stake::msg::{
    AdminResponse, BlacklistResponse, CosmosMsg, CreateOrUpdateConfig, CreateRequestInfo, Cw20HookMsg,
    Cw20ReceiveMsg, Env, EpochInfoResponse, Event, ExecuteMsg, InstantiateMsg, MessageInfo, QueryMsg,
    RecurringFeeAmountResponse, Reply, ReplyOn, RequestInfoResponse, RequestsResponse,
    StakeAmountResponse, StakesResponse, StateResponse, SubMsg,
};
use registry_stake::query::{query, QueryResponse};
use registry_stake::registry::Registry;
use registry_stake::state::{Config, Request};
use registry_stake::msg::MigrateMsg;
use registry_stake::version::migrate;

const MOCK_CONTRACT_ADDR: &str = "cosmos2contract";

fn mock_env() -> Env {
    Env { height: 12_345, time: 1_571_797_419, contract_address: MOCK_CONTRACT_ADDR.to_string() }
}

fn mock_info(sender: &str, funds: &[Coin]) -> MessageInfo {
    MessageInfo { sender: sender.to_string(), funds: funds.to_vec() }
}

fn coin(amount: u128, denom: &str) -> Coin {
    Coin { denom: denom.to_string(), amount }
}

fn empty_json() -> Vec<u8> {
    b"\"\"".to_vec()
}

fn config_msg(auto: AssetInfo, blocks_in_epoch: u64) -> InstantiateMsg {
    InstantiateMsg {
        config: CreateOrUpdateConfig {
            admin: Some("admin".to_string()),
            fee_amount: Some(10000u128),
            fee_denom: Some("utest".to_string()),
            auto: Some(auto),
            stake_amount: Some(1000u128),
            blocks_in_epoch: Some(blocks_in_epoch),
        },
    }
}

fn token_auto() -> AssetInfo {
    AssetInfo::Token { contract_addr: "auto".to_string() }
}

fn native_auto() -> AssetInfo {
    AssetInfo::NativeToken { denom: "uauto".to_string() }
}

fn new_registry(auto: AssetInfo, blocks_in_epoch: u64) -> Registry {
    instantiate(&mock_env(), &mock_info("addr0000", &[]), config_msg(auto, blocks_in_epoch)).unwrap()
}

fn query_state(registry: &Registry) -> StateResponse {
    match query(registry, &mock_env(), QueryMsg::State {}) {
        QueryResponse::State(state) => state,
        other => panic!("unexpected answer {:?}", other),
    }
}

fn query_admin(registry: &Registry) -> AdminResponse {
    match query(registry, &mock_env(), QueryMsg::Admin {}) {
        QueryResponse::Admin(admin) => admin,
        other => panic!("unexpected answer {:?}", other),
    }
}

fn query_pending_admin(registry: &Registry) -> AdminResponse {
    match query(registry, &mock_env(), QueryMsg::PendingAdmin {}) {
        QueryResponse::PendingAdmin(admin) => admin,
        other => panic!("unexpected answer {:?}", other),
    }
}

fn query_config(registry: &Registry) -> Config {
    match query(registry, &mock_env(), QueryMsg::Config {}) {
        QueryResponse::Config(config) => config,
        other => panic!("unexpected answer {:?}", other),
    }
}

fn query_request_info(registry: &Registry, id: u64) -> RequestInfoResponse {
    match query(registry, &mock_env(), QueryMsg::RequestInfo { id }) {
        QueryResponse::RequestInfo(info) => info,
        other => panic!("unexpected answer {:?}", other),
    }
}

fn query_requests(registry: &Registry, start_after: Option<u64>) -> RequestsResponse {
    match query(registry, &mock_env(), QueryMsg::Requests { start_after, limit: None, order_by: None }) {
        QueryResponse::Requests(requests) => requests,
        other => panic!("unexpected answer {:?}", other),
    }
}

fn query_stake_amount(registry: &Registry, user: &str) -> StakeAmountResponse {
    match query(registry, &mock_env(), QueryMsg::StakeAmount { user: user.to_string() }) {
        QueryResponse::StakeAmount(amount) => amount,
        other => panic!("unexpected answer {:?}", other),
    }
}

fn query_recurring_fees(registry: &Registry, user: &str) -> RecurringFeeAmountResponse {
    match query(registry, &mock_env(), QueryMsg::RecurringFees { user: user.to_string() }) {
        QueryResponse::RecurringFees(amount) => amount,
        other => panic!("unexpected answer {:?}", other),
    }
}

fn query_stakes(registry: &Registry, start: u64, limit: u64) -> StakesResponse {
    match query(registry, &mock_env(), QueryMsg::Stakes { start, limit }) {
        QueryResponse::Stakes(stakes) => stakes,
        other => panic!("unexpected answer {:?}", other),
    }
}

fn query_blacklist(registry: &Registry) -> BlacklistResponse {
    match query(registry, &mock_env(), QueryMsg::Blacklist {}) {
        QueryResponse::Blacklist(blacklist) => blacklist,
        other => panic!("unexpected answer {:?}", other),
    }
}

fn query_epoch_info(registry: &Registry, env: &Env) -> EpochInfoResponse {
    match query(registry, env, QueryMsg::EpochInfo {}) {
        QueryResponse::EpochInfo(info) => info,
        other => panic!("unexpected answer {:?}", other),
    }
}

fn unauthorized() -> ContractError {
    ContractError::Common(CommonError::Unauthorized {})
}

#[test]
fn proper_initialization_migrate() {
    let admin = "admin".to_string();

    let mut config = CreateOrUpdateConfig {
        admin: None,
        fee_amount: Some(10000u128),
        fee_denom: Some("utest".to_string()),
        auto: Some(token_auto()),
        stake_amount: Some(1000u128),
        blocks_in_epoch: Some(1),
    };
    assert_eq!(
        instantiate(&mock_env(), &mock_info("addr0000", &[]), InstantiateMsg { config: config.clone() })
            .err(),
        Some(ContractError::Common(CommonError::InstantiateParamsUnavailable {}))
    );

    config.admin = Some(admin.clone());
    let registry =
        instantiate(&mock_env(), &mock_info("addr0000", &[]), InstantiateMsg { config: config.clone() })
            .unwrap();

    assert_eq!(query_admin(&registry), AdminResponse { admin: Some(admin) });

    assert_eq!(
        query_config(&registry),
        Config {
            fee_amount: config.fee_amount.unwrap(),
            fee_denom: config.fee_denom.unwrap(),
            auto: config.auto.unwrap(),
            stake_amount: config.stake_amount.unwrap(),
            blocks_in_epoch: config.blocks_in_epoch.unwrap()
        }
    );

    assert_eq!(
        query_state(&registry),
        StateResponse {
            curr_executing_request_id: u64::MAX,
            total_requests: 0,
            total_recurring_fee: 0,
            next_request_id: 0,
            total_stake_amount: 0,
            stakes_len: 0
        }
    );

    // migrate
    let version = "0.1.0".to_string();
    let res = migrate(&version, &version, MigrateMsg {}).unwrap();
    assert_eq!(res, false);
}

#[test]
fn test_claim_admin() {
    let mut registry = new_registry(token_auto(), 1);

    // Update admin
    let new_admin = "new_admin".to_string();
    let msg = ExecuteMsg::UpdateConfig {
        config: CreateOrUpdateConfig {
            admin: Some(new_admin.clone()),
            fee_amount: None,
            fee_denom: None,
            auto: None,
            stake_amount: None,
            blocks_in_epoch: None,
        },
    };
    let info = mock_info("admin", &[]);
    let res = execute(&mut registry, &mock_env(), &info, msg).unwrap();
    assert_eq!(res.event, Event::UpdateConfig {});
    assert_eq!(res.event.action(), "update_config");
    assert_eq!(query_pending_admin(&registry), AdminResponse { admin: Some(new_admin.clone()) });

    // Claim admin error
    let res = execute(&mut registry, &mock_env(), &mock_info("addr0000", &[]), ExecuteMsg::ClaimAdmin {});
    assert_eq!(res.err(), Some(unauthorized()));

    // Claim admin
    let res =
        execute(&mut registry, &mock_env(), &mock_info(&new_admin, &[]), ExecuteMsg::ClaimAdmin {})
            .unwrap();
    assert_eq!(query_admin(&registry), AdminResponse { admin: Some(new_admin.clone()) });
    assert_eq!(query_pending_admin(&registry), AdminResponse { admin: None });
    assert_eq!(res.event, Event::ClaimAdmin { new_admin: new_admin.clone() });
    assert_eq!(res.event.action(), "claim_admin");
}

#[test]
fn test_update_config() {
    let mut registry = new_registry(token_auto(), 1);
    let info = mock_info("addr0000", &[]);

    // Update config
    let new_admin = "new_admin".to_string();
    let msg = ExecuteMsg::UpdateConfig {
        config: CreateOrUpdateConfig {
            admin: Some(new_admin.clone()),
            fee_amount: None,
            fee_denom: None,
            auto: None,
            stake_amount: Some(2000u128),
            blocks_in_epoch: None,
        },
    };
    // With wrong admin
    let err = execute(&mut registry, &mock_env(), &info, msg.clone()).err();
    assert_eq!(err, Some(unauthorized()));

    // With right admin but wrong config
    let info = mock_info("admin", &[]);
    let err = execute(&mut registry, &mock_env(), &info, msg).err();
    assert_eq!(err, Some(ContractError::UpdateConfigError {}));

    // Update with right admin
    let new_config = CreateOrUpdateConfig {
        admin: Some(new_admin),
        fee_amount: Some(100200u128),
        fee_denom: Some("utestt".to_string()),
        auto: None,
        stake_amount: None,
        blocks_in_epoch: Some(12),
    };
    let msg = ExecuteMsg::UpdateConfig { config: new_config.clone() };
    let info = mock_info("admin", &[]);
    let res = execute(&mut registry, &mock_env(), &info, msg).unwrap();
    assert_eq!(res.event, Event::UpdateConfig {});
    assert_eq!(res.event.action(), "update_config");
    let config = query_config(&registry);
    assert_eq!(
        config,
        Config {
            fee_amount: new_config.fee_amount.unwrap(),
            fee_denom: new_config.fee_denom.unwrap(),
            auto: token_auto(),
            stake_amount: 1000u128,
            blocks_in_epoch: new_config.blocks_in_epoch.unwrap()
        }
    );
}

#[test]
fn test_blacklist() {
    let mut registry = new_registry(token_auto(), 1);
    let info = mock_info("addr0000", &[]);

    let msg = ExecuteMsg::AddToBlacklist {
        addrs: vec!["contract000".to_string(), "contract001".to_string()],
    };
    // With wrong admin
    let err = execute(&mut registry, &mock_env(), &info, msg.clone()).err();
    assert_eq!(err, Some(unauthorized()));

    // With right admin
    let info = mock_info("admin", &[]);
    let res = execute(&mut registry, &mock_env(), &info, msg).unwrap();
    assert_eq!(res.event, Event::AddToBlacklist {});
    assert_eq!(res.event.action(), "add_to_blacklist");

    // Check blacklist
    let blacklist = query_blacklist(&registry);
    assert_eq!(blacklist.blacklist, vec!["contract000".to_string(), "contract001".to_string()]);

    // Create request fails
    let request_info = CreateRequestInfo {
        target: "contract001".to_string(),
        msg: empty_json(),
        input_asset: None,
        is_recurring: true,
    };
    let info = mock_info("addr0000", &[]);
    let err = execute(&mut registry, &mock_env(), &info, ExecuteMsg::CreateRequest { request_info }).err();
    assert_eq!(err, Some(ContractError::TargetBlacklisted {}));

    // Remove from blacklist
    let info = mock_info("addr0000", &[]);
    let msg = ExecuteMsg::RemoveFromBlacklist { addrs: vec!["contract000".to_string()] };
    // With wrong admin
    let err = execute(&mut registry, &mock_env(), &info, msg.clone()).err();
    assert_eq!(err, Some(unauthorized()));

    // With right admin
    let info = mock_info("admin", &[]);
    let res = execute(&mut registry, &mock_env(), &info, msg).unwrap();
    assert_eq!(res.event, Event::RemoveFromBlacklist {});
    assert_eq!(res.event.action(), "remove_from_blacklist");

    // Check blacklist
    let blacklist = query_blacklist(&registry);
    assert_eq!(blacklist.blacklist, vec!["contract001".to_string()]);
}

#[test]
fn test_create_request() {
    let mut registry = new_registry(token_auto(), 1);

    // NoInputAssetForRecurring
    let input_asset =
        Asset { info: AssetInfo::NativeToken { denom: "uosmo".to_string() }, amount: 10u128 };
    let request_info = CreateRequestInfo {
        target: "contract0000".to_string(),
        msg: empty_json(),
        input_asset: Some(input_asset.clone()),
        is_recurring: true,
    };
    let msg = ExecuteMsg::CreateRequest { request_info };

    let info = mock_info("addr0000", &[coin(10000u128, "utest"), coin(10u128, "uosmo")]);
    let err = execute(&mut registry, &mock_env(), &info, msg).err();
    assert_eq!(err, Some(ContractError::NoInputAssetForRecurring {}));

    // Insufficient Fee
    let request_info = CreateRequestInfo {
        target: "contract0000".to_string(),
        msg: empty_json(),
        input_asset: Some(input_asset),
        is_recurring: false,
    };
    let msg = ExecuteMsg::CreateRequest { request_info: request_info.clone() };

    let info = mock_info("addr0000", &[coin(9999u128, "utest"), coin(10u128, "uosmo")]);
    let err = execute(&mut registry, &mock_env(), &info, msg.clone()).err();
    assert_eq!(err, Some(ContractError::InsufficientFee {}));

    // NoFeePaid
    let info = mock_info("addr0000", &[]);
    let err = execute(&mut registry, &mock_env(), &info, msg.clone()).err();
    assert_eq!(err, Some(ContractError::NoFeePaid {}));

    // InvalidInputAssets
    let info = mock_info("addr0000", &[coin(10000u128, "utest"), coin(9u128, "uosmo")]);
    let err = execute(&mut registry, &mock_env(), &info, msg.clone()).err();
    assert_eq!(err, Some(ContractError::InvalidInputAssets {}));

    let info = mock_info("addr0000", &[coin(10000u128, "utest")]);
    let err = execute(&mut registry, &mock_env(), &info, msg.clone()).err();
    assert_eq!(err, Some(ContractError::InvalidInputAssets {}));

    // Successful creation
    let info = mock_info("addr0000", &[coin(10000u128, "utest"), coin(10u128, "uosmo")]);
    let mut env = mock_env();
    env.time = 1000;
    let _res = execute(&mut registry, &env, &info, msg).unwrap();
    assert_eq!(
        query_state(&registry),
        StateResponse {
            curr_executing_request_id: u64::MAX,
            total_requests: 1,
            total_recurring_fee: 0,
            next_request_id: 1,
            total_stake_amount: 0,
            stakes_len: 0
        }
    );
    assert_eq!(
        query_request_info(&registry, 0),
        RequestInfoResponse {
            id: 0,
            request: Request {
                user: "addr0000".to_string(),
                target: request_info.target,
                msg: request_info.msg,
                input_asset: request_info.input_asset,
                is_recurring: request_info.is_recurring,
                created_at: env.time
            }
        }
    );

    // Create with token, non-native
    let input_asset =
        Asset { info: AssetInfo::Token { contract_addr: "contract000".to_string() }, amount: 10u128 };
    let request_info = CreateRequestInfo {
        target: "contract0000".to_string(),
        msg: empty_json(),
        input_asset: Some(input_asset.clone()),
        is_recurring: false,
    };
    let msg = ExecuteMsg::CreateRequest { request_info };

    let info = mock_info("addr0000", &[coin(10000u128, "utest")]);
    let res = execute(&mut registry, &mock_env(), &info, msg).unwrap();
    assert_eq!(
        res.messages,
        vec![SubMsg::new(CosmosMsg::TransferFrom {
            contract_addr: "contract000".to_string(),
            owner: "addr0000".to_string(),
            recipient: MOCK_CONTRACT_ADDR.to_string(),
            amount: input_asset.amount,
        })],
    );

    // no input asset, recurring
    let request_info = CreateRequestInfo {
        target: "contract0000".to_string(),
        msg: empty_json(),
        input_asset: None,
        is_recurring: true,
    };
    let msg = ExecuteMsg::CreateRequest { request_info: request_info.clone() };

    let info = mock_info("addr0000", &[coin(10000u128, "utest")]);
    let mut env = mock_env();
    env.time = 1000;
    let res = execute(&mut registry, &env, &info, msg).unwrap();
    assert_eq!(res.event.action(), "create_request");
    assert_eq!(
        res.event,
        Event::CreateRequest {
            id: 2,
            user: "addr0000".to_string(),
            target: request_info.target.clone(),
            msg: request_info.msg.clone(),
            asset: None,
            is_recurring: true,
            created_at: 1000,
        },
    );

    // Ensure state
    assert_eq!(
        query_state(&registry),
        StateResponse {
            curr_executing_request_id: u64::MAX,
            total_requests: 3,
            total_recurring_fee: 0,
            next_request_id: 3,
            total_stake_amount: 0,
            stakes_len: 0
        }
    );

    let requests = query_requests(&registry, None);
    assert_eq!(
        requests.requests[2],
        RequestInfoResponse {
            id: 2,
            request: Request {
                user: "addr0000".to_string(),
                target: request_info.target,
                msg: request_info.msg,
                input_asset: request_info.input_asset,
                is_recurring: request_info.is_recurring,
                created_at: env.time
            }
        }
    );

    let requests = query_requests(&registry, Some(0));
    assert_eq!(requests.requests.len(), 2);
}

fn create_three_requests(registry: &mut Registry) {
    // Request 0
    let input_asset0 =
        Asset { info: AssetInfo::NativeToken { denom: "uosmo".to_string() }, amount: 10u128 };
    let request_info = CreateRequestInfo {
        target: "contract0000".to_string(),
        msg: empty_json(),
        input_asset: Some(input_asset0),
        is_recurring: false,
    };
    let msg = ExecuteMsg::CreateRequest { request_info };
    let info = mock_info("addr0000", &[coin(10000u128, "utest"), coin(10u128, "uosmo")]);
    let _res = execute(registry, &mock_env(), &info, msg).unwrap();

    // Request 1, Create with token, non-native
    let input_asset =
        Asset { info: AssetInfo::Token { contract_addr: "contract000".to_string() }, amount: 10u128 };
    let request_info = CreateRequestInfo {
        target: "contract0000".to_string(),
        msg: empty_json(),
        input_asset: Some(input_asset),
        is_recurring: false,
    };
    let msg = ExecuteMsg::CreateRequest { request_info };
    let info = mock_info("addr0000", &[coin(10000u128, "utest")]);
    let _res = execute(registry, &mock_env(), &info, msg).unwrap();

    // Request 2, no input asset, recurring
    let request_info = CreateRequestInfo {
        target: "contract0000".to_string(),
        msg: empty_json(),
        input_asset: None,
        is_recurring: true,
    };
    let msg = ExecuteMsg::CreateRequest { request_info };
    let info = mock_info("addr0000", &[coin(10000u128, "utest")]);
    let _res = execute(registry, &mock_env(), &info, msg).unwrap();
}

#[test]
fn test_cancel_request() {
    let mut registry = new_registry(token_auto(), 1);
    create_three_requests(&mut registry);

    // Unauthorized
    let info = mock_info("another_user", &[]);
    let msg = ExecuteMsg::CancelRequest { id: 0 };
    let err = execute(&mut registry, &mock_env(), &info, msg).err();
    assert_eq!(err, Some(unauthorized()));

    // Successful cancel
    let info = mock_info("addr0000", &[]);
    let msg = ExecuteMsg::CancelRequest { id: 0 };
    let res = execute(&mut registry, &mock_env(), &info, msg).unwrap();
    assert_eq!(res.event.action(), "cancel_request");
    assert_eq!(res.event, Event::CancelRequest { id: 0 });
    // The escrow of 10 uosmo and the fee of 10000 utest go back to the owner.
    assert_eq!(
        res.messages,
        vec![
            SubMsg::new(CosmosMsg::Send {
                to_address: "addr0000".to_string(),
                denom: "uosmo".to_string(),
                amount: 10u128,
            }),
            SubMsg::new(CosmosMsg::Send {
                to_address: "addr0000".to_string(),
                denom: "utest".to_string(),
                amount: 10000u128,
            }),
        ]
    );

    // Ensure state
    assert_eq!(
        query_request_info(&registry, 0),
        RequestInfoResponse {
            id: 0,
            request: Request {
                user: "".to_string(),
                target: "".to_string(),
                msg: empty_json(),
                input_asset: None,
                is_recurring: false,
                created_at: 0
            }
        }
    );

    assert_eq!(
        query_state(&registry),
        StateResponse {
            curr_executing_request_id: u64::MAX,
            total_requests: 2,
            total_recurring_fee: 0,
            next_request_id: 3,
            total_stake_amount: 0,
            stakes_len: 0
        }
    );

    let requests = query_requests(&registry, None);
    assert_eq!(requests.requests.len(), 2);
}

#[test]
fn test_stake_denom() {
    let mut registry = new_registry(native_auto(), 1);

    // InvalidStakeInfo
    let info = mock_info("addr0000", &[coin(2000u128, "uauto")]);
    let err = execute(&mut registry, &mock_env(), &info, ExecuteMsg::StakeDenom { num_stakes: 1 }).err();
    assert_eq!(err, Some(ContractError::InvalidStakeInfo {}));

    let res = execute(&mut registry, &mock_env(), &info, ExecuteMsg::StakeDenom { num_stakes: 2 }).unwrap();
    assert_eq!(res.event.action(), "stake");
    assert_eq!(res.event, Event::Stake { user: "addr0000".to_string(), num_stakes: 2 });

    let _res =
        execute(&mut registry, &mock_env(), &info, ExecuteMsg::StakeDenom { num_stakes: 2 }).unwrap();
    assert_eq!(
        query_state(&registry),
        StateResponse {
            curr_executing_request_id: u64::MAX,
            total_requests: 0,
            total_recurring_fee: 0,
            next_request_id: 0,
            total_stake_amount: 4000u128,
            stakes_len: 4
        }
    );
    assert_eq!(query_stake_amount(&registry, "addr0000"), StakeAmountResponse { amount: 4000u128 });
    let stakes = query_stakes(&registry, 0, 6);
    assert_eq!(
        stakes.stakes,
        vec![
            "addr0000".to_string(),
            "addr0000".to_string(),
            "addr0000".to_string(),
            "addr0000".to_string(),
        ]
    );

    // error when stake cw20 called
    let info = mock_info("auto", &[]);
    let err = execute(
        &mut registry,
        &mock_env(),
        &info,
        ExecuteMsg::Receive(Cw20ReceiveMsg {
            sender: "addr0000".to_string(),
            amount: 2000u128,
            msg: Some(Cw20HookMsg::Stake { num_stakes: 2 }),
        }),
    )
    .err();
    assert_eq!(err, Some(ContractError::InvalidAutoToken {}));
}

#[test]
fn test_stake_cw20() {
    let mut registry = new_registry(token_auto(), 1);

    // InvalidStakeInfo
    let info = mock_info("contract0000", &[]);
    let err = execute(
        &mut registry,
        &mock_env(),
        &info,
        ExecuteMsg::Receive(Cw20ReceiveMsg { sender: "addr0000".to_string(), amount: 2000u128, msg: None }),
    )
    .err();
    assert_eq!(err, Some(ContractError::DataShouldBeGiven {}));

    let err = execute(
        &mut registry,
        &mock_env(),
        &info,
        ExecuteMsg::Receive(Cw20ReceiveMsg {
            sender: "addr0000".to_string(),
            amount: 2000u128,
            msg: Some(Cw20HookMsg::Stake { num_stakes: 2 }),
        }),
    )
    .err();
    assert_eq!(err, Some(unauthorized()));

    let info = mock_info("auto", &[]);
    let res = execute(
        &mut registry,
        &mock_env(),
        &info,
        ExecuteMsg::Receive(Cw20ReceiveMsg {
            sender: "addr0000".to_string(),
            amount: 2000u128,
            msg: Some(Cw20HookMsg::Stake { num_stakes: 2 }),
        }),
    )
    .unwrap();
    assert_eq!(res.event.action(), "stake");
    assert_eq!(res.event, Event::Stake { user: "addr0000".to_string(), num_stakes: 2 });

    assert_eq!(
        query_state(&registry),
        StateResponse {
            curr_executing_request_id: u64::MAX,
            total_requests: 0,
            total_recurring_fee: 0,
            next_request_id: 0,
            total_stake_amount: 2000u128,
            stakes_len: 2
        }
    );
    assert_eq!(query_stake_amount(&registry, "addr0000"), StakeAmountResponse { amount: 2000u128 });
    let stakes = query_stakes(&registry, 0, 2);
    assert_eq!(stakes.stakes, vec!["addr0000".to_string(), "addr0000".to_string(),]);

    // error when stake denom
    let info = mock_info("addr0000", &[coin(2000u128, "uauto")]);
    let err = execute(&mut registry, &mock_env(), &info, ExecuteMsg::StakeDenom { num_stakes: 1 }).err();
    assert_eq!(err, Some(unauthorized()));
}

fn stake_denom(registry: &mut Registry, who: &str, num_stakes: u64) {
    let info = mock_info(who, &[coin(1000u128 * num_stakes as u128, "uauto")]);
    let _res = execute(registry, &mock_env(), &info, ExecuteMsg::StakeDenom { num_stakes }).unwrap();
}

#[test]
fn test_unstake() {
    let mut registry = new_registry(native_auto(), 1);

    // Stake `addr0` 2 times
    stake_denom(&mut registry, "addr0", 2);
    // Stake `addr1` once
    stake_denom(&mut registry, "addr1", 1);
    // Stake `addr0` once
    stake_denom(&mut registry, "addr0", 1);
    // Stake `addr1` twice
    stake_denom(&mut registry, "addr1", 2);

    assert_eq!(
        query_state(&registry),
        StateResponse {
            curr_executing_request_id: u64::MAX,
            total_requests: 0,
            total_recurring_fee: 0,
            next_request_id: 0,
            total_stake_amount: 6000u128,
            stakes_len: 6
        }
    );
    assert_eq!(query_stake_amount(&registry, "addr0"), StakeAmountResponse { amount: 3000u128 });
    let stakes = query_stakes(&registry, 0, 6);
    assert_eq!(
        stakes.stakes,
        vec![
            "addr0".to_string(),
            "addr0".to_string(),
            "addr1".to_string(),
            "addr0".to_string(),
            "addr1".to_string(),
            "addr1".to_string(),
        ]
    );

    // IdxOutOfBound
    let info = mock_info("addr0", &[]);
    let err = execute(&mut registry, &mock_env(), &info, ExecuteMsg::Unstake { idxs: vec![7] }).err();
    assert_eq!(err, Some(ContractError::IdxOutOfBound {}));

    let err = execute(&mut registry, &mock_env(), &info, ExecuteMsg::Unstake { idxs: vec![2] }).err();
    assert_eq!(err, Some(ContractError::IdxNotYou {}));

    let res =
        execute(&mut registry, &mock_env(), &info, ExecuteMsg::Unstake { idxs: vec![0, 1, 3] }).unwrap();
    assert_eq!(res.event.action(), "unstake");
    assert_eq!(res.event, Event::Unstake { user: "addr0".to_string(), count: 3 });
    assert_eq!(
        res.messages,
        vec![SubMsg::new(CosmosMsg::Send {
            to_address: "addr0".to_string(),
            denom: "uauto".to_string(),
            amount: 3000u128,
        })]
    );

    assert_eq!(
        query_state(&registry),
        StateResponse {
            curr_executing_request_id: u64::MAX,
            total_requests: 0,
            total_recurring_fee: 0,
            next_request_id: 0,
            total_stake_amount: 3000u128,
            stakes_len: 3
        }
    );
    assert_eq!(query_stake_amount(&registry, "addr0"), StakeAmountResponse { amount: 0 });
    let stakes = query_stakes(&registry, 0, 3);
    assert_eq!(
        stakes.stakes,
        vec!["addr1".to_string(), "addr1".to_string(), "addr1".to_string(),]
    );
}

#[test]
fn test_update_executor() {
    let mut registry = new_registry(native_auto(), 100);

    // Stake `addr0` 2 times
    stake_denom(&mut registry, "addr0", 2);

    // Update executor
    let mut env = mock_env();
    env.height = 100001;
    let last_epoch = env.height / 100 * 100;
    let info = mock_info("addr0", &[]);
    let res = execute(&mut registry, &env, &info, ExecuteMsg::UpdateExecutor {}).unwrap();
    assert_eq!(res.event.action(), "update_executor");
    assert_eq!(
        res.event,
        Event::UpdateExecutor { epoch: last_epoch, executor: "addr0".to_string() }
    );

    env.height = 1002201;
    let cur_epoch = env.height / 100 * 100;
    assert_eq!(
        query_epoch_info(&registry, &env),
        EpochInfoResponse { cur_epoch, last_epoch, executor: "addr0".to_string() }
    );
}

#[test]
fn test_recurring_fee() {
    let mut registry = new_registry(native_auto(), 1);

    // InvalidRecurringCount
    let info = mock_info("addr0000", &[coin(20000u128, "utest")]);
    let err = execute(
        &mut registry,
        &mock_env(),
        &info,
        ExecuteMsg::DepositRecurringFee { recurring_count: 1 },
    )
    .err();
    assert_eq!(err, Some(ContractError::InvalidRecurringCount {}));

    let res = execute(
        &mut registry,
        &mock_env(),
        &info,
        ExecuteMsg::DepositRecurringFee { recurring_count: 2 },
    )
    .unwrap();
    assert_eq!(res.event.action(), "deposit_recurring_fee");
    assert_eq!(res.event, Event::DepositRecurringFee { recurring_count: 2, amount: 20000u128 });

    let _res = execute(
        &mut registry,
        &mock_env(),
        &info,
        ExecuteMsg::DepositRecurringFee { recurring_count: 2 },
    )
    .unwrap();
    assert_eq!(
        query_state(&registry),
        StateResponse {
            curr_executing_request_id: u64::MAX,
            total_requests: 0,
            total_recurring_fee: 40000u128,
            next_request_id: 0,
            total_stake_amount: 0,
            stakes_len: 0
        }
    );
    assert_eq!(
        query_recurring_fees(&registry, "addr0000"),
        RecurringFeeAmountResponse { amount: 40000u128 }
    );

    // withdraw
    let info = mock_info("addr0000", &[]);
    let err = execute(
        &mut registry,
        &mock_env(),
        &info,
        ExecuteMsg::WithdrawRecurringFee { recurring_count: 8 },
    )
    .err();
    assert_eq!(err, Some(ContractError::InvalidRecurringCount {}));

    let res = execute(
        &mut registry,
        &mock_env(),
        &info,
        ExecuteMsg::WithdrawRecurringFee { recurring_count: 3 },
    )
    .unwrap();
    assert_eq!(res.event.action(), "withdraw_recurring_fee");
    assert_eq!(res.event, Event::WithdrawRecurringFee { recurring_count: 3, amount: 30000u128 });
    assert_eq!(
        query_state(&registry),
        StateResponse {
            curr_executing_request_id: u64::MAX,
            total_requests: 0,
            total_recurring_fee: 10000u128,
            next_request_id: 0,
            total_stake_amount: 0,
            stakes_len: 0
        }
    );
    assert_eq!(
        query_recurring_fees(&registry, "addr0000"),
        RecurringFeeAmountResponse { amount: 10000u128 }
    );
}

#[test]
fn test_execute_request() {
    let mut registry = new_registry(native_auto(), 100);
    create_three_requests(&mut registry);

    // Executors need to stake
    stake_denom(&mut registry, "executor", 2);

    // Without executor updated: the executor of the epoch has to be drawn first
    let info = mock_info("executor", &[]);
    let mut env = mock_env();
    env.height = 100001;
    let epoch = env.height / 100 * 100;
    let err = execute(&mut registry, &env, &info, ExecuteMsg::ExecuteRequest { id: 1 }).err();
    assert_eq!(err, Some(ContractError::ExecutorNotUpdated {}));
    let _res = execute(&mut registry, &env, &info, ExecuteMsg::UpdateExecutor {}).unwrap();
    let _res = execute(&mut registry, &env, &info, ExecuteMsg::ExecuteRequest { id: 1 }).unwrap();
    assert_eq!(
        query_epoch_info(&registry, &env),
        EpochInfoResponse { cur_epoch: epoch, last_epoch: epoch, executor: "executor".to_string() }
    );

    // Update Executor
    env.height = 100002;
    let info = mock_info("addr0", &[]);
    let _res = execute(&mut registry, &env, &info, ExecuteMsg::UpdateExecutor {}).unwrap();

    // InvalidExecutor
    let info = mock_info("not_executor", &[]);
    let mut env = mock_env();
    env.height = 100003;
    let err = execute(&mut registry, &env, &info, ExecuteMsg::ExecuteRequest { id: 0 }).err();
    assert_eq!(err, Some(ContractError::InvalidExecutor {}));

    // Execution success
    let info = mock_info("executor", &[]);
    let mut env = mock_env();
    env.height = 100003;
    let res = execute(&mut registry, &env, &info, ExecuteMsg::ExecuteRequest { id: 0 }).unwrap();

    assert_eq!(
        res.messages,
        vec![
            SubMsg {
                id: 0,
                msg: CosmosMsg::Send {
                    to_address: "contract0000".to_string(),
                    denom: "uosmo".to_string(),
                    amount: 10u128,
                },
                reply_on: ReplyOn::Never,
            },
            SubMsg {
                id: 1,
                msg: CosmosMsg::Execute { contract_addr: "contract0000".to_string(), msg: empty_json() },
                reply_on: ReplyOn::Success,
            },
            SubMsg::new(CosmosMsg::Send {
                to_address: "executor".to_string(),
                denom: "utest".to_string(),
                amount: 10000u128,
            })
        ],
    );
    assert_eq!(
        query_state(&registry),
        StateResponse {
            curr_executing_request_id: 0,
            total_requests: 1,
            total_recurring_fee: 0,
            next_request_id: 3,
            total_stake_amount: 2000u128,
            stakes_len: 2
        }
    );

    // Insufficient Recurring Fee
    let info = mock_info("executor", &[]);
    let mut env = mock_env();
    env.height = 100003;
    let err = execute(&mut registry, &env, &info, ExecuteMsg::ExecuteRequest { id: 2 }).err();
    assert_eq!(err, Some(ContractError::InsufficientRecurringFee {}));

    // Deposit recurring fee
    let info = mock_info("addr0000", &[coin(20000u128, "utest")]);
    let _res = execute(
        &mut registry,
        &mock_env(),
        &info,
        ExecuteMsg::DepositRecurringFee { recurring_count: 2 },
    )
    .unwrap();

    // Execution success
    let info = mock_info("executor", &[]);
    let mut env = mock_env();
    env.height = 100003;
    let res = execute(&mut registry, &env, &info, ExecuteMsg::ExecuteRequest { id: 2 }).unwrap();
    assert_eq!(res.event.action(), "execute_request");
    assert_eq!(res.event, Event::ExecuteRequest { id: 2, executor: "executor".to_string() });

    // Check results
    assert_eq!(
        query_state(&registry),
        StateResponse {
            curr_executing_request_id: 2,
            total_requests: 1,
            total_recurring_fee: 10000u128,
            next_request_id: 3,
            total_stake_amount: 2000u128,
            stakes_len: 2
        }
    );
    assert_eq!(
        query_request_info(&registry, 0),
        RequestInfoResponse {
            id: 0,
            request: Request {
                user: "".to_string(),
                target: "".to_string(),
                msg: empty_json(),
                input_asset: None,
                is_recurring: false,
                created_at: 0
            }
        }
    );
    // recurring request still exists
    assert_eq!(query_request_info(&registry, 2).id, 2);
    assert_eq!(query_request_info(&registry, 2).request.user, "addr0000".to_string());
    assert_eq!(
        query_recurring_fees(&registry, "addr0000"),
        RecurringFeeAmountResponse { amount: 10000u128 }
    );

    // Reply
    let err = reply(&mut registry, &mock_env(), Reply { id: 0, ok: true }).err();
    assert_eq!(err, Some(unauthorized()));
    let res = reply(&mut registry, &mock_env(), Reply { id: 1, ok: true }).unwrap();
    assert_eq!(res.event.action(), "finalize_execute");
    assert_eq!(res.event, Event::FinalizeExecute {});
    assert_eq!(
        query_state(&registry),
        StateResponse {
            curr_executing_request_id: u64::MAX,
            total_requests: 1,
            total_recurring_fee: 10000u128,
            next_request_id: 3,
            total_stake_amount: 2000u128,
            stakes_len: 2
        }
    );
}
