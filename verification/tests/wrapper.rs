use registry_stake::msg::{Env, MessageInfo};
use registry_stake::wrapper::{
    execute, migrate, ExecuteMsg, MigrateMsg, SwapAmountInRoute, WrapperError, WrapperEvent, WrapperMsg,
};

const MOCK_CONTRACT_ADDR: &str = "cosmos2contract";

fn mock_env() -> Env {
    Env { height: 12_345, time: 1_571_797_419, contract_address: MOCK_CONTRACT_ADDR.to_string() }
}

fn mock_info(sender: &str) -> MessageInfo {
    MessageInfo { sender: sender.to_string(), funds: vec![] }
}

#[test]
fn proper_instantialization() {
    // migrate
    let version = "0.1.0".to_string();
    let res = migrate(&version, &version, MigrateMsg {}).unwrap();
    assert_eq!(res, false);
}

#[test]
fn test_execute_swap() {
    let info = mock_info("creator");
    let msg = ExecuteMsg::Swap {
        sender: "addr0".to_string(),
        route: vec![],
        denom_in: "earth".to_owned(),
        amount_in: 10u128,
        min_output: 10u128,
        max_output: 10u128,
        denom_out: "out".to_owned(),
    };
    // the wrapper holds nothing of `out` before the swap
    let res = execute(&mock_env(), &info, msg, 0).unwrap();
    assert_eq!(
        res.messages,
        vec![
            WrapperMsg::SwapExactAmountIn {
                sender: "addr0".to_string(),
                routes: vec![],
                token_in_denom: "earth".to_owned(),
                token_in_amount: 10u128.to_string(),
                token_out_min_amount: 10u128.to_string()
            },
            WrapperMsg::CheckRange {
                contract_addr: MOCK_CONTRACT_ADDR.to_string(),
                user: "addr0".to_string(),
                denom: "out".to_string(),
                balance_before: 0,
                min_output: 10u128,
                max_output: 10u128,
            }
        ]
    );
    assert_eq!(res.event, WrapperEvent::Swap);
    assert_eq!(res.event.action(), "swap");
}

#[test]
fn test_check_range() {
    // the wrapper holds 100 earth
    let balance = 100u128;

    let info = mock_info("creator");
    let msg = ExecuteMsg::CheckRange {
        user: "addr0".to_string(),
        denom: "earth".to_string(),
        balance_before: 0,
        min_output: 10u128,
        max_output: 10u128,
    };

    // NotWrapperContract
    let err = execute(&mock_env(), &info, msg.clone(), balance).err();
    assert_eq!(
        err,
        Some(WrapperError::NotWrapperContract {
            expected: MOCK_CONTRACT_ADDR.to_string(),
            actual: "creator".to_string()
        })
    );

    // InvalidOutput
    let info = mock_info(MOCK_CONTRACT_ADDR);
    let err = execute(&mock_env(), &info, msg, balance).err();
    assert_eq!(
        err,
        Some(WrapperError::InvalidOutput { expected_min: 10u128, expected_max: 10u128, actual: 100u128 })
    );

    let info = mock_info(MOCK_CONTRACT_ADDR);
    let msg = ExecuteMsg::CheckRange {
        user: "addr0".to_string(),
        denom: "earth".to_string(),
        balance_before: 0,
        min_output: 99u128,
        max_output: 101u128,
    };
    let res = execute(&mock_env(), &info, msg, balance).unwrap();
    assert_eq!(
        res.messages,
        vec![WrapperMsg::Send { to_address: "addr0".to_string(), denom: "earth".to_string(), amount: 100u128 }]
    );
    assert_eq!(res.event, WrapperEvent::ExecuteCheckRange);
    assert_eq!(res.event.action(), "execute_check_range");
}

#[test]
fn swap_goes_along_the_route_given() {
    let route = vec![
        SwapAmountInRoute { pool_id: 1, token_out_denom: "uion".to_string() },
        SwapAmountInRoute { pool_id: 7, token_out_denom: "uosmo".to_string() },
    ];
    let msg = ExecuteMsg::Swap {
        sender: "addr0".to_string(),
        route: route.clone(),
        denom_in: "uatom".to_owned(),
        amount_in: 1_000_000u128,
        min_output: 5u128,
        max_output: 50u128,
        denom_out: "uosmo".to_owned(),
    };
    let res = execute(&mock_env(), &mock_info("anyone"), msg, 77).unwrap();
    assert_eq!(
        res.messages,
        vec![
            WrapperMsg::SwapExactAmountIn {
                sender: "addr0".to_string(),
                routes: route,
                token_in_denom: "uatom".to_owned(),
                token_in_amount: "1000000".to_string(),
                token_out_min_amount: "5".to_string()
            },
            WrapperMsg::CheckRange {
                contract_addr: MOCK_CONTRACT_ADDR.to_string(),
                user: "addr0".to_string(),
                denom: "uosmo".to_string(),
                balance_before: 77,
                min_output: 5u128,
                max_output: 50u128,
            }
        ]
    );
}

#[test]
fn range_is_checked_on_what_the_swap_brought() {
    let info = mock_info(MOCK_CONTRACT_ADDR);
    let check = |balance_before: u128, balance: u128| {
        execute(
            &mock_env(),
            &info,
            ExecuteMsg::CheckRange {
                user: "addr0".to_string(),
                denom: "earth".to_string(),
                balance_before,
                min_output: 10,
                max_output: 20,
            },
            balance,
        )
    };
    // both ends of the range are within it
    assert!(check(100, 110).is_ok());
    assert!(check(100, 120).is_ok());
    assert_eq!(
        check(100, 109).err(),
        Some(WrapperError::InvalidOutput { expected_min: 10, expected_max: 20, actual: 9 })
    );
    assert_eq!(
        check(100, 121).err(),
        Some(WrapperError::InvalidOutput { expected_min: 10, expected_max: 20, actual: 21 })
    );
    assert_eq!(
        check(100, 115).unwrap().messages,
        vec![WrapperMsg::Send { to_address: "addr0".to_string(), denom: "earth".to_string(), amount: 15 }]
    );
}

#[test]
fn wrapper_migrates_from_older_versions_only() {
    let current = "0.2.0".to_string();
    assert_eq!(migrate(&"0.1.9".to_string(), &current, MigrateMsg {}), Ok(true));
    assert_eq!(migrate(&"0.2.0".to_string(), &current, MigrateMsg {}), Ok(false));
    assert_eq!(migrate(&"0.2.1".to_string(), &current, MigrateMsg {}), Ok(false));
    match migrate(&"x".to_string(), &current, MigrateMsg {}) {
        Err(WrapperError::SemVer(text)) => assert!(!text.is_empty()),
        other => panic!("unexpected {:?}", other),
    }
}
