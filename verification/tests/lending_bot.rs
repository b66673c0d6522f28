use cosmwasm_std::testing::mock_env;
use cosmwasm_std::Uint256;
use curve_lending_bot::guard::{execute_defined, is_address};
use curve_lending_bot::contract::{
    execute, get_job_id, instantiate, query, repay, set_paloma, update_blueprint,
    update_compass, update_gas_fee, update_refund_wallet, update_service_fee,
    update_service_fee_collector,
};
use curve_lending_bot::error::ContractError;
use curve_lending_bot::msg::{
    BotInfo, ExecuteMsg, InstantiateMsg, QueryMsg, QueryResponse, Response, SwapInfo,
};
use curve_lending_bot::state::{State, TimestampStore};
use ethabi::{ParamType, Token};
use std::str::FromStr;

const BOT: &str = "0xCe946BC3cC175D1aAa11f8872573452F1BCcbe4c";
const COLLATERAL: &str = "0xC02aaA39b223FE8D0A0e5C4F27eAD9083C756Cc2";
const ZERO: &str = "0x0000000000000000000000000000000000000000";

fn uint(s: &str) -> [u8; 32] {
    Uint256::from_str(s).unwrap().to_be_bytes()
}

fn now() -> u64 {
    mock_env().block.time.nanos()
}

fn instantiate_msg() -> InstantiateMsg {
    InstantiateMsg {
        retry_delay: 60,
        job_id: "test_job_id".to_string(),
        creator: "creator".to_string(),
        signers: vec![],
    }
}

fn state() -> State {
    instantiate("creator".to_string(), instantiate_msg()).0
}

fn swap_info() -> SwapInfo {
    let mut route = vec![
        "0xd533a949740bb3306d119cc777fa900ba034cd52".to_string(),
        "0x4ebdf703948ddcea3b11f675b4d1fba9d2414a14".to_string(),
        "0xeeeeeeeeeeeeeeeeeeeeeeeeeeeeeeeeeeeeeeee".to_string(),
    ];
    for _ in 0..8 {
        route.push(ZERO.to_string());
    }
    let mut swap_params = vec![vec![uint("2"), uint("1"), uint("1"), uint("3"), uint("3")]];
    for _ in 0..4 {
        swap_params.push(vec![uint("0"); 5]);
    }
    let mut pools = vec!["0x4ebdf703948ddcea3b11f675b4d1fba9d2414a14".to_string()];
    for _ in 0..4 {
        pools.push(ZERO.to_string());
    }
    SwapInfo {
        route,
        swap_params,
        amount: uint("190730534729458"),
        expected: uint("39463797565"),
        pools,
    }
}

fn bot_info(bot: &str) -> BotInfo {
    BotInfo {
        bot: bot.to_string(),
        swap_infos: vec![swap_info()],
        collateral: COLLATERAL.to_string(),
        amount: uint("190730534729458"),
    }
}

fn repay_bot(bot: &str, amount: &str) -> BotInfo {
    BotInfo {
        bot: bot.to_string(),
        swap_infos: vec![],
        collateral: COLLATERAL.to_string(),
        amount: uint(amount),
    }
}

fn address(s: &str) -> Token {
    Token::Address(ethabi::Address::from_str(s).unwrap())
}

fn uint_token(s: &str) -> Token {
    Token::Uint(ethabi::Uint::from_dec_str(s).unwrap())
}

fn swap_info_tokens(si: &SwapInfo) -> Token {
    Token::Tuple(vec![
        Token::FixedArray(si.route.iter().map(|r| address(r)).collect()),
        Token::FixedArray(
            si.swap_params
                .iter()
                .map(|row| {
                    Token::FixedArray(
                        row.iter().map(|u| Token::Uint(ethabi::Uint::from_big_endian(u))).collect(),
                    )
                })
                .collect(),
        ),
        Token::Uint(ethabi::Uint::from_big_endian(&si.amount)),
        Token::Uint(ethabi::Uint::from_big_endian(&si.expected)),
        Token::FixedArray(si.pools.iter().map(|p| address(p)).collect()),
    ])
}

fn swap_info_type() -> ParamType {
    ParamType::Tuple(vec![
        ParamType::FixedArray(Box::new(ParamType::Address), 11),
        ParamType::FixedArray(
            Box::new(ParamType::FixedArray(Box::new(ParamType::Uint(256)), 5)),
            5,
        ),
        ParamType::Uint(256),
        ParamType::Uint(256),
        ParamType::FixedArray(Box::new(ParamType::Address), 5),
    ])
}

fn call(name: &str, params: &[ParamType], tokens: &[Token]) -> Vec<u8> {
    let mut out = ethabi::short_signature(name, params).to_vec();
    out.extend(ethabi::encode(tokens));
    out
}

fn expected_add_collateral(bots: &[BotInfo]) -> Vec<u8> {
    let params = vec![
        ParamType::Array(Box::new(ParamType::Address)),
        ParamType::Array(Box::new(ParamType::Array(Box::new(swap_info_type())))),
        ParamType::Array(Box::new(ParamType::Address)),
        ParamType::Array(Box::new(ParamType::Uint(256))),
    ];
    let tokens = vec![
        Token::Array(bots.iter().map(|b| address(&b.bot)).collect()),
        Token::Array(
            bots.iter()
                .map(|b| Token::Array(b.swap_infos.iter().map(swap_info_tokens).collect()))
                .collect(),
        ),
        Token::Array(bots.iter().map(|b| address(&b.collateral)).collect()),
        Token::Array(bots.iter().map(|b| Token::Uint(ethabi::Uint::from_big_endian(&b.amount))).collect()),
    ];
    call("add_collateral", &params, &tokens)
}

fn expected_repay(bots: &[BotInfo]) -> Vec<u8> {
    let params = vec![
        ParamType::Array(Box::new(ParamType::Address)),
        ParamType::Array(Box::new(ParamType::Address)),
        ParamType::Array(Box::new(ParamType::Uint(256))),
    ];
    let tokens = vec![
        Token::Array(bots.iter().map(|b| address(&b.bot)).collect()),
        Token::Array(bots.iter().map(|b| address(&b.collateral)).collect()),
        Token::Array(bots.iter().map(|b| Token::Uint(ethabi::Uint::from_big_endian(&b.amount))).collect()),
    ];
    call("repay", &params, &tokens)
}

fn only_message(res: Result<Response, ContractError>, action: &str) -> Vec<u8> {
    let r = match res {
        Ok(r) => r,
        Err(e) => panic!("refused: {:?}", e),
    };
    assert_eq!(r.messages.len(), 1);
    assert_eq!(r.messages[0].job_id, "test_job_id");
    assert_eq!(r.messages[0].metadata.creator, "creator");
    assert!(r.messages[0].metadata.signers.is_empty());
    assert_eq!(r.attributes.len(), 1);
    assert_eq!(r.attributes[0].key, "action");
    assert_eq!(r.attributes[0].value, action);
    r.messages[0].payload.clone()
}

fn run(
    store: &mut TimestampStore,
    sender: &str,
    at: u64,
    msg: ExecuteMsg,
) -> Result<Response, ContractError> {
    let sender = sender.to_string();
    assert!(execute_defined(&state(), &sender, at, store, &msg));
    execute(&state(), &sender, at, store, msg)
}

#[test]
fn simple_test() {
    let (state, res) = instantiate("creator".to_string(), instantiate_msg());
    assert!(res.messages.is_empty());
    assert_eq!(state.owner, "creator");
    let mut store = TimestampStore::new();
    let msg = ExecuteMsg::AddCollateral { bot_info: vec![bot_info(BOT)] };
    let sender = "creator".to_string();
    assert!(execute_defined(&state, &sender, now(), &store, &msg));
    let res = execute(&state, &sender, now(), &mut store, msg);
    assert!(res.is_ok());
}

#[test]
fn requests_keep_the_state_and_its_job_id() {
    let state = state();
    let owner = "creator".to_string();
    let mut store = TimestampStore::new();
    let msgs = vec![
        ExecuteMsg::AddCollateral { bot_info: vec![bot_info(BOT)] },
        ExecuteMsg::AddCollateral { bot_info: vec![bot_info(BOT)] },
        ExecuteMsg::SetPaloma,
        ExecuteMsg::UpdateGasFee { new_gas_fee: uint("3") },
    ];
    for msg in msgs {
        let _ = execute(&state, &owner, now(), &mut store, msg);
    }
    assert_eq!(state.owner, "creator");
    assert_eq!(state.retry_delay, 60);
    match query(&state, QueryMsg::GetJobId) {
        QueryResponse::GetJobId(r) => assert_eq!(r.job_id, "test_job_id"),
    }
}

#[test]
fn instantiate_records_owner_and_attributes() {
    let (state, res) = instantiate("creator".to_string(), instantiate_msg());
    assert_eq!(state.retry_delay, 60);
    assert_eq!(state.job_id, "test_job_id");
    assert_eq!(state.owner, "creator");
    assert_eq!(state.metadata.creator, "creator");
    let attrs: Vec<(String, String)> =
        res.attributes.iter().map(|a| (a.key.clone(), a.value.clone())).collect();
    assert_eq!(
        attrs,
        vec![
            ("method".to_string(), "instantiate".to_string()),
            ("owner".to_string(), "creator".to_string()),
            ("job_id".to_string(), "test_job_id".to_string()),
        ]
    );
}

#[test]
fn query_after_instantiate_gives_job_id() {
    match query(&state(), QueryMsg::GetJobId) {
        QueryResponse::GetJobId(r) => assert_eq!(r.job_id, "test_job_id"),
    }
    assert_eq!(get_job_id(&state()).job_id, "test_job_id");
}

#[test]
fn add_collateral_payload_is_the_abi_call() {
    let mut store = TimestampStore::new();
    let msg = ExecuteMsg::AddCollateral { bot_info: vec![bot_info(BOT)] };
    let payload = only_message(run(&mut store, "creator", now(), msg), "add_collateral");
    assert_eq!(payload, expected_add_collateral(&[bot_info(BOT)]));
    assert_eq!(&payload[..4], &ethabi::short_signature("add_collateral", &[
        ParamType::Array(Box::new(ParamType::Address)),
        ParamType::Array(Box::new(ParamType::Array(Box::new(swap_info_type())))),
        ParamType::Array(Box::new(ParamType::Address)),
        ParamType::Array(Box::new(ParamType::Uint(256))),
    ]));
    assert_eq!(store.get(&BOT.to_string()), Some(now()));
}

#[test]
fn non_owner_is_unauthorized_for_every_message() {
    let msgs = vec![
        ExecuteMsg::AddCollateral { bot_info: vec![bot_info(BOT)] },
        ExecuteMsg::Repay { bot_info: vec![repay_bot(BOT, "5")] },
        ExecuteMsg::SetPaloma,
        ExecuteMsg::UpdateCompass { new_compass: "not an address".to_string() },
        ExecuteMsg::UpdateBlueprint { new_blueprint: ZERO.to_string() },
        ExecuteMsg::UpdateRefundWallet { new_refund_wallet: ZERO.to_string() },
        ExecuteMsg::UpdateGasFee { new_gas_fee: uint("1") },
        ExecuteMsg::UpdateServiceFeeCollector { new_service_fee_collector: ZERO.to_string() },
        ExecuteMsg::UpdateServiceFee { new_service_fee: uint("1") },
    ];
    for msg in msgs {
        let mut store = TimestampStore::new();
        let res = run(&mut store, "someone_else", now(), msg);
        assert!(matches!(res, Err(ContractError::Unauthorized)));
        assert!(store.entries().is_empty());
    }
}

#[test]
fn bot_waits_for_the_retry_delay() {
    let mut store = TimestampStore::new();
    let t0 = now();
    let msg = || ExecuteMsg::AddCollateral { bot_info: vec![bot_info(BOT)] };
    assert!(run(&mut store, "creator", t0, msg()).is_ok());
    // Same time, and exactly 60 s later: still pending.
    assert!(matches!(run(&mut store, "creator", t0, msg()), Err(ContractError::AllPending)));
    assert!(matches!(
        run(&mut store, "creator", t0 + 60_000_000_000, msg()),
        Err(ContractError::AllPending)
    ));
    assert_eq!(store.get(&BOT.to_string()), Some(t0));
    // One nanosecond after the delay: handled again, with the new time.
    let later = t0 + 60_000_000_001;
    assert!(run(&mut store, "creator", later, msg()).is_ok());
    assert_eq!(store.get(&BOT.to_string()), Some(later));
}

#[test]
fn repeated_bot_in_one_request_is_handled_once() {
    let mut store = TimestampStore::new();
    let other = "0x1111111111111111111111111111111111111111";
    let msg = ExecuteMsg::Repay {
        bot_info: vec![repay_bot(BOT, "7"), repay_bot(other, "8"), repay_bot(BOT, "9")],
    };
    let payload = only_message(run(&mut store, "creator", now(), msg), "repay");
    assert_eq!(payload, expected_repay(&[repay_bot(BOT, "7"), repay_bot(other, "8")]));
    assert_eq!(store.get(&other.to_string()), Some(now()));
}

#[test]
fn only_due_bots_are_encoded() {
    let mut store = TimestampStore::new();
    let other = "0x2222222222222222222222222222222222222222";
    store.insert(BOT.to_string(), now() - 10);
    let msg = ExecuteMsg::AddCollateral { bot_info: vec![bot_info(BOT), bot_info(other)] };
    let payload = only_message(run(&mut store, "creator", now(), msg), "add_collateral");
    assert_eq!(payload, expected_add_collateral(&[bot_info(other)]));
    assert_eq!(store.get(&BOT.to_string()), Some(now() - 10));
}

#[test]
fn repay_payload_is_the_abi_call() {
    let mut store = TimestampStore::new();
    let res = repay(&state(), &"creator".to_string(), now(), &mut store, vec![repay_bot(BOT, "42")]);
    let payload = only_message(res, "repay");
    assert_eq!(payload, expected_repay(&[repay_bot(BOT, "42")]));
    let mut manual = ethabi::short_signature(
        "repay",
        &[
            ParamType::Array(Box::new(ParamType::Address)),
            ParamType::Array(Box::new(ParamType::Address)),
            ParamType::Array(Box::new(ParamType::Uint(256))),
        ],
    )
    .to_vec();
    manual.extend(ethabi::encode(&[
        Token::Array(vec![address(BOT)]),
        Token::Array(vec![address(COLLATERAL)]),
        Token::Array(vec![uint_token("42")]),
    ]));
    assert_eq!(payload, manual);
}

#[test]
fn all_pending_repay_changes_nothing() {
    let mut store = TimestampStore::new();
    store.insert(BOT.to_string(), now());
    let res = run(&mut store, "creator", now(), ExecuteMsg::Repay { bot_info: vec![repay_bot(BOT, "1")] });
    assert!(matches!(res, Err(ContractError::AllPending)));
    assert_eq!(store.entries().len(), 1);
    assert_eq!(store.get(&BOT.to_string()), Some(now()));
}

#[test]
fn set_paloma_sends_the_bare_selector() {
    let payload = only_message(set_paloma(&state(), &"creator".to_string()), "set_paloma");
    assert_eq!(payload, ethabi::short_signature("set_paloma", &[]).to_vec());
    assert_eq!(payload.len(), 4);
}

#[test]
fn address_updates_encode_one_address() {
    let target = "0x3333333333333333333333333333333333333333";
    let owner = "creator".to_string();
    let cases: Vec<(&str, Result<Response, ContractError>)> = vec![
        ("update_compass", update_compass(&state(), &owner, target.to_string())),
        ("update_blueprint", update_blueprint(&state(), &owner, target.to_string())),
        ("update_refund_wallet", update_refund_wallet(&state(), &owner, target.to_string())),
        (
            "update_service_fee_collector",
            update_service_fee_collector(&state(), &owner, target.to_string()),
        ),
    ];
    for (name, res) in cases {
        let payload = only_message(res, name);
        assert_eq!(payload, call(name, &[ParamType::Address], &[address(target)]));
        assert_eq!(payload.len(), 36);
        assert_eq!(&payload[16..], &[0x33u8; 20][..]);
    }
}

#[test]
fn amount_updates_encode_one_integer() {
    let owner = "creator".to_string();
    let gas = only_message(update_gas_fee(&state(), &owner, uint("123456789")), "update_gas_fee");
    assert_eq!(gas, call("update_gas_fee", &[ParamType::Uint(256)], &[uint_token("123456789")]));
    let fee = only_message(update_service_fee(&state(), &owner, uint("10")), "update_service_fee");
    assert_eq!(fee, call("update_service_fee", &[ParamType::Uint(256)], &[uint_token("10")]));
    assert_eq!(fee[35], 10);
}

#[test]
fn address_texts() {
    assert!(is_address(&BOT.to_string()));
    assert!(is_address(&"Ce946BC3cC175D1aAa11f8872573452F1BCcbe4c".to_string()));
    assert!(is_address(&"0xCe946BC3 cC175D1aAa11f8872573452F1BCcbe4c".to_string()));
    assert!(!is_address(&"0XCe946BC3cC175D1aAa11f8872573452F1BCcbe4c".to_string()));
    assert!(!is_address(&"0xCe946BC3cC175D1aAa11f8872573452F1BCcbe4".to_string()));
    assert!(!is_address(&"0xCe946BC3cC175D1aAa11f8872573452F1BCcbe4c00".to_string()));
    assert!(!is_address(&"0xge946BC3cC175D1aAa11f8872573452F1BCcbe4c".to_string()));
    assert!(!is_address(&"".to_string()));
}

#[test]
fn execute_defined_follows_the_panics() {
    let owner = "creator".to_string();
    let store = TimestampStore::new();
    // An empty list panics, from anyone.
    let empty = ExecuteMsg::AddCollateral { bot_info: vec![] };
    assert!(!execute_defined(&state(), &owner, now(), &store, &empty));
    assert!(!execute_defined(&state(), &"x".to_string(), now(), &store, &empty));
    // A due bot with a bad address panics; a pending one is never parsed.
    let bad = ExecuteMsg::Repay { bot_info: vec![repay_bot("0x12", "1")] };
    assert!(!execute_defined(&state(), &owner, now(), &store, &bad));
    assert!(execute_defined(&state(), &"x".to_string(), now(), &store, &bad));
    let mut pending = TimestampStore::new();
    pending.insert("0x12".to_string(), now());
    assert!(execute_defined(&state(), &owner, now(), &pending, &bad));
    // A swap route of the wrong length fails the type check.
    let mut short = bot_info(BOT);
    short.swap_infos[0].route.pop();
    let msg = ExecuteMsg::AddCollateral { bot_info: vec![short] };
    assert!(!execute_defined(&state(), &owner, now(), &store, &msg));
    // A time that overflows when the delay is added.
    let mut late = TimestampStore::new();
    late.insert(BOT.to_string(), u64::MAX - 10);
    let msg = ExecuteMsg::Repay { bot_info: vec![repay_bot(BOT, "1")] };
    assert!(!execute_defined(&state(), &owner, now(), &late, &msg));
    // An update of a bad address.
    let upd = ExecuteMsg::UpdateCompass { new_compass: "nope".to_string() };
    assert!(!execute_defined(&state(), &owner, now(), &store, &upd));
    assert!(execute_defined(&state(), &owner, now(), &store, &ExecuteMsg::SetPaloma));
}

#[test]
fn timestamp_store_keeps_the_latest_time() {
    let mut store = TimestampStore::new();
    assert_eq!(store.get(&"a".to_string()), None);
    store.insert("a".to_string(), 1);
    store.insert("b".to_string(), 2);
    store.insert("a".to_string(), 3);
    assert_eq!(store.get(&"a".to_string()), Some(3));
    assert_eq!(store.get(&"b".to_string()), Some(2));
    let copy = store.copy();
    assert_eq!(copy.get(&"a".to_string()), Some(3));
    assert_eq!(copy.entries().len(), 3);
}

#[test]
fn repay_ignores_the_swaps() {
    let mut with_swaps = bot_info(BOT);
    with_swaps.amount = uint("77");
    let mut bad_swaps = repay_bot(BOT, "77");
    let mut broken = swap_info();
    broken.route.truncate(2);
    broken.pools = vec!["not an address".to_string()];
    bad_swaps.swap_infos = vec![broken];
    let mut store1 = TimestampStore::new();
    let mut store2 = TimestampStore::new();
    let p1 = only_message(run(&mut store1, "creator", now(), ExecuteMsg::Repay { bot_info: vec![with_swaps] }), "repay");
    let p2 = only_message(run(&mut store2, "creator", now(), ExecuteMsg::Repay { bot_info: vec![bad_swaps] }), "repay");
    assert_eq!(p1, p2);
    assert_eq!(store1.get(&BOT.to_string()), store2.get(&BOT.to_string()));
}
