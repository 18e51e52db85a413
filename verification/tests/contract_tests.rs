use cosmwasm_std::StdError;
use cw_ownable::OwnershipError;
use token_pool_list::contract::{
    change_config, config, create_pool, execute, instantiate, list_token, pool_list, token_list,
};
use token_pool_list::error::ContractError;
use token_pool_list::fees::{charge_fee, charge_pool_creation_fee, charge_token_list_fee, fee_charge_would_fail};
use token_pool_list::msg::{ExecMsg, InstantiateMsg};
use token_pool_list::response::{Attribute, ExecuteCall, Response};
use token_pool_list::state::{Chain, Coin, Config, ContractState, GasPrice, IbcChannels, Pool, Token, WalletInfo};
use token_pool_list::wallets::{check_dev_wallets, ratio_sum_would_overflow};

const ONE: u128 = 1_000_000_000_000_000_000;

fn s(x: &str) -> String {
    x.to_string()
}

fn wallet(address: &str, ratio: u128) -> WalletInfo {
    WalletInfo { address: s(address), ratio }
}

fn halves() -> Vec<WalletInfo> {
    vec![wallet("dev1", ONE / 2), wallet("dev2", ONE / 2)]
}

fn test_config(burn_fee_percent: u64) -> Config {
    Config {
        token_listing_fee: Coin { denom: s("listing_token"), amount: 500 },
        pool_creation_fee: Coin { denom: s("fee_token"), amount: 1000 },
        burn_fee_percent,
        dev_wallet_list: halves(),
    }
}

fn state_with(config: Config) -> ContractState {
    ContractState { config, tokens: vec![], pools: vec![] }
}

fn chain() -> Chain {
    Chain {
        chain_name: s("Juno"),
        chain_id: s("juno-1"),
        gas_price: GasPrice { denom: s("ujuno"), amount: 25 },
        ibc_channels: Some(IbcChannels { deposit_channel: s("channel-0"), withdraw_channel: s("channel-1") }),
        is_evm: false,
    }
}

fn attrs(pairs: &[(&str, &str)]) -> Vec<Attribute> {
    pairs.iter().map(|(k, v)| Attribute { key: s(k), value: s(v) }).collect()
}

fn burn_json(owner: &str, amount: u128) -> Vec<u8> {
    format!("{{\"burn_from\":{{\"owner\":\"{}\",\"amount\":\"{}\"}}}}", owner, amount).into_bytes()
}

fn transfer_json(owner: &str, recipient: &str, amount: u128) -> Vec<u8> {
    format!(
        "{{\"transfer_from\":{{\"owner\":\"{}\",\"recipient\":\"{}\",\"amount\":\"{}\"}}}}",
        owner, recipient, amount
    )
    .into_bytes()
}

fn call(contract: &str, msg: Vec<u8>) -> ExecuteCall {
    ExecuteCall { contract_addr: s(contract), msg }
}

fn ok_checks(n: usize) -> Vec<Result<(), StdError>> {
    (0..n).map(|_| Ok(())).collect()
}

// ------------------------------------------------------------------ fees

#[test]
fn fee_is_burnt_then_split_among_wallets() {
    let calls = charge_pool_creation_fee(&test_config(10), &s("alice")).unwrap();
    assert_eq!(
        calls,
        vec![
            call("fee_token", burn_json("alice", 100)),
            call("fee_token", transfer_json("alice", "dev1", 450)),
            call("fee_token", transfer_json("alice", "dev2", 450)),
        ]
    );
}

#[test]
fn zero_burn_percent_sends_no_burn_call() {
    let calls = charge_pool_creation_fee(&test_config(0), &s("alice")).unwrap();
    assert_eq!(
        calls,
        vec![
            call("fee_token", transfer_json("alice", "dev1", 500)),
            call("fee_token", transfer_json("alice", "dev2", 500)),
        ]
    );
}

#[test]
fn token_listing_fee_is_charged_in_its_own_token() {
    let calls = charge_token_list_fee(&test_config(20), &s("bob")).unwrap();
    assert_eq!(
        calls,
        vec![
            call("listing_token", burn_json("bob", 100)),
            call("listing_token", transfer_json("bob", "dev1", 200)),
            call("listing_token", transfer_json("bob", "dev2", 200)),
        ]
    );
}

#[test]
fn listing_charge_reads_only_the_listing_fee() {
    let mut config = Config {
        token_listing_fee: Coin { denom: s("listtok"), amount: 50 },
        pool_creation_fee: Coin { denom: s("pooltok"), amount: 100 },
        burn_fee_percent: 10,
        dev_wallet_list: halves(),
    };
    let expected = vec![
        call("listtok", burn_json("alice", 5)),
        call("listtok", transfer_json("alice", "dev1", 22)),
        call("listtok", transfer_json("alice", "dev2", 22)),
    ];
    assert_eq!(charge_token_list_fee(&config, &s("alice")).unwrap(), expected);
    config.pool_creation_fee.amount = 7;
    assert_eq!(charge_token_list_fee(&config, &s("alice")).unwrap(), expected);
}

#[test]
fn percent_over_hundred_can_still_complete() {
    // 1 * 150 / 100 = 1: the whole fee is burnt, nothing is left to share
    let calls = charge_fee(1, &s("t"), 150, &halves(), &s("o")).unwrap();
    assert_eq!(
        calls,
        vec![
            call("t", burn_json("o", 1)),
            call("t", transfer_json("o", "dev1", 0)),
            call("t", transfer_json("o", "dev2", 0)),
        ]
    );
}

#[test]
fn burnt_part_rounds_down() {
    // 999 * 15 / 100 = 149.85
    let calls = charge_fee(999, &s("t"), 15, &vec![wallet("w", ONE)], &s("o")).unwrap();
    assert_eq!(calls, vec![call("t", burn_json("o", 149)), call("t", transfer_json("o", "w", 850))]);
}

#[test]
fn rounding_leaves_less_than_one_unit_per_wallet() {
    let wallets = vec![wallet("a", 3 * ONE / 10), wallet("b", 3 * ONE / 10), wallet("c", 4 * ONE / 10)];
    let calls = charge_fee(99, &s("t"), 0, &wallets, &s("o")).unwrap();
    // 29.7, 29.7 and 39.6 rounded down: 97 of 99 handed out
    assert_eq!(
        calls,
        vec![
            call("t", transfer_json("o", "a", 29)),
            call("t", transfer_json("o", "b", 29)),
            call("t", transfer_json("o", "c", 39)),
        ]
    );
}

#[test]
fn burn_overflow_is_a_host_error() {
    let r = charge_fee(u128::MAX, &s("t"), 2, &halves(), &s("o"));
    assert!(matches!(r, Err(ContractError::Std(StdError::Overflow { .. }))));
}

#[test]
fn fee_charge_fails_on_percent_over_hundred() {
    assert!(fee_charge_would_fail(1000, 150, &halves()));
    assert!(!fee_charge_would_fail(1000, 100, &halves()));
    assert!(!fee_charge_would_fail(0, 150, &halves()));
    // an overflowing burn is an error, not a failure
    assert!(!fee_charge_would_fail(u128::MAX, 150, &halves()));
}

#[test]
fn fee_charge_fails_when_a_share_overflows() {
    let wallets = vec![wallet("w", 4 * ONE)];
    assert!(fee_charge_would_fail(u128::MAX / 2, 0, &wallets));
    assert!(!fee_charge_would_fail(1000, 0, &wallets));
}

#[test]
fn hundred_percent_burns_everything() {
    let calls = charge_fee(1000, &s("t"), 100, &halves(), &s("o")).unwrap();
    assert_eq!(
        calls,
        vec![
            call("t", burn_json("o", 1000)),
            call("t", transfer_json("o", "dev1", 0)),
            call("t", transfer_json("o", "dev2", 0)),
        ]
    );
}

// ------------------------------------------------------------------ wallets

#[test]
fn wallets_summing_to_one_are_accepted() {
    assert!(check_dev_wallets(&halves(), ok_checks(2)).is_ok());
}

#[test]
fn wrong_ratio_sum_is_refused() {
    let wallets = vec![wallet("a", ONE / 3), wallet("b", ONE / 3), wallet("c", ONE / 3)];
    assert!(matches!(check_dev_wallets(&wallets, ok_checks(3)), Err(ContractError::WrongRatio {})));
    assert!(matches!(check_dev_wallets(&vec![], vec![]), Err(ContractError::WrongRatio {})));
}

#[test]
fn first_refused_address_wins() {
    let checks = vec![Ok(()), Err(StdError::generic_err("first")), Err(StdError::generic_err("second"))];
    let wallets = vec![wallet("a", ONE), wallet("b", 0), wallet("c", 0)];
    match check_dev_wallets(&wallets, checks) {
        Err(ContractError::Std(e)) => assert_eq!(e, StdError::generic_err("first")),
        other => panic!("unexpected {:?}", other),
    }
}

#[test]
fn ratio_overflow_is_detected_only_before_a_refused_address() {
    let wallets = vec![wallet("a", u128::MAX), wallet("b", 1)];
    assert!(ratio_sum_would_overflow(&wallets, &ok_checks(2)));
    let checks = vec![Ok(()), Err(StdError::generic_err("bad"))];
    assert!(!ratio_sum_would_overflow(&wallets, &checks));
}

// ------------------------------------------------------------------ instantiate

fn instantiate_msg(wallets: Vec<WalletInfo>) -> InstantiateMsg {
    InstantiateMsg {
        token_listing_fee: Coin { denom: s("listing_token"), amount: 500 },
        pool_creation_fee: Coin { denom: s("fee_token"), amount: 1000 },
        burn_fee_percent: 10,
        dev_wallet_list: wallets,
        initial_tokens: None,
        initial_pools: Some(vec![Pool {
            token1: s("a"),
            token2: s("b"),
            creator: s("c"),
            burn_ratio: 1,
            swap_fee: s("0.1"),
        }]),
    }
}

#[test]
fn instantiate_stores_the_message() {
    let (state, resp) =
        instantiate(instantiate_msg(halves()), s("owner"), s("token-pool-list"), s("0.1.0"), ok_checks(2))
            .unwrap();
    assert_eq!(state.config, test_config(10));
    assert!(state.tokens.is_empty());
    assert_eq!(state.pools.len(), 1);
    assert_eq!(
        resp,
        Response {
            messages: vec![],
            attributes: attrs(&[
                ("action", "instantiate"),
                ("contract_name", "token-pool-list"),
                ("contract_version", "0.1.0"),
                ("sender", "owner"),
            ]),
        }
    );
}

#[test]
fn instantiate_refuses_wrong_ratio() {
    let r = instantiate(
        instantiate_msg(vec![wallet("a", ONE / 2)]),
        s("owner"),
        s("n"),
        s("v"),
        ok_checks(1),
    );
    assert!(matches!(r, Err(ContractError::WrongRatio {})));
}

// ------------------------------------------------------------------ create_pool

#[test]
fn create_pool_appends_and_charges() {
    let (state, resp) =
        create_pool(state_with(test_config(10)), s("alice"), s("ujuno"), s("uatom"), 5, s("0.3")).unwrap();
    assert_eq!(
        state.pools,
        vec![Pool { token1: s("ujuno"), token2: s("uatom"), creator: s("alice"), burn_ratio: 5, swap_fee: s("0.3") }]
    );
    assert_eq!(resp.messages.len(), 3);
    assert_eq!(resp.messages[0], call("fee_token", burn_json("alice", 100)));
    assert_eq!(
        resp.attributes,
        attrs(&[
            ("action", "create_pool"),
            ("creator", "alice"),
            ("token1", "ujuno"),
            ("token2", "uatom"),
            ("burn_ratio", "5"),
            ("swap_fee", "0.3"),
        ])
    );
}

#[test]
fn burn_ratio_attribute_is_decimal_text() {
    let (_, resp) =
        create_pool(state_with(test_config(0)), s("a"), s("x"), s("y"), 99, s("0")).unwrap();
    assert_eq!(resp.attributes[4], Attribute { key: s("burn_ratio"), value: s("99") });
    let (_, resp) = create_pool(state_with(test_config(0)), s("a"), s("x"), s("y"), 0, s("0")).unwrap();
    assert_eq!(resp.attributes[4], Attribute { key: s("burn_ratio"), value: s("0") });
}

#[test]
fn burn_ratio_of_hundred_is_refused() {
    let r = create_pool(state_with(test_config(10)), s("a"), s("x"), s("y"), 100, s("0.3"));
    assert!(matches!(r, Err(ContractError::InvalidBurnRatio {})));
}

#[test]
fn swap_fee_of_one_or_more_is_refused() {
    for fee in ["1", "1.0", "2.5", "10"] {
        let r = create_pool(state_with(test_config(10)), s("a"), s("x"), s("y"), 5, s(fee));
        assert!(matches!(r, Err(ContractError::InvalidSwapFee {})), "fee {}", fee);
    }
    for fee in ["0", "0.999999999999999999", "0.05"] {
        let r = create_pool(state_with(test_config(10)), s("a"), s("x"), s("y"), 5, s(fee));
        assert!(r.is_ok(), "fee {}", fee);
    }
}

#[test]
fn repeated_pool_is_refused() {
    let (state, _) = create_pool(state_with(test_config(10)), s("a"), s("x"), s("y"), 5, s("0.3")).unwrap();
    assert_eq!(state.config, test_config(10));
    assert!(state.tokens.is_empty());
    let r = create_pool(state.clone(), s("a"), s("x"), s("y"), 5, s("0.3"));
    assert!(matches!(r, Err(ContractError::PoolExists {})));
    // another creator or another field makes another pool
    assert!(create_pool(state.clone(), s("b"), s("x"), s("y"), 5, s("0.3")).is_ok());
    assert!(create_pool(state.clone(), s("a"), s("x"), s("y"), 6, s("0.3")).is_ok());
    assert!(create_pool(state, s("a"), s("x"), s("y"), 5, s("0.30")).is_ok());
}

#[test]
fn create_pool_overflowing_fee_is_a_host_error_before_other_checks() {
    let mut config = test_config(2);
    config.pool_creation_fee.amount = u128::MAX;
    let r = create_pool(state_with(config), s("a"), s("x"), s("y"), 100, s("nonsense"));
    assert!(matches!(r, Err(ContractError::Std(_))));
}

// ------------------------------------------------------------------ list_token

#[test]
fn list_token_appends_and_charges() {
    let (state, resp) = list_token(
        state_with(test_config(10)),
        s("bob"),
        s("ujuno"),
        s("Juno"),
        s("JUNO"),
        chain(),
        true,
        false,
        6,
        s("https://logo"),
    )
    .unwrap();
    assert_eq!(
        state.tokens,
        vec![Token {
            denom: s("ujuno"),
            full_name: s("Juno"),
            symbol: s("JUNO"),
            chain: chain(),
            is_native_coin: true,
            is_ibc_coin: false,
            decimal: 6,
            logo_uri: s("https://logo"),
        }]
    );
    assert_eq!(
        resp.messages,
        vec![
            call("listing_token", burn_json("bob", 50)),
            call("listing_token", transfer_json("bob", "dev1", 225)),
            call("listing_token", transfer_json("bob", "dev2", 225)),
        ]
    );
    assert_eq!(
        resp.attributes,
        attrs(&[("action", "list_token"), ("denom", "ujuno"), ("full_name", "Juno"), ("symbol", "JUNO")])
    );
    // listing a token leaves the pools and the configuration as they were
    assert!(state.pools.is_empty());
    assert_eq!(state.config, test_config(10));
    // a later Tokens query answers with the listed token
    assert_eq!(token_list(state.tokens.clone()).tokens, state.tokens);
}

// ------------------------------------------------------------------ change_config

#[test]
fn change_config_by_owner_replaces_config() {
    let new_fee = Coin { denom: s("other"), amount: 7 };
    let (state, resp) = change_config(
        state_with(test_config(10)),
        Ok(()),
        new_fee.clone(),
        new_fee.clone(),
        3,
        vec![wallet("x", ONE)],
        ok_checks(1),
    )
    .unwrap();
    assert_eq!(
        state.config,
        Config {
            token_listing_fee: new_fee.clone(),
            pool_creation_fee: new_fee,
            burn_fee_percent: 3,
            dev_wallet_list: vec![wallet("x", ONE)],
        }
    );
    assert_eq!(resp, Response { messages: vec![], attributes: attrs(&[("action", "changed_config")]) });
    assert_eq!(config(state.config.clone()).config, state.config);
}

#[test]
fn change_config_by_other_is_refused() {
    let fee = Coin { denom: s("other"), amount: 7 };
    let r = change_config(
        state_with(test_config(10)),
        Err(OwnershipError::NotOwner),
        fee.clone(),
        fee,
        3,
        vec![wallet("x", u128::MAX), wallet("y", 5)],
        ok_checks(2),
    );
    assert!(matches!(r, Err(ContractError::Ownership(OwnershipError::NotOwner))));
}

#[test]
fn change_config_refuses_bad_address_and_wrong_ratio() {
    let fee = Coin { denom: s("other"), amount: 7 };
    let r = change_config(
        state_with(test_config(10)),
        Ok(()),
        fee.clone(),
        fee.clone(),
        3,
        vec![wallet("x", ONE)],
        vec![Err(StdError::generic_err("Invalid input: human address too short"))],
    );
    assert!(matches!(r, Err(ContractError::Std(_))));
    let r = change_config(state_with(test_config(10)), Ok(()), fee.clone(), fee, 3, vec![wallet("x", 1)], ok_checks(1));
    assert!(matches!(r, Err(ContractError::WrongRatio {})));
}

// ------------------------------------------------------------------ execute

#[test]
fn execute_dispatches_and_reports_aborts() {
    let msg = ExecMsg::CreatePool { token1: s("x"), token2: s("y"), burn_ratio: 5, swap_fee: s("0.3") };
    let r = execute(state_with(test_config(10)), s("a"), msg, Ok(()), vec![]).unwrap();
    let (state, _) = r.unwrap();
    assert_eq!(pool_list(state.pools.clone()).pools.len(), 1);

    // a swap fee that is no decimal aborts
    let msg = ExecMsg::CreatePool { token1: s("x"), token2: s("y"), burn_ratio: 5, swap_fee: s("abc") };
    assert!(execute(state_with(test_config(10)), s("a"), msg, Ok(()), vec![]).is_none());

    // ... unless an earlier check refuses first
    let msg = ExecMsg::CreatePool { token1: s("x"), token2: s("y"), burn_ratio: 100, swap_fee: s("abc") };
    let r = execute(state_with(test_config(10)), s("a"), msg, Ok(()), vec![]).unwrap();
    assert!(matches!(r, Err(ContractError::InvalidBurnRatio {})));

    // a burn percentage over 100 aborts any charge
    let msg = ExecMsg::ListToken {
        denom: s("d"),
        full_name: s("f"),
        symbol: s("s"),
        chain: chain(),
        is_native_coin: false,
        is_ibc_coin: true,
        decimal: 6,
        logo_uri: s("l"),
    };
    assert!(execute(state_with(test_config(150)), s("a"), msg, Ok(()), vec![]).is_none());

    // an overflowing sum of ratios aborts a change of configuration
    let fee = Coin { denom: s("t"), amount: 1 };
    let msg = ExecMsg::ChangeConfig {
        token_listing_fee: fee.clone(),
        pool_creation_fee: fee.clone(),
        burn_fee_percent: 0,
        dev_wallet_lists: vec![wallet("a", u128::MAX), wallet("b", 1)],
    };
    assert!(execute(state_with(test_config(10)), s("a"), msg.clone(), Ok(()), ok_checks(2)).is_none());
    let r = execute(state_with(test_config(10)), s("a"), msg, Err(OwnershipError::NoOwner), ok_checks(2)).unwrap();
    assert!(matches!(r, Err(ContractError::Ownership(OwnershipError::NoOwner))));
}
