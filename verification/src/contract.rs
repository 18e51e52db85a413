//! The contract's actions and queries, as functions from the stored state,
//! the request and the host's verdicts to the new state and the response.
use crate::encode::{decimal_text, u64_to_string};
use crate::error::ContractError;
use crate::fees::{
    burn_overflow_error, burn_overflows, burn_would_overflow, charge_pool_creation_fee, charge_token_list_fee,
    fee_calls, fee_charge_fails, fee_charge_would_fail,
};
use crate::fixed_point::{decimal_floor, decimal_from_str, decimal_from_str_result, DECIMAL_FRACTIONAL};
use crate::msg::{ConfigResp, ExecMsg, InstantiateMsg, PoolsResp, TokensResp};
use crate::response::{attribute, Response, ResponseView};
use crate::state::{Chain, Coin, Config, ContractState, Pool, Token, WalletInfo};
use crate::wallets::{
    check_dev_wallets, ratio_sum_fits, ratio_sum_would_overflow, wallet_refusal, wallets_accepted,
};
use cosmwasm_std::StdError;
use cw_ownable::OwnershipError;
use vstd::prelude::*;

verus! {

/// A swap fee is refused when its whole part is above this many atomics of
/// a decimal, that is when the fee is one or more.
pub const SWAP_FEE_LIMIT: u128 = 10;

/// The swap fee with these atomics is refused.
pub open spec fn swap_fee_too_high(atomics: u128) -> bool {
    atomics / DECIMAL_FRACTIONAL * DECIMAL_FRACTIONAL > SWAP_FEE_LIMIT
}

/// Tells whether the swap fee with these atomics is refused: its whole part
/// (`Decimal::floor`) is above `SWAP_FEE_LIMIT` atomics.
pub fn swap_fee_refused(atomics: u128) -> (r: bool)
    ensures
        r == swap_fee_too_high(atomics),
{
    decimal_floor(atomics) > SWAP_FEE_LIMIT
}

/// Two pools are the same when every field reads the same.
pub open spec fn same_pool(a: Pool, b: Pool) -> bool {
    &&& a.token1@ == b.token1@
    &&& a.token2@ == b.token2@
    &&& a.creator@ == b.creator@
    &&& a.burn_ratio == b.burn_ratio
    &&& a.swap_fee@ == b.swap_fee@
}

/// `pools` holds a pool that is the same as `pool`.
pub open spec fn pool_exists(pools: Seq<Pool>, pool: Pool) -> bool {
    exists|i: int| 0 <= i < pools.len() && same_pool(#[trigger] pools[i], pool)
}

/// No two pools in the list are the same.
pub open spec fn pools_distinct(pools: Seq<Pool>) -> bool {
    forall|i: int, j: int| 0 <= i < j < pools.len() ==> !same_pool(#[trigger] pools[i], #[trigger] pools[j])
}

/// The response of an action without calls.
pub open spec fn plain_response(resp: ResponseView, attributes: Seq<(Seq<char>, Seq<char>)>) -> bool {
    resp.messages == Seq::<(Seq<char>, Seq<u8>)>::empty() && resp.attributes == attributes
}

/// The list an optional list stands for: empty when absent.
pub open spec fn list_or_empty<T>(list: Option<Vec<T>>) -> Seq<T> {
    match list {
        Some(v) => v@,
        None => Seq::empty(),
    }
}

// ---------------------------------------------------------------- instantiate

/// What instantiating with `msg` gives: refused as the wallet check says,
/// or the configuration, tokens and pools of the message and a response
/// that logs the action, the contract's name and version and the sender.
pub open spec fn instantiate_outcome(
    msg: InstantiateMsg,
    sender: String,
    contract_name: String,
    contract_version: String,
    address_checks: Seq<Result<(), StdError>>,
    r: Result<(ContractState, Response), ContractError>,
) -> bool {
    &&& r is Ok <==> wallets_accepted(msg.dev_wallet_list@, address_checks)
    &&& r matches Err(e) ==> wallet_refusal(msg.dev_wallet_list@, address_checks, e)
    &&& r matches Ok((state, resp)) ==> {
        &&& state.config == (Config {
            token_listing_fee: msg.token_listing_fee,
            pool_creation_fee: msg.pool_creation_fee,
            burn_fee_percent: msg.burn_fee_percent,
            dev_wallet_list: msg.dev_wallet_list,
        })
        &&& state.tokens@ == list_or_empty(msg.initial_tokens)
        &&& state.pools@ == list_or_empty(msg.initial_pools)
        &&& plain_response(
            resp@,
            seq![
                ("action"@, "instantiate"@),
                ("contract_name"@, contract_name@),
                ("contract_version"@, contract_version@),
                ("sender"@, sender@),
            ],
        )
    }
}

/// Sets the contract up.  `address_checks[i]` is the host's verdict on the
/// address of the i-th developer wallet of `msg`.
pub fn instantiate(
    msg: InstantiateMsg,
    sender: String,
    contract_name: String,
    contract_version: String,
    address_checks: Vec<Result<(), StdError>>,
) -> (r: Result<(ContractState, Response), ContractError>)
    requires
        address_checks.len() == msg.dev_wallet_list.len(),
        ratio_sum_fits(msg.dev_wallet_list@, address_checks@),
    ensures
        instantiate_outcome(msg, sender, contract_name, contract_version, address_checks@, r),
        r matches Ok((state, _)) ==> {
            &&& state.config.token_listing_fee == msg.token_listing_fee
            &&& state.config.pool_creation_fee == msg.pool_creation_fee
            &&& state.config.burn_fee_percent == msg.burn_fee_percent
            &&& state.config.dev_wallet_list == msg.dev_wallet_list
            &&& match msg.initial_tokens {
                Some(v) => state.tokens@ == v@,
                None => state.tokens@.len() == 0,
            }
            &&& match msg.initial_pools {
                Some(v) => state.pools@ == v@,
                None => state.pools@.len() == 0,
            }
        },
{
    let ghost checks = address_checks@;
    match check_dev_wallets(&msg.dev_wallet_list, address_checks) {
        Ok(()) => {},
        Err(e) => {
            return Err(e);
        },
    }
    let config = Config {
        token_listing_fee: msg.token_listing_fee,
        pool_creation_fee: msg.pool_creation_fee,
        burn_fee_percent: msg.burn_fee_percent,
        dev_wallet_list: msg.dev_wallet_list,
    };
    let tokens = match msg.initial_tokens {
        Some(v) => v,
        None => Vec::new(),
    };
    let pools = match msg.initial_pools {
        Some(v) => v,
        None => Vec::new(),
    };
    let response = Response {
        messages: Vec::new(),
        attributes: vec![
            attribute("action", "instantiate".to_owned()),
            attribute("contract_name", contract_name),
            attribute("contract_version", contract_version),
            attribute("sender", sender),
        ],
    };
    proof {
        assert(response@.attributes =~= seq![
            ("action"@, "instantiate"@),
            ("contract_name"@, contract_name@),
            ("contract_version"@, contract_version@),
            ("sender"@, sender@),
        ]);
        assert(response@.messages =~= Seq::<(Seq<char>, Seq<u8>)>::empty());
    }
    Ok((ContractState { config, tokens, pools }, response))
}

// ---------------------------------------------------------------- create_pool

/// The pool that `sender` asks for.
pub open spec fn requested_pool(sender: String, token1: String, token2: String, burn_ratio: u64, swap_fee: String) -> Pool {
    Pool { token1, token2, creator: sender, burn_ratio, swap_fee }
}

/// The inputs on which creating a pool cannot complete: the fee cannot be
/// charged, or, the fee charged and the burn ratio accepted, the swap fee
/// is not a decimal.
pub open spec fn create_pool_fails(config: Config, burn_ratio: u64, swap_fee: Seq<char>) -> bool {
    let fee = config.pool_creation_fee;
    ||| fee_charge_fails(fee.amount, config.burn_fee_percent, config.dev_wallet_list@)
    ||| !burn_overflows(fee.amount, config.burn_fee_percent) && burn_ratio < 100
        && decimal_from_str_result(swap_fee) is None
}

/// What creating a pool gives, the checks in this order: the pool creation
/// fee overflows (the host's overflow error), the burn ratio is 100 or more, the swap fee
/// is one or more, the same pool exists; otherwise the pool is appended and
/// the response holds the fee's calls and logs the request.
pub open spec fn create_pool_outcome(
    state: ContractState,
    sender: String,
    token1: String,
    token2: String,
    burn_ratio: u64,
    swap_fee: String,
    r: Result<(ContractState, Response), ContractError>,
) -> bool {
    let config = state.config;
    let fee = config.pool_creation_fee;
    let pool = requested_pool(sender, token1, token2, burn_ratio, swap_fee);
    if burn_overflows(fee.amount, config.burn_fee_percent) {
        r == Err::<(ContractState, Response), ContractError>(burn_overflow_error(fee.amount, config.burn_fee_percent))
    } else if burn_ratio >= 100 {
        r matches Err(ContractError::InvalidBurnRatio {})
    } else if swap_fee_too_high(decimal_from_str_result(swap_fee@)->Some_0) {
        r matches Err(ContractError::InvalidSwapFee {})
    } else if pool_exists(state.pools@, pool) {
        r matches Err(ContractError::PoolExists {})
    } else {
        r matches Ok((new_state, resp)) && {
            &&& new_state.config == state.config
            &&& new_state.tokens == state.tokens
            &&& new_state.pools@ == state.pools@.push(pool)
            &&& resp@.messages == fee_calls(
                fee.denom@,
                sender@,
                fee.amount,
                config.burn_fee_percent,
                config.dev_wallet_list@,
            )
            &&& resp@.attributes == seq![
                ("action"@, "create_pool"@),
                ("creator"@, sender@),
                ("token1"@, token1@),
                ("token2"@, token2@),
                ("burn_ratio"@, decimal_text(burn_ratio as nat)),
                ("swap_fee"@, swap_fee@),
            ]
        }
    }
}

/// Creates a pool of `token1` and `token2` for `sender`, charging the pool
/// creation fee.
pub fn create_pool(
    state: ContractState,
    sender: String,
    token1: String,
    token2: String,
    burn_ratio: u64,
    swap_fee: String,
) -> (r: Result<(ContractState, Response), ContractError>)
    requires
        !create_pool_fails(state.config, burn_ratio, swap_fee@),
    ensures
        create_pool_outcome(state, sender, token1, token2, burn_ratio, swap_fee, r),
        r matches Ok((new_state, _)) ==> {
            &&& new_state.pools@ == state.pools@.push(
                Pool { token1: token1, token2: token2, creator: sender, burn_ratio: burn_ratio, swap_fee: swap_fee },
            )
            &&& new_state.tokens == state.tokens
            &&& new_state.config == state.config
        },
        r matches Err(ContractError::PoolExists {}) ==> exists|i: int|
            0 <= i < state.pools@.len() && (#[trigger] state.pools@[i]).token1@ == token1@
                && state.pools@[i].token2@ == token2@ && state.pools@[i].creator@ == sender@
                && state.pools@[i].burn_ratio == burn_ratio && state.pools@[i].swap_fee@ == swap_fee@,
{
    let ghost old_state = state;
    let ContractState { config, tokens, mut pools } = state;
    let messages = match charge_pool_creation_fee(&config, &sender) {
        Ok(m) => m,
        Err(e) => {
            return Err(e);
        },
    };
    if burn_ratio >= 100 {
        return Err(ContractError::InvalidBurnRatio {});
    }
    let fee_atomics = match decimal_from_str(&swap_fee) {
        Some(v) => v,
        None => {
            assert(false);
            return Err(ContractError::InvalidSwapFee {});
        },
    };
    if swap_fee_refused(fee_atomics) {
        return Err(ContractError::InvalidSwapFee {});
    }
    let ghost pool = requested_pool(sender, token1, token2, burn_ratio, swap_fee);
    let n = pools.len();
    let mut i: usize = 0;
    while i < n
        invariant
            n == pools.len(),
            0 <= i <= n,
            old_state == state,
            pools@ == old_state.pools@,
            config == old_state.config,
            !burn_overflows(config.pool_creation_fee.amount, config.burn_fee_percent),
            burn_ratio < 100,
            !swap_fee_too_high(decimal_from_str_result(swap_fee@)->Some_0),
            pool == requested_pool(sender, token1, token2, burn_ratio, swap_fee),
            forall|j: int| 0 <= j < i ==> !same_pool(#[trigger] pools@[j], pool),
        decreases n - i,
    {
        let p = &pools[i];
        if p.creator == sender && p.token1 == token1 && p.token2 == token2 && p.burn_ratio == burn_ratio
            && p.swap_fee == swap_fee {
            assert(same_pool(old_state.pools@[i as int], pool));
            assert(pool_exists(old_state.pools@, pool));
            return Err(ContractError::PoolExists {});
        }
        i = i + 1;
    }
    pools.push(
        Pool {
            token1: token1.clone(),
            token2: token2.clone(),
            creator: sender.clone(),
            burn_ratio,
            swap_fee: swap_fee.clone(),
        },
    );
    let response = Response {
        messages,
        attributes: vec![
            attribute("action", "create_pool".to_owned()),
            attribute("creator", sender),
            attribute("token1", token1),
            attribute("token2", token2),
            attribute("burn_ratio", u64_to_string(burn_ratio)),
            attribute("swap_fee", swap_fee),
        ],
    };
    proof {
        assert(response@.attributes =~= seq![
            ("action"@, "create_pool"@),
            ("creator"@, sender@),
            ("token1"@, token1@),
            ("token2"@, token2@),
            ("burn_ratio"@, decimal_text(burn_ratio as nat)),
            ("swap_fee"@, swap_fee@),
        ]);
    }
    Ok((ContractState { config, tokens, pools }, response))
}

// ---------------------------------------------------------------- list_token

/// The token that `list_token` appends.
pub open spec fn requested_token(
    denom: String,
    full_name: String,
    symbol: String,
    chain: Chain,
    is_native_coin: bool,
    is_ibc_coin: bool,
    decimal: u64,
    logo_uri: String,
) -> Token {
    Token { denom, full_name, symbol, chain, is_native_coin, is_ibc_coin, decimal, logo_uri }
}

/// The inputs on which listing a token cannot complete: the token listing
/// fee cannot be charged.
pub open spec fn list_token_fails(config: Config) -> bool {
    fee_charge_fails(config.token_listing_fee.amount, config.burn_fee_percent, config.dev_wallet_list@)
}

/// What listing a token gives: the host's overflow error when the token
/// listing fee overflows; otherwise the token is appended and the response
/// holds the calls that charge the listing fee in its own token and logs
/// the request.
pub open spec fn list_token_outcome(
    state: ContractState,
    sender: String,
    token: Token,
    r: Result<(ContractState, Response), ContractError>,
) -> bool {
    let config = state.config;
    if burn_overflows(config.token_listing_fee.amount, config.burn_fee_percent) {
        r == Err::<(ContractState, Response), ContractError>(
            burn_overflow_error(config.token_listing_fee.amount, config.burn_fee_percent),
        )
    } else {
        r matches Ok((new_state, resp)) && {
            &&& new_state.config == state.config
            &&& new_state.pools == state.pools
            &&& new_state.tokens@ == state.tokens@.push(token)
            &&& resp@.messages == fee_calls(
                config.token_listing_fee.denom@,
                sender@,
                config.token_listing_fee.amount,
                config.burn_fee_percent,
                config.dev_wallet_list@,
            )
            &&& resp@.attributes == seq![
                ("action"@, "list_token"@),
                ("denom"@, token.denom@),
                ("full_name"@, token.full_name@),
                ("symbol"@, token.symbol@),
            ]
        }
    }
}

/// Lists a token on behalf of `sender`, charging the token listing fee.
pub fn list_token(
    state: ContractState,
    sender: String,
    denom: String,
    full_name: String,
    symbol: String,
    chain: Chain,
    is_native_coin: bool,
    is_ibc_coin: bool,
    decimal: u64,
    logo_uri: String,
) -> (r: Result<(ContractState, Response), ContractError>)
    requires
        !list_token_fails(state.config),
    ensures
        list_token_outcome(
            state,
            sender,
            requested_token(denom, full_name, symbol, chain, is_native_coin, is_ibc_coin, decimal, logo_uri),
            r,
        ),
        r matches Ok((new_state, _)) ==> {
            &&& new_state.tokens@ == state.tokens@.push(
                Token {
                    denom: denom,
                    full_name: full_name,
                    symbol: symbol,
                    chain: chain,
                    is_native_coin: is_native_coin,
                    is_ibc_coin: is_ibc_coin,
                    decimal: decimal,
                    logo_uri: logo_uri,
                },
            )
            &&& new_state.pools == state.pools
            &&& new_state.config == state.config
        },
{
    let ContractState { config, mut tokens, pools } = state;
    let messages = match charge_token_list_fee(&config, &sender) {
        Ok(m) => m,
        Err(e) => {
            return Err(e);
        },
    };
    tokens.push(
        Token {
            denom: denom.clone(),
            full_name: full_name.clone(),
            symbol: symbol.clone(),
            chain,
            is_native_coin,
            is_ibc_coin,
            decimal,
            logo_uri,
        },
    );
    let response = Response {
        messages,
        attributes: vec![
            attribute("action", "list_token".to_owned()),
            attribute("denom", denom),
            attribute("full_name", full_name),
            attribute("symbol", symbol),
        ],
    };
    proof {
        assert(response@.attributes =~= seq![
            ("action"@, "list_token"@),
            ("denom"@, denom@),
            ("full_name"@, full_name@),
            ("symbol"@, symbol@),
        ]);
    }
    Ok((ContractState { config, tokens, pools }, response))
}

// ---------------------------------------------------------------- change_config

/// The inputs on which changing the configuration cannot complete: the
/// owner is the sender and the running sum of the new ratios overflows.
pub open spec fn change_config_fails(
    owner_check: Result<(), OwnershipError>,
    dev_wallet_list: Seq<WalletInfo>,
    address_checks: Seq<Result<(), StdError>>,
) -> bool {
    owner_check is Ok && !ratio_sum_fits(dev_wallet_list, address_checks)
}

/// What changing the configuration gives: the ownership error when the
/// sender is not the owner, then the wallet check's refusal; otherwise the
/// new configuration, the tokens and pools unchanged, and a response that
/// logs the action.
pub open spec fn change_config_outcome(
    state: ContractState,
    owner_check: Result<(), OwnershipError>,
    new_config: Config,
    address_checks: Seq<Result<(), StdError>>,
    r: Result<(ContractState, Response), ContractError>,
) -> bool {
    match owner_check {
        Err(e) => r == Err::<(ContractState, Response), ContractError>(ContractError::Ownership(e)),
        Ok(_) => {
            &&& r is Ok <==> wallets_accepted(new_config.dev_wallet_list@, address_checks)
            &&& r matches Err(e) ==> wallet_refusal(new_config.dev_wallet_list@, address_checks, e)
            &&& r matches Ok((new_state, resp)) ==> {
                &&& new_state.config == new_config
                &&& new_state.tokens == state.tokens
                &&& new_state.pools == state.pools
                &&& plain_response(resp@, seq![("action"@, "changed_config"@)])
            }
        },
    }
}

/// Replaces the configuration.  `owner_check` is the host's verdict on
/// whether the sender owns the contract; `address_checks[i]` its verdict on
/// the address of the i-th new developer wallet.
pub fn change_config(
    state: ContractState,
    owner_check: Result<(), OwnershipError>,
    token_listing_fee: Coin,
    pool_creation_fee: Coin,
    burn_fee_percent: u64,
    dev_wallet_list: Vec<WalletInfo>,
    address_checks: Vec<Result<(), StdError>>,
) -> (r: Result<(ContractState, Response), ContractError>)
    requires
        address_checks.len() == dev_wallet_list.len(),
        !change_config_fails(owner_check, dev_wallet_list@, address_checks@),
    ensures
        change_config_outcome(
            state,
            owner_check,
            Config { token_listing_fee, pool_creation_fee, burn_fee_percent, dev_wallet_list },
            address_checks@,
            r,
        ),
        r matches Ok((new_state, _)) ==> {
            &&& new_state.config.token_listing_fee == token_listing_fee
            &&& new_state.config.pool_creation_fee == pool_creation_fee
            &&& new_state.config.burn_fee_percent == burn_fee_percent
            &&& new_state.config.dev_wallet_list == dev_wallet_list
            &&& new_state.tokens == state.tokens
            &&& new_state.pools == state.pools
        },
{
    match owner_check {
        Ok(()) => {},
        Err(e) => {
            return Err(ContractError::Ownership(e));
        },
    }
    match check_dev_wallets(&dev_wallet_list, address_checks) {
        Ok(()) => {},
        Err(e) => {
            return Err(e);
        },
    }
    let config = Config { token_listing_fee, pool_creation_fee, burn_fee_percent, dev_wallet_list };
    let response = Response {
        messages: Vec::new(),
        attributes: vec![attribute("action", "changed_config".to_owned())],
    };
    proof {
        assert(response@.attributes =~= seq![("action"@, "changed_config"@)]);
        assert(response@.messages =~= Seq::<(Seq<char>, Seq<u8>)>::empty());
    }
    Ok((ContractState { config, tokens: state.tokens, pools: state.pools }, response))
}

// ---------------------------------------------------------------- execute

/// The inputs on which the action `msg` cannot complete.
pub open spec fn execute_fails(
    state: ContractState,
    msg: ExecMsg,
    owner_check: Result<(), OwnershipError>,
    address_checks: Seq<Result<(), StdError>>,
) -> bool {
    match msg {
        ExecMsg::CreatePool { burn_ratio, swap_fee, .. } => create_pool_fails(state.config, burn_ratio, swap_fee@),
        ExecMsg::ListToken { .. } => list_token_fails(state.config),
        ExecMsg::ChangeConfig { dev_wallet_lists, .. } => change_config_fails(
            owner_check,
            dev_wallet_lists@,
            address_checks,
        ),
    }
}

/// What the action `msg` gives, as the function for its kind says.
pub open spec fn execute_outcome(
    state: ContractState,
    sender: String,
    msg: ExecMsg,
    owner_check: Result<(), OwnershipError>,
    address_checks: Seq<Result<(), StdError>>,
    r: Result<(ContractState, Response), ContractError>,
) -> bool {
    match msg {
        ExecMsg::CreatePool { token1, token2, burn_ratio, swap_fee } => create_pool_outcome(
            state,
            sender,
            token1,
            token2,
            burn_ratio,
            swap_fee,
            r,
        ),
        ExecMsg::ListToken {
            denom,
            full_name,
            symbol,
            chain,
            is_native_coin,
            is_ibc_coin,
            decimal,
            logo_uri,
        } => list_token_outcome(
            state,
            sender,
            requested_token(denom, full_name, symbol, chain, is_native_coin, is_ibc_coin, decimal, logo_uri),
            r,
        ),
        ExecMsg::ChangeConfig { token_listing_fee, pool_creation_fee, burn_fee_percent, dev_wallet_lists } =>
            change_config_outcome(
            state,
            owner_check,
            Config { token_listing_fee, pool_creation_fee, burn_fee_percent, dev_wallet_list: dev_wallet_lists },
            address_checks,
            r,
        ),
    }
}

/// Performs the action `msg` for `sender`, or gives `None` on the inputs
/// on which it cannot complete (the transaction then aborts).  For
/// `ChangeConfig`, `owner_check` is the host's verdict on whether the
/// sender owns the contract and `address_checks[i]` its verdict on the
/// address of the i-th new developer wallet; other actions ignore both.
pub fn execute(
    state: ContractState,
    sender: String,
    msg: ExecMsg,
    owner_check: Result<(), OwnershipError>,
    address_checks: Vec<Result<(), StdError>>,
) -> (r: Option<Result<(ContractState, Response), ContractError>>)
    requires
        msg matches ExecMsg::ChangeConfig { dev_wallet_lists, .. } ==> address_checks.len()
            == dev_wallet_lists.len(),
    ensures
        r is None <==> execute_fails(state, msg, owner_check, address_checks@),
        r matches Some(res) ==> execute_outcome(state, sender, msg, owner_check, address_checks@, res),
{
    match msg {
        ExecMsg::CreatePool { token1, token2, burn_ratio, swap_fee } => {
            let fee = &state.config.pool_creation_fee;
            let percent = state.config.burn_fee_percent;
            if fee_charge_would_fail(fee.amount, percent, &state.config.dev_wallet_list) {
                return None;
            }
            if !burn_would_overflow(fee.amount, percent) && burn_ratio < 100 && decimal_from_str(
                &swap_fee,
            ).is_none() {
                return None;
            }
            Some(create_pool(state, sender, token1, token2, burn_ratio, swap_fee))
        },
        ExecMsg::ListToken {
            denom,
            full_name,
            symbol,
            chain,
            is_native_coin,
            is_ibc_coin,
            decimal,
            logo_uri,
        } => {
            if fee_charge_would_fail(
                state.config.token_listing_fee.amount,
                state.config.burn_fee_percent,
                &state.config.dev_wallet_list,
            ) {
                return None;
            }
            Some(
                list_token(
                    state,
                    sender,
                    denom,
                    full_name,
                    symbol,
                    chain,
                    is_native_coin,
                    is_ibc_coin,
                    decimal,
                    logo_uri,
                ),
            )
        },
        ExecMsg::ChangeConfig { token_listing_fee, pool_creation_fee, burn_fee_percent, dev_wallet_lists } => {
            if owner_check.is_ok() && ratio_sum_would_overflow(&dev_wallet_lists, &address_checks) {
                return None;
            }
            Some(
                change_config(
                    state,
                    owner_check,
                    token_listing_fee,
                    pool_creation_fee,
                    burn_fee_percent,
                    dev_wallet_lists,
                    address_checks,
                ),
            )
        },
    }
}

// ---------------------------------------------------------------- queries

/// The answer to `QueryMsg::Tokens`: the listed tokens.
pub fn token_list(tokens: Vec<Token>) -> (r: TokensResp)
    ensures
        r.tokens == tokens,
{
    TokensResp { tokens }
}

/// The answer to `QueryMsg::Pools`: the created pools.
pub fn pool_list(pools: Vec<Pool>) -> (r: PoolsResp)
    ensures
        r.pools == pools,
{
    PoolsResp { pools }
}

/// The answer to `QueryMsg::Config`: the configuration.
pub fn config(stored: Config) -> (r: ConfigResp)
    ensures
        r.config == stored,
{
    ConfigResp { config: stored }
}

} // verus!
