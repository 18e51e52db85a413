//! Properties of the contract as a whole, proved from the contracts of its
//! functions.
use crate::contract::{
    change_config_outcome, create_pool_outcome, execute_outcome, instantiate_outcome, list_token_outcome, pool_exists,
    pools_distinct, requested_pool, requested_token, same_pool, swap_fee_too_high, SWAP_FEE_LIMIT,
};
use crate::error::ContractError;
use crate::encode::{cw20_burn_from_json, cw20_transfer_from_json, decimal_text};
use crate::fees::{burn_amount, fee_calls, fee_charge_fails, transfer_amount, wallet_share};
use crate::fixed_point::{decimal_from_str_result, DECIMAL_FRACTIONAL};
use crate::msg::{ExecMsg, InstantiateMsg};
use crate::response::Response;
use crate::state::{Chain, Coin, Config, ContractState, Pool, Token, WalletInfo};
use cosmwasm_std::StdError;
use crate::wallets::{addresses_accepted, ratio_sum, wallets_valid};
use cw_ownable::OwnershipError;
use vstd::arithmetic::div_mod::{lemma_div_is_ordered, lemma_fundamental_div_mod};
use vstd::arithmetic::mul::{lemma_mul_inequality, lemma_mul_is_distributive_add};
use vstd::prelude::*;

verus! {

/// The sum of the wallets' shares in `transfer`, each rounded down.
pub open spec fn share_sum(transfer: int, wallets: Seq<WalletInfo>) -> int
    decreases wallets.len(),
{
    if wallets.len() == 0 {
        0
    } else {
        share_sum(transfer, wallets.drop_last()) + wallet_share(transfer, wallets.last().ratio)
    }
}

proof fn lemma_share_rounding(t: int, r: int)
    requires
        t >= 0,
        r >= 0,
    ensures
        0 <= t * r - DECIMAL_FRACTIONAL * (t * r / (DECIMAL_FRACTIONAL as int)) < DECIMAL_FRACTIONAL,
{
    let p = t * r;
    assert(p >= 0) by (nonlinear_arith)
        requires
            t >= 0,
            r >= 0,
            p == t * r,
    ;
    lemma_fundamental_div_mod(p, DECIMAL_FRACTIONAL as int);
}

/// Rounding each share down loses less than one unit per wallet, and never
/// hands out more than the ratios give.
proof fn lemma_share_sum_bounds(t: int, wallets: Seq<WalletInfo>)
    requires
        t >= 0,
    ensures
        0 <= t * ratio_sum(wallets) - DECIMAL_FRACTIONAL * share_sum(t, wallets),
        t * ratio_sum(wallets) - DECIMAL_FRACTIONAL * share_sum(t, wallets) <= (DECIMAL_FRACTIONAL - 1)
            * wallets.len(),
    decreases wallets.len(),
{
    if wallets.len() > 0 {
        let init = wallets.drop_last();
        let r = wallets.last().ratio as int;
        lemma_share_sum_bounds(t, init);
        lemma_share_rounding(t, r);
        lemma_mul_is_distributive_add(t, ratio_sum(init), r);
        let s0 = share_sum(t, init);
        let s = wallet_share(t, wallets.last().ratio);
        assert(DECIMAL_FRACTIONAL * share_sum(t, wallets) == DECIMAL_FRACTIONAL * s0 + DECIMAL_FRACTIONAL * s)
            by (nonlinear_arith)
            requires
                share_sum(t, wallets) == s0 + s,
        ;
        assert((DECIMAL_FRACTIONAL - 1) * wallets.len() == (DECIMAL_FRACTIONAL - 1) * init.len() + (
        DECIMAL_FRACTIONAL - 1)) by (nonlinear_arith)
            requires
                wallets.len() == init.len() + 1,
        ;
    }
}

proof fn lemma_ratio_sum_nonnegative(wallets: Seq<WalletInfo>)
    ensures
        ratio_sum(wallets) >= 0,
    decreases wallets.len(),
{
    if wallets.len() > 0 {
        lemma_ratio_sum_nonnegative(wallets.drop_last());
    }
}

proof fn lemma_ratio_at_most_sum(wallets: Seq<WalletInfo>, i: int)
    requires
        0 <= i < wallets.len(),
    ensures
        wallets[i].ratio <= ratio_sum(wallets),
    decreases wallets.len(),
{
    let init = wallets.drop_last();
    lemma_ratio_sum_nonnegative(init);
    if i < wallets.len() - 1 {
        lemma_ratio_at_most_sum(init, i);
    }
}

/// With wallets whose ratios sum to one, charging a fee fails only when the
/// burnt part exceeds the fee (never with a percentage of at most 100);
/// whenever it does not exceed it, the burnt part plus the wallets' shares
/// never exceed the fee, and with at least one wallet less than one unit
/// per wallet is left over by rounding.
pub proof fn law_fee_split_within_fee(amount: u128, percent: u64, wallets: Seq<WalletInfo>)
    requires
        wallets_valid(wallets),
    ensures
        percent <= 100 ==> burn_amount(amount, percent) <= amount,
        burn_amount(amount, percent) <= amount ==> {
            &&& !fee_charge_fails(amount, percent, wallets)
            &&& burn_amount(amount, percent) + share_sum(transfer_amount(amount, percent), wallets) <= amount
            &&& wallets.len() > 0 ==> amount - burn_amount(amount, percent) - share_sum(
                transfer_amount(amount, percent),
                wallets,
            ) < wallets.len()
        },
{
    let d = DECIMAL_FRACTIONAL as int;
    if percent != 0 {
        assert(amount * percent >= 0) by (nonlinear_arith)
            requires
                amount >= 0,
                percent >= 0,
        ;
        assert(amount * percent / 100 >= 0) by (nonlinear_arith)
            requires
                amount * percent >= 0,
        ;
        if percent <= 100 {
            lemma_mul_inequality(percent as int, 100, amount as int);
            assert(amount * percent <= amount * 100) by (nonlinear_arith)
                requires
                    percent <= 100,
                    amount >= 0,
            ;
            lemma_div_is_ordered(amount * percent, amount * 100, 100);
            assert(amount * 100 / 100 == amount as int) by (nonlinear_arith);
        }
    }
    if burn_amount(amount, percent) <= amount {
        let t = transfer_amount(amount, percent);
        assert(0 <= t <= amount);
        assert forall|i: int| 0 <= i < wallets.len() implies wallet_share(t, #[trigger] wallets[i].ratio)
            <= u128::MAX by {
            lemma_ratio_at_most_sum(wallets, i);
            let r = wallets[i].ratio as int;
            assert(t * r <= t * d) by (nonlinear_arith)
                requires
                    0 <= r <= d,
                    t >= 0,
            ;
            lemma_div_is_ordered(t * r, t * d, d);
            assert(t * d / d == t) by (nonlinear_arith)
                requires
                    d > 0,
            ;
        }
        lemma_share_sum_bounds(t, wallets);
        let s = share_sum(t, wallets);
        let n = wallets.len() as int;
        assert(s <= t && (n > 0 ==> t - s < n)) by (nonlinear_arith)
            requires
                d == 1_000_000_000_000_000_000,
                0 <= t * d - d * s,
                t * d - d * s <= (d - 1) * n,
                n >= 0,
        ;
    }
}

/// A swap fee is refused exactly when it is one or more.
pub proof fn law_swap_fee_refused_iff_at_least_one(atomics: u128)
    ensures
        swap_fee_too_high(atomics) <==> atomics >= DECIMAL_FRACTIONAL,
{
    let d = DECIMAL_FRACTIONAL as int;
    let q = atomics / DECIMAL_FRACTIONAL;
    assert(q * d > SWAP_FEE_LIMIT <==> q >= 1) by (nonlinear_arith)
        requires
            d == 1_000_000_000_000_000_000,
            q >= 0,
    ;
}

/// Every successful action keeps the developer wallets' ratios summing to
/// one: a new configuration is accepted only with such wallets, and the
/// other actions leave the configuration as it was.
pub proof fn law_wallet_ratios_stay_valid(
    state: ContractState,
    sender: String,
    msg: ExecMsg,
    owner_check: Result<(), OwnershipError>,
    address_checks: Seq<Result<(), StdError>>,
    r: Result<(ContractState, Response), ContractError>,
)
    requires
        wallets_valid(state.config.dev_wallet_list@),
        execute_outcome(state, sender, msg, owner_check, address_checks, r),
        r is Ok,
    ensures
        wallets_valid(r->Ok_0.0.config.dev_wallet_list@),
        msg is ChangeConfig ==> addresses_accepted(
            address_checks,
            r->Ok_0.0.config.dev_wallet_list@.len() as int,
        ),
{
}

/// Every successful action changes one stored item only: creating a pool
/// the pools, listing a token the tokens, changing the configuration the
/// configuration.
pub proof fn law_action_touches_one_item(
    state: ContractState,
    sender: String,
    msg: ExecMsg,
    owner_check: Result<(), OwnershipError>,
    address_checks: Seq<Result<(), StdError>>,
    r: Result<(ContractState, Response), ContractError>,
)
    requires
        execute_outcome(state, sender, msg, owner_check, address_checks, r),
        r is Ok,
    ensures
        !(msg is CreatePool) ==> r->Ok_0.0.pools == state.pools,
        !(msg is ListToken) ==> r->Ok_0.0.tokens == state.tokens,
        !(msg is ChangeConfig) ==> r->Ok_0.0.config == state.config,
{
}

/// Only the owner changes the configuration: an action that ends with
/// another configuration is a `ChangeConfig` whose sender the host reported
/// as the owner, and a `ChangeConfig` from anyone else is refused with the
/// host's ownership error.
pub proof fn law_only_owner_changes_config(
    state: ContractState,
    sender: String,
    msg: ExecMsg,
    owner_check: Result<(), OwnershipError>,
    address_checks: Seq<Result<(), StdError>>,
    r: Result<(ContractState, Response), ContractError>,
)
    requires
        execute_outcome(state, sender, msg, owner_check, address_checks, r),
    ensures
        r matches Ok((new_state, _)) && new_state.config != state.config ==> msg is ChangeConfig
            && owner_check is Ok,
        msg is ChangeConfig && owner_check is Err ==> r == Err::<
            (ContractState, Response),
            ContractError,
        >(ContractError::Ownership(owner_check->Err_0)),
{
}

/// Creating a pool never makes two pools the same: a pool is appended only
/// when no pool like it exists (a refusal stores nothing).
pub proof fn law_create_pool_keeps_pools_distinct(
    state: ContractState,
    sender: String,
    token1: String,
    token2: String,
    burn_ratio: u64,
    swap_fee: String,
    r: Result<(ContractState, Response), ContractError>,
)
    requires
        pools_distinct(state.pools@),
        create_pool_outcome(state, sender, token1, token2, burn_ratio, swap_fee, r),
    ensures
        r matches Ok((new_state, _)) ==> pools_distinct(new_state.pools@),
{
    if r is Ok {
        let old = state.pools@;
        let new = r->Ok_0.0.pools@;
        let pool = requested_pool(sender, token1, token2, burn_ratio, swap_fee);
        assert(new == old.push(pool));
        assert forall|a: int, b: int| 0 <= a < b < new.len() implies !same_pool(
            #[trigger] new[a],
            #[trigger] new[b],
        ) by {
            if b == new.len() - 1 {
                assert(new[a] == old[a]);
                if same_pool(old[a], pool) {
                    assert(pool_exists(old, pool));
                }
            } else {
                assert(new[a] == old[a] && new[b] == old[b]);
            }
        }
    }
}

/// Successful actions never make two pools the same.
pub proof fn law_pools_stay_distinct(
    state: ContractState,
    sender: String,
    msg: ExecMsg,
    owner_check: Result<(), OwnershipError>,
    address_checks: Seq<Result<(), StdError>>,
    r: Result<(ContractState, Response), ContractError>,
)
    requires
        pools_distinct(state.pools@),
        execute_outcome(state, sender, msg, owner_check, address_checks, r),
        r is Ok,
    ensures
        pools_distinct(r->Ok_0.0.pools@),
{
    if let ExecMsg::CreatePool { token1, token2, burn_ratio, swap_fee } = msg {
        law_create_pool_keeps_pools_distinct(state, sender, token1, token2, burn_ratio, swap_fee, r);
    }
}

/// No action removes, edits or reorders a stored pool or token: after a
/// successful action the pools and tokens held before are a prefix of those
/// held after, and at most one of each is appended.
pub proof fn law_stored_lists_only_grow(
    state: ContractState,
    sender: String,
    msg: ExecMsg,
    owner_check: Result<(), OwnershipError>,
    address_checks: Seq<Result<(), StdError>>,
    r: Result<(ContractState, Response), ContractError>,
)
    requires
        execute_outcome(state, sender, msg, owner_check, address_checks, r),
        r is Ok,
    ensures
        state.pools@.len() <= r->Ok_0.0.pools@.len() <= state.pools@.len() + 1,
        r->Ok_0.0.pools@.take(state.pools@.len() as int) == state.pools@,
        state.tokens@.len() <= r->Ok_0.0.tokens@.len() <= state.tokens@.len() + 1,
        r->Ok_0.0.tokens@.take(state.tokens@.len() as int) == state.tokens@,
{
    let new = r->Ok_0.0;
    assert(new.pools@.len() > state.pools@.len() ==> new.pools@.take(state.pools@.len() as int)
        =~= state.pools@);
    assert(new.tokens@.len() > state.tokens@.len() ==> new.tokens@.take(state.tokens@.len() as int)
        =~= state.tokens@);
    assert(new.pools == state.pools ==> new.pools@.take(state.pools@.len() as int) =~= state.pools@);
    assert(new.tokens == state.tokens ==> new.tokens@.take(state.tokens@.len() as int) =~= state.tokens@);
}

/// An action performed through the dispatcher gives what the function for
/// its kind gives: `create_pool`, `list_token` or `change_config`, with the
/// message's fields in order.
pub proof fn law_execute_runs_the_action(
    state: ContractState,
    sender: String,
    msg: ExecMsg,
    owner_check: Result<(), OwnershipError>,
    address_checks: Seq<Result<(), StdError>>,
    r: Result<(ContractState, Response), ContractError>,
)
    ensures
        execute_outcome(state, sender, msg, owner_check, address_checks, r) <==> match msg {
            ExecMsg::CreatePool { token1, token2, burn_ratio, swap_fee } => create_pool_outcome(
                state,
                sender,
                token1,
                token2,
                burn_ratio,
                swap_fee,
                r,
            ),
            ExecMsg::ListToken {
                denom,
                full_name,
                symbol,
                chain,
                is_native_coin,
                is_ibc_coin,
                decimal,
                logo_uri,
            } => list_token_outcome(
                state,
                sender,
                requested_token(denom, full_name, symbol, chain, is_native_coin, is_ibc_coin, decimal, logo_uri),
                r,
            ),
            ExecMsg::ChangeConfig { token_listing_fee, pool_creation_fee, burn_fee_percent, dev_wallet_lists } =>
                change_config_outcome(
                state,
                owner_check,
                Config {
                    token_listing_fee,
                    pool_creation_fee,
                    burn_fee_percent,
                    dev_wallet_list: dev_wallet_lists,
                },
                address_checks,
                r,
            ),
        },
{
}

/// Asking again for a pool that was just created is refused with
/// `PoolExists`.
pub proof fn law_repeated_pool_refused(
    state: ContractState,
    sender: String,
    token1: String,
    token2: String,
    burn_ratio: u64,
    swap_fee: String,
    first: Result<(ContractState, Response), ContractError>,
    second: Result<(ContractState, Response), ContractError>,
)
    requires
        create_pool_outcome(state, sender, token1, token2, burn_ratio, swap_fee, first),
        first is Ok,
        create_pool_outcome(first->Ok_0.0, sender, token1, token2, burn_ratio, swap_fee, second),
    ensures
        second matches Err(ContractError::PoolExists {}),
{
    let pools = first->Ok_0.0.pools@;
    let pool = requested_pool(sender, token1, token2, burn_ratio, swap_fee);
    assert(pools[pools.len() - 1] == pool);
    assert(same_pool(pools[pools.len() - 1], pool));
}

/// A created pool has a burn ratio under 100 and a swap fee that parses as
/// a decimal below one.
pub proof fn law_created_pool_is_within_limits(
    state: ContractState,
    sender: String,
    token1: String,
    token2: String,
    burn_ratio: u64,
    swap_fee: String,
    r: Result<(ContractState, Response), ContractError>,
)
    requires
        !crate::contract::create_pool_fails(state.config, burn_ratio, swap_fee@),
        create_pool_outcome(state, sender, token1, token2, burn_ratio, swap_fee, r),
        r is Ok,
    ensures
        burn_ratio < 100,
        decimal_from_str_result(swap_fee@) matches Some(a) && a < DECIMAL_FRACTIONAL,
{
    law_swap_fee_refused_iff_at_least_one(decimal_from_str_result(swap_fee@)->Some_0);
}

/// Creating a pool is refused as a duplicate only when a stored pool has
/// the same first token, second token, creator, burn ratio and swap fee;
/// and when the fee can be charged, the burn ratio is under 100, the swap
/// fee parses below one and no stored pool matches on all five fields, the
/// request succeeds and exactly that pool is appended.
pub proof fn law_create_pool_refuses_only_exact_duplicates(
    state: ContractState,
    sender: String,
    token1: String,
    token2: String,
    burn_ratio: u64,
    swap_fee: String,
    owner_check: Result<(), OwnershipError>,
    address_checks: Seq<Result<(), StdError>>,
    r: Result<(ContractState, Response), ContractError>,
)
    requires
        execute_outcome(
            state,
            sender,
            ExecMsg::CreatePool { token1, token2, burn_ratio, swap_fee },
            owner_check,
            address_checks,
            r,
        ),
    ensures
        r matches Err(ContractError::PoolExists {}) ==> exists|i: int|
            0 <= i < state.pools@.len() && (#[trigger] state.pools@[i]).token1@ == token1@
                && state.pools@[i].token2@ == token2@ && state.pools@[i].creator@ == sender@
                && state.pools@[i].burn_ratio == burn_ratio && state.pools@[i].swap_fee@ == swap_fee@,
        ({
            let fee = state.config.pool_creation_fee.amount;
            let percent = state.config.burn_fee_percent;
            &&& percent == 0 || fee * percent <= u128::MAX
            &&& burn_ratio < 100
            &&& (decimal_from_str_result(swap_fee@) matches Some(a) && a < DECIMAL_FRACTIONAL)
            &&& forall|i: int|
                0 <= i < state.pools@.len() ==> !((#[trigger] state.pools@[i]).token1@ == token1@
                    && state.pools@[i].token2@ == token2@ && state.pools@[i].creator@ == sender@
                    && state.pools@[i].burn_ratio == burn_ratio && state.pools@[i].swap_fee@ == swap_fee@)
        }) ==> (r matches Ok((new_state, _)) && new_state.pools@ == state.pools@.push(
            Pool { token1: token1, token2: token2, creator: sender, burn_ratio: burn_ratio, swap_fee: swap_fee },
        )),
{
    let pool = requested_pool(sender, token1, token2, burn_ratio, swap_fee);
    if r matches Err(ContractError::PoolExists {}) {
        let i = choose|i: int| 0 <= i < state.pools@.len() && same_pool(#[trigger] state.pools@[i], pool);
        assert(same_pool(state.pools@[i], pool));
    }
    if let Some(a) = decimal_from_str_result(swap_fee@) {
        law_swap_fee_refused_iff_at_least_one(a);
    }
    if pool_exists(state.pools@, pool) {
        let i = choose|i: int| 0 <= i < state.pools@.len() && same_pool(#[trigger] state.pools@[i], pool);
        assert(same_pool(state.pools@[i], pool));
    }
}

/// A configuration accepted by `ChangeConfig` is the one requested: its
/// listing fee, pool creation fee, burn percentage and developer wallets
/// are the message's, each in its own place.
pub proof fn law_change_config_stores_request(
    state: ContractState,
    sender: String,
    token_listing_fee: Coin,
    pool_creation_fee: Coin,
    burn_fee_percent: u64,
    dev_wallet_lists: Vec<WalletInfo>,
    owner_check: Result<(), OwnershipError>,
    address_checks: Seq<Result<(), StdError>>,
    r: Result<(ContractState, Response), ContractError>,
)
    requires
        execute_outcome(
            state,
            sender,
            ExecMsg::ChangeConfig { token_listing_fee, pool_creation_fee, burn_fee_percent, dev_wallet_lists },
            owner_check,
            address_checks,
            r,
        ),
        r is Ok,
    ensures
        r->Ok_0.0.config.token_listing_fee == token_listing_fee,
        r->Ok_0.0.config.pool_creation_fee == pool_creation_fee,
        r->Ok_0.0.config.burn_fee_percent == burn_fee_percent,
        r->Ok_0.0.config.dev_wallet_list == dev_wallet_lists,
        r->Ok_0.0.tokens == state.tokens,
        r->Ok_0.0.pools == state.pools,
{
}

/// A successful instantiation stores the message's fees, burn percentage
/// and wallets, the initial tokens and pools when given, and none when
/// absent.
pub proof fn law_instantiate_stores_message(
    msg: InstantiateMsg,
    sender: String,
    contract_name: String,
    contract_version: String,
    address_checks: Seq<Result<(), StdError>>,
    r: Result<(ContractState, Response), ContractError>,
)
    requires
        instantiate_outcome(msg, sender, contract_name, contract_version, address_checks, r),
        r is Ok,
    ensures
        r->Ok_0.0.config.token_listing_fee == msg.token_listing_fee,
        r->Ok_0.0.config.pool_creation_fee == msg.pool_creation_fee,
        r->Ok_0.0.config.burn_fee_percent == msg.burn_fee_percent,
        r->Ok_0.0.config.dev_wallet_list == msg.dev_wallet_list,
        msg.initial_tokens matches Some(v) ==> r->Ok_0.0.tokens@ == v@,
        msg.initial_tokens is None ==> r->Ok_0.0.tokens@.len() == 0,
        msg.initial_pools matches Some(v) ==> r->Ok_0.0.pools@ == v@,
        msg.initial_pools is None ==> r->Ok_0.0.pools@.len() == 0,
{
}

/// A successful `ListToken` appends one token whose every field is the one
/// the lister gave, and changes nothing else.
pub proof fn law_list_token_appends_request(
    state: ContractState,
    sender: String,
    denom: String,
    full_name: String,
    symbol: String,
    chain: Chain,
    is_native_coin: bool,
    is_ibc_coin: bool,
    decimal: u64,
    logo_uri: String,
    owner_check: Result<(), OwnershipError>,
    address_checks: Seq<Result<(), StdError>>,
    r: Result<(ContractState, Response), ContractError>,
)
    requires
        execute_outcome(
            state,
            sender,
            ExecMsg::ListToken {
                denom,
                full_name,
                symbol,
                chain,
                is_native_coin,
                is_ibc_coin,
                decimal,
                logo_uri,
            },
            owner_check,
            address_checks,
            r,
        ),
        r is Ok,
    ensures
        r->Ok_0.0.tokens@.len() == state.tokens@.len() + 1,
        r->Ok_0.0.tokens@.take(state.tokens@.len() as int) == state.tokens@,
        r->Ok_0.0.tokens@.last().denom == denom,
        r->Ok_0.0.tokens@.last().full_name == full_name,
        r->Ok_0.0.tokens@.last().symbol == symbol,
        r->Ok_0.0.tokens@.last().chain == chain,
        r->Ok_0.0.tokens@.last().is_native_coin == is_native_coin,
        r->Ok_0.0.tokens@.last().is_ibc_coin == is_ibc_coin,
        r->Ok_0.0.tokens@.last().decimal == decimal,
        r->Ok_0.0.tokens@.last().logo_uri == logo_uri,
        r->Ok_0.0.pools == state.pools,
        r->Ok_0.0.config == state.config,
{
    assert(r->Ok_0.0.tokens@.take(state.tokens@.len() as int) =~= state.tokens@);
}

/// The calls that charge a fee: when the percentage is not zero, first a
/// burn of `amount * percent / 100` (rounded down) from the owner; then, for
/// each wallet in order, a transfer to its address of the rest of the fee
/// times its ratio, over 10^18, rounded down; every call to `token`.
pub proof fn law_fee_calls_burn_then_split(
    token: Seq<char>,
    owner: Seq<char>,
    amount: u128,
    percent: u64,
    wallets: Seq<WalletInfo>,
)
    ensures
        ({
            let calls = fee_calls(token, owner, amount, percent, wallets);
            let skip: int = if percent == 0 { 0 } else { 1 };
            let burnt: int = if percent == 0 { 0 } else { amount * percent / 100 };
            &&& calls.len() == skip + wallets.len()
            &&& percent != 0 ==> calls[0] == (token, cw20_burn_from_json(owner, burnt as u128))
            &&& forall|i: int|
                0 <= i < wallets.len() ==> #[trigger] calls[skip + i] == (
                    token,
                    cw20_transfer_from_json(
                        owner,
                        wallets[i].address@,
                        ((amount - burnt) * wallets[i].ratio / 1_000_000_000_000_000_000int) as u128,
                    ),
                )
        }),
{
}

/// The sum of the wallets' ratios adds up each ratio once: none for no
/// wallet, and one more ratio for one more wallet.
pub proof fn law_ratio_sum_adds_each_ratio(wallets: Seq<WalletInfo>, wallet: WalletInfo)
    ensures
        ratio_sum(Seq::<WalletInfo>::empty()) == 0,
        ratio_sum(wallets.push(wallet)) == ratio_sum(wallets) + wallet.ratio,
{
    assert(wallets.push(wallet).drop_last() =~= wallets);
}

/// A successful `CreatePool` answers with the calls that charge the pool
/// creation fee in its own token to the sender, and logs the action, the
/// creator, both tokens, the burn ratio in decimal and the swap fee.
pub proof fn law_create_pool_response(
    state: ContractState,
    sender: String,
    token1: String,
    token2: String,
    burn_ratio: u64,
    swap_fee: String,
    owner_check: Result<(), OwnershipError>,
    address_checks: Seq<Result<(), StdError>>,
    r: Result<(ContractState, Response), ContractError>,
)
    requires
        execute_outcome(
            state,
            sender,
            ExecMsg::CreatePool { token1, token2, burn_ratio, swap_fee },
            owner_check,
            address_checks,
            r,
        ),
        r is Ok,
    ensures
        r->Ok_0.1@.messages == fee_calls(
            state.config.pool_creation_fee.denom@,
            sender@,
            state.config.pool_creation_fee.amount,
            state.config.burn_fee_percent,
            state.config.dev_wallet_list@,
        ),
        r->Ok_0.1@.attributes == seq![
            ("action"@, "create_pool"@),
            ("creator"@, sender@),
            ("token1"@, token1@),
            ("token2"@, token2@),
            ("burn_ratio"@, decimal_text(burn_ratio as nat)),
            ("swap_fee"@, swap_fee@),
        ],
{
}

/// A successful `ListToken` answers with the calls that charge the token
/// listing fee in its own token to the sender, and logs the action, the
/// denomination, the full name and the symbol.
pub proof fn law_list_token_response(
    state: ContractState,
    sender: String,
    denom: String,
    full_name: String,
    symbol: String,
    chain: Chain,
    is_native_coin: bool,
    is_ibc_coin: bool,
    decimal: u64,
    logo_uri: String,
    owner_check: Result<(), OwnershipError>,
    address_checks: Seq<Result<(), StdError>>,
    r: Result<(ContractState, Response), ContractError>,
)
    requires
        execute_outcome(
            state,
            sender,
            ExecMsg::ListToken {
                denom,
                full_name,
                symbol,
                chain,
                is_native_coin,
                is_ibc_coin,
                decimal,
                logo_uri,
            },
            owner_check,
            address_checks,
            r,
        ),
        r is Ok,
    ensures
        r->Ok_0.1@.messages == fee_calls(
            state.config.token_listing_fee.denom@,
            sender@,
            state.config.token_listing_fee.amount,
            state.config.burn_fee_percent,
            state.config.dev_wallet_list@,
        ),
        r->Ok_0.1@.attributes == seq![
            ("action"@, "list_token"@),
            ("denom"@, denom@),
            ("full_name"@, full_name@),
            ("symbol"@, symbol@),
        ],
{
}

/// A successful `ChangeConfig` sends nothing and logs only the action.
pub proof fn law_change_config_response(
    state: ContractState,
    sender: String,
    token_listing_fee: Coin,
    pool_creation_fee: Coin,
    burn_fee_percent: u64,
    dev_wallet_lists: Vec<WalletInfo>,
    owner_check: Result<(), OwnershipError>,
    address_checks: Seq<Result<(), StdError>>,
    r: Result<(ContractState, Response), ContractError>,
)
    requires
        execute_outcome(
            state,
            sender,
            ExecMsg::ChangeConfig { token_listing_fee, pool_creation_fee, burn_fee_percent, dev_wallet_lists },
            owner_check,
            address_checks,
            r,
        ),
        r is Ok,
    ensures
        r->Ok_0.1@.messages.len() == 0,
        r->Ok_0.1@.attributes == seq![("action"@, "changed_config"@)],
{
}

/// A successful instantiation sends nothing and logs the action, the
/// contract's name and version and the sender.
pub proof fn law_instantiate_response(
    msg: InstantiateMsg,
    sender: String,
    contract_name: String,
    contract_version: String,
    address_checks: Seq<Result<(), StdError>>,
    r: Result<(ContractState, Response), ContractError>,
)
    requires
        instantiate_outcome(msg, sender, contract_name, contract_version, address_checks, r),
        r is Ok,
    ensures
        r->Ok_0.1@.messages.len() == 0,
        r->Ok_0.1@.attributes == seq![
            ("action"@, "instantiate"@),
            ("contract_name"@, contract_name@),
            ("contract_version"@, contract_version@),
            ("sender"@, sender@),
        ],
{
}

} // verus!
