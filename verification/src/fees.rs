//! Charging a fee: the burnt part and the share of each developer wallet,
//! as cw20 `BurnFrom` / `TransferFrom` calls on the fee's token contract,
//! drawn from the sender's allowance.
use crate::encode::{cw20_burn_from, cw20_burn_from_json, cw20_transfer_from, cw20_transfer_from_json};
use crate::error::ContractError;
use crate::fixed_point::{
    checked_mul_overflow_error, uint128_checked_div, uint128_checked_mul, uint128_checked_multiply_ratio, uint128_mul_decimal,
    uint128_sub, DECIMAL_FRACTIONAL,
};
use crate::response::{CallView, ExecuteCall};
use crate::state::{Config, WalletInfo};
use vstd::prelude::*;

verus! {

/// The burnt part of a fee: `burn_fee_percent` percent of it, rounded down
/// (nothing when the percentage is zero).
pub open spec fn burn_amount(amount: u128, percent: u64) -> int {
    if percent == 0 {
        0
    } else {
        amount * percent / 100
    }
}

/// Computing the burnt part overflows 128 bits; the charge is then refused.
pub open spec fn burn_overflows(amount: u128, percent: u64) -> bool {
    percent != 0 && amount * percent > u128::MAX
}

/// What is left of the fee for the developer wallets.
pub open spec fn transfer_amount(amount: u128, percent: u64) -> int {
    amount - burn_amount(amount, percent)
}

/// The share of a wallet with ratio `ratio` (atomics) in `transfer`, rounded
/// down.
pub open spec fn wallet_share(transfer: int, ratio: u128) -> int {
    transfer * ratio / (DECIMAL_FRACTIONAL as int)
}

/// The inputs on which charging a fee cannot complete: the burnt part
/// exceeds the fee (a percentage over 100), or a wallet's share does not
/// fit in 128 bits (a ratio over one).
pub open spec fn fee_charge_fails(amount: u128, percent: u64, wallets: Seq<WalletInfo>) -> bool {
    !burn_overflows(amount, percent) && (burn_amount(amount, percent) > amount || exists|i: int|
        0 <= i < wallets.len() && wallet_share(transfer_amount(amount, percent), #[trigger] wallets[i].ratio)
            > u128::MAX)
}

/// The call that burns `amount` of the sender's tokens.
pub open spec fn burn_call(token: Seq<char>, owner: Seq<char>, amount: int) -> CallView {
    (token, cw20_burn_from_json(owner, amount as u128))
}

/// The call that moves `amount` of the sender's tokens to `recipient`.
pub open spec fn transfer_call(token: Seq<char>, owner: Seq<char>, recipient: Seq<char>, amount: int) -> CallView {
    (token, cw20_transfer_from_json(owner, recipient, amount as u128))
}

/// The calls that charge a fee of `amount`, sent to `token`, drawn from
/// `owner`: the burn (only when the percentage is not zero), then one
/// transfer per wallet, in the order of the list.
pub open spec fn fee_calls(
    token: Seq<char>,
    owner: Seq<char>,
    amount: u128,
    percent: u64,
    wallets: Seq<WalletInfo>,
) -> Seq<CallView> {
    let transfers = Seq::new(
        wallets.len(),
        |i: int|
            transfer_call(
                token,
                owner,
                wallets[i].address@,
                wallet_share(transfer_amount(amount, percent), wallets[i].ratio),
            ),
    );
    if percent == 0 {
        transfers
    } else {
        seq![burn_call(token, owner, burn_amount(amount, percent))] + transfers
    }
}

/// The host error of a burnt part that overflows.
pub open spec fn burn_overflow_error(amount: u128, percent: u64) -> ContractError {
    ContractError::Std(checked_mul_overflow_error(amount, percent as u128))
}

/// The outcome of charging a fee: the calls of `fee_calls`, or the host's
/// overflow error when the burnt part overflows.
pub open spec fn fee_charge_outcome(
    token: Seq<char>,
    owner: Seq<char>,
    amount: u128,
    percent: u64,
    wallets: Seq<WalletInfo>,
    r: Result<Vec<ExecuteCall>, ContractError>,
) -> bool {
    match r {
        Ok(calls) => !burn_overflows(amount, percent) && calls@.map_values(|c: ExecuteCall| c@) == fee_calls(
            token,
            owner,
            amount,
            percent,
            wallets,
        ),
        Err(e) => burn_overflows(amount, percent) && e == burn_overflow_error(amount, percent),
    }
}

/// Charges a fee of `fee_amount` in the cw20 token at `fee_token`, drawn
/// from `sender`'s allowance, split as `burn_fee_percent` and `wallets` say.
pub fn charge_fee(
    fee_amount: u128,
    fee_token: &String,
    burn_fee_percent: u64,
    wallets: &Vec<WalletInfo>,
    sender: &String,
) -> (r: Result<Vec<ExecuteCall>, ContractError>)
    requires
        !fee_charge_fails(fee_amount, burn_fee_percent, wallets@),
    ensures
        fee_charge_outcome(fee_token@, sender@, fee_amount, burn_fee_percent, wallets@, r),
{
    let mut messages: Vec<ExecuteCall> = Vec::new();
    let burn_fee_amount: u128;
    if burn_fee_percent == 0 {
        burn_fee_amount = 0;
    } else {
        let product = match uint128_checked_mul(fee_amount, burn_fee_percent as u128) {
            Ok(v) => v,
            Err(e) => {
                return Err(ContractError::Std(e));
            },
        };
        burn_fee_amount = match uint128_checked_div(product, 100) {
            Ok(v) => v,
            Err(e) => {
                return Err(ContractError::Std(e));
            },
        };
        let msg = match cw20_burn_from(sender.clone(), burn_fee_amount) {
            Ok(b) => b,
            Err(e) => {
                return Err(ContractError::Std(e));
            },
        };
        messages.push(ExecuteCall { contract_addr: fee_token.clone(), msg });
    }
    let ghost head = messages@.map_values(|c: ExecuteCall| c@);
    let ghost expected = fee_calls(fee_token@, sender@, fee_amount, burn_fee_percent, wallets@);
    let ghost skip: int = if burn_fee_percent == 0 { 0 } else { 1 };
    assert(burn_fee_amount == burn_amount(fee_amount, burn_fee_percent));
    let transfer = uint128_sub(fee_amount, burn_fee_amount);
    let n = wallets.len();
    let mut i: usize = 0;
    while i < n
        invariant
            n == wallets.len(),
            0 <= i <= n,
            !fee_charge_fails(fee_amount, burn_fee_percent, wallets@),
            !burn_overflows(fee_amount, burn_fee_percent),
            transfer == transfer_amount(fee_amount, burn_fee_percent),
            expected == fee_calls(fee_token@, sender@, fee_amount, burn_fee_percent, wallets@),
            skip == (if burn_fee_percent == 0 { 0int } else { 1int }),
            messages.len() == skip + i,
            forall|j: int| 0 <= j < skip + i ==> (#[trigger] messages@[j])@ == expected[j],
        decreases n - i,
    {
        assert(wallet_share(transfer as int, wallets@[i as int].ratio) <= u128::MAX);
        let share = uint128_mul_decimal(transfer, wallets[i].ratio);
        let msg = match cw20_transfer_from(sender.clone(), wallets[i].address.clone(), share) {
            Ok(b) => b,
            Err(e) => {
                return Err(ContractError::Std(e));
            },
        };
        messages.push(ExecuteCall { contract_addr: fee_token.clone(), msg });
        i = i + 1;
    }
    assert(messages@.map_values(|c: ExecuteCall| c@) =~= expected);
    Ok(messages)
}

/// Charges the pool creation fee of `config` to `sender`.
pub fn charge_pool_creation_fee(config: &Config, sender: &String) -> (r: Result<Vec<ExecuteCall>, ContractError>)
    requires
        !fee_charge_fails(config.pool_creation_fee.amount, config.burn_fee_percent, config.dev_wallet_list@),
    ensures
        fee_charge_outcome(
            config.pool_creation_fee.denom@,
            sender@,
            config.pool_creation_fee.amount,
            config.burn_fee_percent,
            config.dev_wallet_list@,
            r,
        ),
{
    charge_fee(
        config.pool_creation_fee.amount,
        &config.pool_creation_fee.denom,
        config.burn_fee_percent,
        &config.dev_wallet_list,
        sender,
    )
}

/// Charges the token listing fee of `config` to `sender`, in the cw20 token
/// of that fee.
pub fn charge_token_list_fee(config: &Config, sender: &String) -> (r: Result<Vec<ExecuteCall>, ContractError>)
    requires
        !fee_charge_fails(config.token_listing_fee.amount, config.burn_fee_percent, config.dev_wallet_list@),
    ensures
        fee_charge_outcome(
            config.token_listing_fee.denom@,
            sender@,
            config.token_listing_fee.amount,
            config.burn_fee_percent,
            config.dev_wallet_list@,
            r,
        ),
{
    charge_fee(
        config.token_listing_fee.amount,
        &config.token_listing_fee.denom,
        config.burn_fee_percent,
        &config.dev_wallet_list,
        sender,
    )
}

/// Tells whether computing the burnt part of a fee overflows (see
/// `burn_overflows`).
pub fn burn_would_overflow(fee_amount: u128, burn_fee_percent: u64) -> (r: bool)
    ensures
        r == burn_overflows(fee_amount, burn_fee_percent),
{
    burn_fee_percent != 0 && fee_amount.checked_mul(burn_fee_percent as u128).is_none()
}

/// Tells whether charging a fee of `fee_amount` split as `burn_fee_percent`
/// and `wallets` cannot complete (see `fee_charge_fails`).
pub fn fee_charge_would_fail(fee_amount: u128, burn_fee_percent: u64, wallets: &Vec<WalletInfo>) -> (r: bool)
    ensures
        r == fee_charge_fails(fee_amount, burn_fee_percent, wallets@),
{
    let mut burn: u128 = 0;
    if burn_fee_percent != 0 {
        match fee_amount.checked_mul(burn_fee_percent as u128) {
            None => {
                return false;
            },
            Some(p) => {
                burn = p / 100;
            },
        }
        if burn > fee_amount {
            return true;
        }
    }
    assert(burn == burn_amount(fee_amount, burn_fee_percent));
    let transfer = fee_amount - burn;
    let n = wallets.len();
    let mut i: usize = 0;
    while i < n
        invariant
            n == wallets.len(),
            0 <= i <= n,
            transfer == transfer_amount(fee_amount, burn_fee_percent),
            !burn_overflows(fee_amount, burn_fee_percent),
            burn_amount(fee_amount, burn_fee_percent) <= fee_amount,
            forall|j: int|
                0 <= j < i ==> wallet_share(transfer as int, (#[trigger] wallets@[j]).ratio) <= u128::MAX,
        decreases n - i,
    {
        if uint128_checked_multiply_ratio(transfer, wallets[i].ratio, DECIMAL_FRACTIONAL).is_none() {
            return true;
        }
        i = i + 1;
    }
    false
}

} // verus!
