//! Encodings the contract produces through outside code: the JSON of the
//! cw20 messages it sends, and the decimal text of an integer.
use cosmwasm_std::{to_binary, StdError, Uint128};
use cw20::Cw20ExecuteMsg;
use vstd::prelude::*;

verus! {

/// The bytes `cosmwasm_std::to_binary` gives for
/// `Cw20ExecuteMsg::BurnFrom { owner, amount }`.
pub uninterp spec fn cw20_burn_from_json(owner: Seq<char>, amount: u128) -> Seq<u8>;

/// The bytes `cosmwasm_std::to_binary` gives for
/// `Cw20ExecuteMsg::TransferFrom { owner, recipient, amount }`.
pub uninterp spec fn cw20_transfer_from_json(owner: Seq<char>, recipient: Seq<char>, amount: u128) -> Seq<u8>;

/// Serialises `Cw20ExecuteMsg::BurnFrom { owner, amount }` with
/// `cosmwasm_std::to_binary`.  Claimed: the result is `Ok`, and its bytes
/// are a function of the two fields.  The serializer behind `to_binary`
/// (serde-json-wasm) fails only through a custom error or an unsupported
/// map key; a variant holding a `String` and a `Uint128` (written as a
/// string) reaches neither.  The exact JSON is not stated.
#[verifier::external_body]
pub(crate) fn cw20_burn_from(owner: String, amount: u128) -> (r: Result<Vec<u8>, StdError>)
    ensures
        r is Ok,
        r matches Ok(b) ==> b@ == cw20_burn_from_json(owner@, amount),
{
    to_binary(&Cw20ExecuteMsg::BurnFrom { owner, amount: Uint128::new(amount) }).map(|b| b.0)
}

/// Serialises `Cw20ExecuteMsg::TransferFrom { owner, recipient, amount }`
/// with `cosmwasm_std::to_binary`.  Claimed as for `cw20_burn_from`: the
/// result is `Ok`, its bytes a function of the three fields; the exact JSON
/// is not stated.
#[verifier::external_body]
pub(crate) fn cw20_transfer_from(owner: String, recipient: String, amount: u128) -> (r: Result<Vec<u8>, StdError>)
    ensures
        r is Ok,
        r matches Ok(b) ==> b@ == cw20_transfer_from_json(owner@, recipient@, amount),
{
    to_binary(&Cw20ExecuteMsg::TransferFrom { owner, recipient, amount: Uint128::new(amount) }).map(|b| b.0)
}

/// The ASCII digit of a value below ten.
pub open spec fn digit_char(d: nat) -> char {
    if d == 0 { '0' } else if d == 1 { '1' } else if d == 2 { '2' } else if d == 3 { '3' }
    else if d == 4 { '4' } else if d == 5 { '5' } else if d == 6 { '6' } else if d == 7 { '7' }
    else if d == 8 { '8' } else { '9' }
}

/// The decimal text of a natural number, without sign or leading zeros.
pub open spec fn decimal_text(n: nat) -> Seq<char>
    decreases n,
{
    if n < 10 {
        seq![digit_char(n)]
    } else {
        decimal_text(n / 10).push(digit_char(n % 10))
    }
}

/// `u64::to_string`, which std documents as the `Display` form: the decimal
/// digits of the value.
#[verifier::external_body]
pub(crate) fn u64_to_string(n: u64) -> (r: String)
    ensures
        r@ == decimal_text(n as nat),
{
    n.to_string()
}

} // verus!
