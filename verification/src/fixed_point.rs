//! Fixed-point and 128-bit arithmetic of `cosmwasm_std`, on plain values.
//!
//! A `cosmwasm_std::Decimal` is carried here as its atomics: the `u128`
//! that holds the value times 10^18.
use cosmwasm_std::{Decimal, StdError, Uint128};
use vstd::prelude::*;

verus! {

/// The atomics of the decimal 1.0 (10^18).
pub const DECIMAL_FRACTIONAL: u128 = 1_000_000_000_000_000_000u128;

/// `Decimal + Decimal`: the sum of the atomics; the outside code panics on
/// overflow, which `requires` rules out.
#[verifier::external_body]
pub(crate) fn decimal_add(a: u128, b: u128) -> (r: u128)
    requires
        a + b <= u128::MAX,
    ensures
        r == a + b,
{
    (Decimal::raw(a) + Decimal::raw(b)).atomics().u128()
}

/// `Decimal == Decimal::one()`: whether the atomics are those of 1.0.
#[verifier::external_body]
pub(crate) fn decimal_is_one(a: u128) -> (r: bool)
    ensures
        r == (a == DECIMAL_FRACTIONAL),
{
    Decimal::raw(a) == Decimal::one()
}

/// `Decimal::floor`: drops the fractional digits, that is the atomics
/// rounded down to a multiple of 10^18.
#[verifier::external_body]
pub(crate) fn decimal_floor(a: u128) -> (r: u128)
    ensures
        r == a / DECIMAL_FRACTIONAL * DECIMAL_FRACTIONAL,
{
    Decimal::raw(a).floor().atomics().u128()
}

/// What `Decimal::from_str` gives for a string: the atomics of the value it
/// parses, or `None` where it returns an error.
pub uninterp spec fn decimal_from_str_result(s: Seq<char>) -> Option<u128>;

/// An ASCII decimal digit.
pub open spec fn is_digit(c: char) -> bool {
    '0' <= c && c <= '9'
}

/// Every character is an ASCII decimal digit.
pub open spec fn all_digits(s: Seq<char>) -> bool {
    forall|i: int| 0 <= i < s.len() ==> is_digit(#[trigger] s[i])
}

/// The value of a string of decimal digits.
pub open spec fn digits_value(s: Seq<char>) -> nat
    decreases s.len(),
{
    if s.len() == 0 {
        0
    } else {
        digits_value(s.drop_last()) * 10 + ((s.last() as u32) - ('0' as u32)) as nat
    }
}

/// Ten to the power `n`.
pub open spec fn pow10(n: nat) -> nat
    decreases n,
{
    if n == 0 {
        1
    } else {
        10 * pow10((n - 1) as nat)
    }
}

/// The atomics `v`, when they fit in 128 bits.
pub open spec fn atomics_if_fits(v: int) -> Option<u128> {
    if 0 <= v <= u128::MAX {
        Some(v as u128)
    } else {
        None
    }
}

/// The atomics of the decimal written `whole.fraction`, the fraction having
/// at most 18 digits.
pub open spec fn plain_decimal_atomics(whole: Seq<char>, fraction: Seq<char>) -> int {
    digits_value(whole) * DECIMAL_FRACTIONAL + digits_value(fraction) * pow10((18 - fraction.len()) as nat)
}

/// `Decimal::from_str`, with the error dropped.  The result is a function
/// of the text.  Claimed besides, for plain forms only: a non-empty string
/// of digits, or two such strings joined by one dot with at most 18 digits
/// after it, parses to its value times 10^18, or to an error when that does
/// not fit in 128 bits.  Other texts (a sign, no digits on one side of the
/// dot, more fractional digits, other characters) are left unstated.
#[verifier::external_body]
pub(crate) fn decimal_from_str(s: &String) -> (r: Option<u128>)
    ensures
        r == decimal_from_str_result(s@),
        s@.len() > 0 && all_digits(s@) ==> r == atomics_if_fits(digits_value(s@) * DECIMAL_FRACTIONAL),
        forall|k: int|
            #![trigger s@.take(k), s@.skip(k + 1)]
            0 < k < s@.len() - 1 && s@[k] == '.' && all_digits(s@.take(k)) && all_digits(s@.skip(k + 1))
                && s@.len() - (k + 1) <= 18 ==> r == atomics_if_fits(
                plain_decimal_atomics(s@.take(k), s@.skip(k + 1)),
            ),
{
    <Decimal as std::str::FromStr>::from_str(s).ok().map(|d| d.atomics().u128())
}

/// The error that `StdError::overflow` makes of the `OverflowError` that
/// `Uint128::checked_mul` returns for `a * b` (it records the operation and
/// both operands).
pub uninterp spec fn checked_mul_overflow_error(a: u128, b: u128) -> StdError;

/// `Uint128::checked_mul`, its `OverflowError` turned into a `StdError` by
/// `StdError::overflow`: the product, or an error exactly when it does not
/// fit in 128 bits, the error a function of the operands.
#[verifier::external_body]
pub(crate) fn uint128_checked_mul(a: u128, b: u128) -> (r: Result<u128, StdError>)
    ensures
        r is Ok <==> a * b <= u128::MAX,
        r matches Ok(v) ==> v == a * b,
        r matches Err(e) ==> e == checked_mul_overflow_error(a, b),
{
    Uint128::new(a).checked_mul(Uint128::new(b)).map(|v| v.u128()).map_err(StdError::overflow)
}

/// `Uint128::checked_div`, its `DivideByZeroError` turned into a `StdError`
/// by `StdError::divide_by_zero`: the rounded-down quotient, or an error
/// exactly when the divisor is zero.
#[verifier::external_body]
pub(crate) fn uint128_checked_div(a: u128, b: u128) -> (r: Result<u128, StdError>)
    ensures
        r is Ok <==> b != 0,
        r matches Ok(v) ==> v == a / b,
{
    Uint128::new(a).checked_div(Uint128::new(b)).map(|v| v.u128()).map_err(StdError::divide_by_zero)
}

/// `Uint128 - Uint128`: the difference; the outside code panics when it
/// would be negative, which `requires` rules out.
#[verifier::external_body]
pub(crate) fn uint128_sub(a: u128, b: u128) -> (r: u128)
    requires
        b <= a,
    ensures
        r == a - b,
{
    (Uint128::new(a) - Uint128::new(b)).u128()
}

/// `Uint128 * Decimal`: `a * ratio / 10^18` rounded down (zero when either
/// side is zero, which the formula gives too); the outside code panics when
/// the result does not fit in 128 bits, which `requires` rules out.
#[verifier::external_body]
pub(crate) fn uint128_mul_decimal(a: u128, ratio: u128) -> (r: u128)
    requires
        a * ratio / (DECIMAL_FRACTIONAL as int) <= u128::MAX,
    ensures
        r == a * ratio / (DECIMAL_FRACTIONAL as int),
{
    (Uint128::new(a) * Decimal::raw(ratio)).u128()
}

/// `Uint128::checked_multiply_ratio`: `a * numerator / denominator` rounded
/// down, or `None` exactly when it does not fit in 128 bits (the divisor
/// is never zero here: `requires`).
#[verifier::external_body]
pub(crate) fn uint128_checked_multiply_ratio(a: u128, numerator: u128, denominator: u128) -> (r: Option<u128>)
    requires
        denominator != 0,
    ensures
        r is Some <==> a * numerator / (denominator as int) <= u128::MAX,
        r matches Some(v) ==> v == a * numerator / (denominator as int),
{
    Uint128::new(a).checked_multiply_ratio(numerator, denominator).ok().map(|v| v.u128())
}

} // verus!
