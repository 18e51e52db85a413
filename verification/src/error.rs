//! Why a request is refused.
use cosmwasm_std::StdError;
use cw_ownable::OwnershipError;
use vstd::prelude::*;

verus! {

/// `cosmwasm_std::StdError`, the host library's error, carried through unread.
#[verifier::external_type_specification]
#[verifier::external_body]
pub struct ExStdError(StdError);

/// `cw_ownable::OwnershipError`, carried through unread.
#[verifier::external_type_specification]
#[verifier::external_body]
pub struct ExOwnershipError(OwnershipError);

/// The refusals.  `Std` and `Ownership` carry the error of the host library
/// that refused; the others are the contract's own rules.
#[derive(Debug)]
pub enum ContractError {
    Std(StdError),
    Ownership(OwnershipError),
    /// The ratios of the developer wallets do not sum to one.
    WrongRatio {},
    /// The swap fee is one or more.
    InvalidSwapFee {},
    /// The burn ratio is 100 or more.
    InvalidBurnRatio {},
    /// The same account already created the same pool.
    PoolExists {},
}

} // verus!
