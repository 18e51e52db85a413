//! What the contract stores: its configuration, the listed tokens and the
//! created pools.
use vstd::prelude::*;

verus! {

/// Gas price of a chain, in some denomination.
#[derive(Clone, Debug, PartialEq, Eq)]
pub struct GasPrice {
    pub denom: String,
    pub amount: u64,
}

/// The IBC channels to move a token in and out of a chain.
#[derive(Clone, Debug, PartialEq, Eq)]
pub struct IbcChannels {
    pub deposit_channel: String,
    pub withdraw_channel: String,
}

/// A chain on which a listed token lives.
#[derive(Clone, Debug, PartialEq, Eq)]
pub struct Chain {
    pub chain_name: String,
    pub chain_id: String,
    pub gas_price: GasPrice,
    pub ibc_channels: Option<IbcChannels>,
    pub is_evm: bool,
}

/// A listed token.
#[derive(Clone, Debug, PartialEq, Eq)]
pub struct Token {
    pub denom: String,
    pub full_name: String,
    pub symbol: String,
    pub chain: Chain,
    pub is_native_coin: bool,
    pub is_ibc_coin: bool,
    pub decimal: u64,
    pub logo_uri: String,
}

/// A created pool.  `creator` is the (validated) address of the account
/// that created it.
#[derive(Clone, Debug, PartialEq, Eq)]
pub struct Pool {
    pub token1: String,
    pub token2: String,
    pub creator: String,
    pub burn_ratio: u64,
    pub swap_fee: String,
}

/// A developer wallet and its share of the fees.  `ratio` is a decimal
/// with 18 fractional digits, held as its atomics (1.0 is 10^18).
#[derive(Clone, Debug, PartialEq, Eq)]
pub struct WalletInfo {
    pub address: String,
    pub ratio: u128,
}

/// An amount of a token.  For the fees, `denom` is the address of the cw20
/// contract of the token.
#[derive(Clone, Debug, PartialEq, Eq)]
pub struct Coin {
    pub denom: String,
    pub amount: u128,
}

/// The fees and their split.
#[derive(Clone, Debug, PartialEq, Eq)]
pub struct Config {
    pub token_listing_fee: Coin,
    pub pool_creation_fee: Coin,
    pub burn_fee_percent: u64,
    pub dev_wallet_list: Vec<WalletInfo>,
}

/// Everything the contract stores.
#[derive(Clone, Debug, PartialEq, Eq)]
pub struct ContractState {
    pub config: Config,
    pub tokens: Vec<Token>,
    pub pools: Vec<Pool>,
}

} // verus!
