//! The messages the contract accepts and the answers to its queries.
use crate::state::{Chain, Coin, Config, Pool, Token, WalletInfo};
use vstd::prelude::*;

verus! {

/// The queries.
#[derive(Clone, Debug, PartialEq, Eq)]
pub enum QueryMsg {
    Tokens {},
    Pools {},
    Config {},
}

/// Answer to `QueryMsg::Tokens`.
#[derive(Clone, Debug, PartialEq, Eq)]
pub struct TokensResp {
    pub tokens: Vec<Token>,
}

/// Answer to `QueryMsg::Pools`.
#[derive(Clone, Debug, PartialEq, Eq)]
pub struct PoolsResp {
    pub pools: Vec<Pool>,
}

/// Answer to `QueryMsg::Config`.
#[derive(Clone, Debug, PartialEq, Eq)]
pub struct ConfigResp {
    pub config: Config,
}

/// The message that sets the contract up.
#[derive(Clone, Debug, PartialEq, Eq)]
pub struct InstantiateMsg {
    pub token_listing_fee: Coin,
    pub pool_creation_fee: Coin,
    pub burn_fee_percent: u64,
    pub dev_wallet_list: Vec<WalletInfo>,
    pub initial_tokens: Option<Vec<Token>>,
    pub initial_pools: Option<Vec<Pool>>,
}

/// The actions.
#[derive(Clone, Debug, PartialEq, Eq)]
pub enum ExecMsg {
    CreatePool { token1: String, token2: String, burn_ratio: u64, swap_fee: String },
    ListToken {
        denom: String,
        full_name: String,
        symbol: String,
        chain: Chain,
        is_native_coin: bool,
        is_ibc_coin: bool,
        decimal: u64,
        logo_uri: String,
    },
    ChangeConfig {
        token_listing_fee: Coin,
        pool_creation_fee: Coin,
        burn_fee_percent: u64,
        dev_wallet_lists: Vec<WalletInfo>,
    },
}

} // verus!
