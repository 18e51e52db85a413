//! Permissionless registry of tokens and liquidity pools for a DEX.
//!
//! Listing a token or creating a pool charges a fee in a cw20 token: a
//! configurable percentage of it is burnt and the rest is split among a list
//! of developer wallets whose ratios sum to one.  The owner may change that
//! configuration.
//!
//! The host (storage, address validation, ownership records) stays outside
//! this crate; every decision the contract makes is a verified function here.

pub mod contract;
pub mod encode;
pub mod error;
pub mod fees;
pub mod fixed_point;
pub mod laws;
pub mod msg;
pub mod response;
pub mod state;
pub mod wallets;
