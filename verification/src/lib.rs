//! A fungible-token ledger kept in keyed dictionaries, with the key codec that
//! names the dictionary slots and a reentrancy guard for its entry points.

pub mod api_error;
pub mod bytesrepr;
pub mod compound_erc20;
pub mod contract_utils;
pub mod erc20;
pub mod key;
pub mod laws;
pub mod ledger;
pub mod record;
pub mod reentrancy_guard;
pub mod supply;
pub mod text;
pub mod u256;
pub mod uniswap_erc20;
