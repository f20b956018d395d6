//! The ledger behind a guard that refuses the zero addresses as
//! recipients, reporting its own events.

pub mod data;
pub mod erc20;
pub mod event;

pub use data::{account_zero_address, zero_address, ContractData, Error};
pub use erc20::ERC20;
pub use event::{emit, ERC20Event};
