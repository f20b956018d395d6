//! The contract's own identity, the two zero addresses, and the failures
//! of the guard.

use vstd::prelude::*;
use crate::api_error::ApiError;
use crate::key::{lemma_zero_addr, zero_addr, Key};

verus! {

/// The name under which the contract keeps its own hash.
pub const SELF_CONTRACT_HASH: &'static str = "self_contract_hash";

/// The name under which the contract keeps the hash of its package.
pub const CONTRACT_PACKAGE_HASH: &'static str = "contract_package_hash";

/// What the contract knows of itself: its hash and that of its package.
/// Each is all zero until it is set.
#[derive(Clone, Copy, Debug)]
pub struct ContractData {
    contract_hash: [u8; 32],
    package_hash: [u8; 32],
}

impl ContractData {
    /// The contract's hash.
    pub closed spec fn spec_contract_hash(&self) -> [u8; 32] {
        self.contract_hash
    }

    /// The hash of the contract's package.
    pub closed spec fn spec_package_hash(&self) -> [u8; 32] {
        self.package_hash
    }
}

impl Default for ContractData {
    /// The identity before any hash was set: both all zero.
    fn default() -> (r: ContractData)
        ensures
            r.spec_contract_hash() == zero_addr(),
            r.spec_package_hash() == zero_addr(),
    {
        ContractData { contract_hash: [0u8; 32], package_hash: [0u8; 32] }
    }
}

/// Sets the contract's hash.
pub fn set_contract_hash(data: &mut ContractData, contract_hash: [u8; 32])
    ensures
        final(data).spec_contract_hash() == contract_hash,
        final(data).spec_package_hash() == old(data).spec_package_hash(),
{
    data.contract_hash = contract_hash;
}

/// The contract's hash.
pub fn get_contract_hash(data: &ContractData) -> (r: [u8; 32])
    ensures
        r == data.spec_contract_hash(),
{
    data.contract_hash
}

/// Sets the hash of the contract's package.
pub fn set_package_hash(data: &mut ContractData, package_hash: [u8; 32])
    ensures
        final(data).spec_package_hash() == package_hash,
        final(data).spec_contract_hash() == old(data).spec_contract_hash(),
{
    data.package_hash = package_hash;
}

/// The hash of the contract's package.
pub fn get_package_hash(data: &ContractData) -> (r: [u8; 32])
    ensures
        r == data.spec_package_hash(),
{
    data.package_hash
}

/// The identifier that stands for no contract: the hash that is all zero.
pub open spec fn spec_zero_address() -> Key {
    Key::Hash(zero_addr())
}

/// The identifier that stands for no account: the account hash that is all
/// zero.
pub open spec fn spec_account_zero_address() -> Key {
    Key::Account(zero_addr())
}

/// Whether `key` is one of the two zero addresses.
pub open spec fn is_zero_address(key: Key) -> bool {
    key == spec_zero_address() || key == spec_account_zero_address()
}

/// The identifier that stands for no contract.
pub fn zero_address() -> (r: Key)
    ensures
        r == spec_zero_address(),
        r is Hash,
        r.addr() == Seq::new(32, |i: int| 0u8),
{
    proof {
        lemma_zero_addr();
    }
    Key::Hash([0u8; 32])
}

/// The identifier that stands for no account.
pub fn account_zero_address() -> (r: Key)
    ensures
        r == spec_account_zero_address(),
        r is Account,
        r.addr() == Seq::new(32, |i: int| 0u8),
{
    proof {
        lemma_zero_addr();
    }
    Key::Account([0u8; 32])
}

/// The failures of the guard; each aborts the invocation.
#[derive(Clone, Copy, Debug, PartialEq, Eq, Structural)]
pub enum Error {
    /// A transfer was addressed to a zero address.
    CompoundErc20ZeroAddress1,
    /// A transfer on behalf of an owner was addressed to a zero address.
    CompoundErc20ZeroAddress2,
}

impl Error {
    /// The code of the failure.
    pub open spec fn spec_code(self) -> u16 {
        match self {
            Error::CompoundErc20ZeroAddress1 => 20,
            Error::CompoundErc20ZeroAddress2 => 21,
        }
    }

    /// The abort that the failure causes.
    pub open spec fn abort(self) -> ApiError {
        ApiError::User(self.spec_code())
    }

    /// The code of the failure.
    pub fn code(&self) -> (r: u16)
        ensures
            r == self.spec_code(),
    {
        match self {
            Error::CompoundErc20ZeroAddress1 => 20,
            Error::CompoundErc20ZeroAddress2 => 21,
        }
    }
}

impl From<Error> for ApiError {
    fn from(error: Error) -> (r: ApiError) {
        ApiError::User(error.code())
    }
}

impl vstd::std_specs::convert::FromSpecImpl<Error> for ApiError {
    open spec fn obeys_from_spec() -> bool {
        true
    }

    open spec fn from_spec(error: Error) -> ApiError {
        error.abort()
    }
}

} // verus!
