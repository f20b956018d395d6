//! Why an invocation is aborted.

use vstd::prelude::*;

verus! {

/// The reason handed back when an invocation is aborted. An aborted
/// invocation leaves no write behind.
#[derive(Clone, Copy, Debug, PartialEq, Eq, Structural)]
pub enum ApiError {
    /// A key that names neither an account nor a contract was used as one.
    UnexpectedKeyVariant,
    /// More tokens were to be destroyed than the holder has.
    InsufficientFunds,
    /// A failure of the contract's own, by its code.
    User(u16),
}

} // verus!
