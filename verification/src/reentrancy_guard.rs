//! The lock that keeps an entry point from being entered again before it
//! has been left.

use vstd::prelude::*;
use crate::api_error::ApiError;

verus! {

/// The name under which the lock is kept.
pub const LOCK: &'static str = "lock";

/// The failure of the guard; it aborts the invocation.
#[derive(Clone, Copy, Debug, PartialEq, Eq, Structural)]
pub enum Error {
    /// An entry point was entered while the lock was held.
    ReentrantCall,
}

impl Error {
    /// The code of the failure.
    pub open spec fn spec_code(self) -> u16 {
        20201
    }

    /// The abort that the failure causes.
    pub open spec fn abort(self) -> ApiError {
        ApiError::User(self.spec_code())
    }

    /// The code of the failure.
    pub fn code(&self) -> (r: u16)
        ensures
            r == self.spec_code(),
    {
        20201
    }
}

impl From<Error> for ApiError {
    fn from(error: Error) -> (r: ApiError) {
        ApiError::User(error.code())
    }
}

impl vstd::std_specs::convert::FromSpecImpl<Error> for ApiError {
    open spec fn obeys_from_spec() -> bool {
        true
    }

    open spec fn from_spec(error: Error) -> ApiError {
        error.abort()
    }
}

/// The guard: locked while an operation is in progress, unlocked otherwise.
#[derive(Clone, Copy, Debug)]
pub struct REENTRANCYGUARD {
    lock: bool,
}

impl View for REENTRANCYGUARD {
    type V = bool;

    /// Whether the lock is held.
    closed spec fn view(&self) -> bool {
        self.lock
    }
}

impl Default for REENTRANCYGUARD {
    /// The guard as it is before anything was entered: unlocked.
    fn default() -> (r: REENTRANCYGUARD)
        ensures
            !r@,
    {
        REENTRANCYGUARD { lock: false }
    }
}

impl REENTRANCYGUARD {
    /// The guard with the lock as it was last left.
    pub fn at(lock: bool) -> (r: REENTRANCYGUARD)
        ensures
            r@ == lock,
    {
        REENTRANCYGUARD { lock }
    }

    /// Sets the lock.
    pub fn set_lock(&mut self, lock: bool)
        ensures
            final(self)@ == lock,
    {
        self.lock = lock;
    }

    /// Whether the lock is held.
    pub fn get_lock(&self) -> (r: bool)
        ensures
            r == self@,
    {
        self.lock
    }

    /// Takes the lock at the start of an entry point. Where the lock is
    /// held already the call is a reentrant one and fails, and the lock
    /// stays held.
    pub fn enter(&mut self) -> (r: Result<(), Error>)
        ensures
            final(self)@,
            r is Ok <==> !old(self)@,
            r is Err ==> r == Err::<(), Error>(Error::ReentrantCall),
    {
        if self.get_lock() {
            return Err(Error::ReentrantCall);
        }
        self.set_lock(true);
        Ok(())
    }

    /// Gives the lock back on the way out of an entry point, whatever state
    /// it was in.
    pub fn leave(&mut self)
        ensures
            !final(self)@,
    {
        self.set_lock(false);
    }
}

} // verus!
