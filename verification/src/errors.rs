//! Error taxonomy of the data layer.
//!
//! `NotFound` and `Conflict` are business-meaningful and propagate to callers
//! unchanged. `StoreUnavailable` is a fatal operation failure. Cache outages
//! are reported as `CacheError::Unavailable` by the cache itself but are
//! always absorbed by the coherence layer, which degrades to store-only
//! operation; they never reach a caller of the coherence layer.

use vstd::prelude::*;

verus! {

/// An error from the entity store or the coherence layer.
#[derive(Clone, Copy, Debug, PartialEq, Eq, Structural)]
pub enum DataError {
    /// The requested entity does not exist in the store.
    NotFound,
    /// A create hit a uniqueness constraint: the entity already exists.
    Conflict,
    /// The store cannot be reached; the operation was not performed.
    StoreUnavailable,
}

/// An error from the TTL cache. Never escalated past the coherence layer.
#[derive(Clone, Copy, Debug, PartialEq, Eq, Structural)]
pub enum CacheError {
    /// The cache cannot be reached; reads miss and writes are dropped.
    Unavailable,
}

impl DataError {
    /// A short human-readable description, for display by callers.
    pub fn describe(&self) -> (r: &'static str)
        ensures
            *self is NotFound ==> r@ == "not found"@,
            *self is Conflict ==> r@ == "already exists"@,
            *self is StoreUnavailable ==> r@ == "store unavailable"@,
    {
        match self {
            DataError::NotFound => "not found",
            DataError::Conflict => "already exists",
            DataError::StoreUnavailable => "store unavailable",
        }
    }
}

} // verus!
