//! Shared cache values for rebuildable application results.

use crate::ports::clock::UtcTimestamp;
use vstd::prelude::*;

verus! {

/// A cached value and the UTC instant after which it is stale.
#[derive(Debug, Clone, PartialEq, Eq)]
pub struct CacheEntry<Value> {
    value: Value,
    expires_at: UtcTimestamp,
}

impl<Value> CacheEntry<Value> {
    /// The cached value.
    pub closed spec fn spec_value(&self) -> Value {
        self.value
    }

    /// The expiry.
    pub closed spec fn spec_expires_at(&self) -> UtcTimestamp {
        self.expires_at
    }

    /// Creates an entry holding `value` until `expires_at`.
    pub fn new(value: Value, expires_at: UtcTimestamp) -> (r: Self)
        ensures
            r.spec_value() == value,
            r.spec_expires_at() == expires_at,
    {
        CacheEntry { value, expires_at }
    }

    /// Returns the cached value.
    pub fn value(&self) -> (r: &Value)
        ensures
            *r == self.spec_value(),
    {
        &self.value
    }

    /// Returns the instant after which the entry is stale.
    pub fn expires_at(&self) -> (r: UtcTimestamp)
        ensures
            r == self.spec_expires_at(),
    {
        self.expires_at
    }

    /// Consumes the entry and returns its value.
    pub fn into_value(self) -> (r: Value)
        ensures
            r == self.spec_value(),
    {
        self.value
    }
}

/// Failure returned by a cache dependency.
#[derive(Debug, Clone, Copy, PartialEq, Eq, Structural)]
pub enum CacheError {
    /// The cache is unavailable.
    Unavailable,
}

impl CacheError {
    /// Human-readable description of the failure.
    pub fn message(&self) -> (r: &'static str)
        ensures
            r@ == match *self {
                CacheError::Unavailable => "cache is unavailable"@,
            },
    {
        match self {
            CacheError::Unavailable => "cache is unavailable",
        }
    }
}

} // verus!
