use vstd::prelude::*;

verus! {

/// The error of an operation that invalidates entries through a predicate.
#[derive(Debug, Clone, Copy, PartialEq, Eq, Structural)]
pub enum PredicateError {
    /// The cache was built without support for invalidation closures.
    InvalidationClosuresDisabled,
}

/// The message that describes a `PredicateError`.
pub open spec fn predicate_error_message(e: PredicateError) -> Seq<char> {
    match e {
        PredicateError::InvalidationClosuresDisabled =>
            "Support for invalidation closures is disabled in this cache. Please enable it by calling the support_invalidation_closures method of the builder at the cache creation time"@,
    }
}

impl PredicateError {
    /// A human-readable description of the error.
    pub fn message(&self) -> (r: String)
        ensures
            r@ == predicate_error_message(*self),
    {
        match self {
            PredicateError::InvalidationClosuresDisabled =>
                "Support for invalidation closures is disabled in this cache. Please enable it by calling the support_invalidation_closures method of the builder at the cache creation time".to_owned(),
        }
    }
}

/// The error of a capacity change.
#[derive(Debug, Clone, Copy, PartialEq, Eq, Structural)]
pub enum CapacityError {
    /// The cache's maintenance machinery has been torn down.
    CacheDropped,
    /// The change could not be put on the queue of pending requests.
    ChannelError,
}

/// The message that describes a `CapacityError`.
pub open spec fn capacity_error_message(e: CapacityError) -> Seq<char> {
    match e {
        CapacityError::CacheDropped => "The cache has been dropped"@,
        CapacityError::ChannelError => "Failed to send capacity change operation to internal channel"@,
    }
}

impl CapacityError {
    /// A human-readable description of the error.
    pub fn message(&self) -> (r: String)
        ensures
            r@ == capacity_error_message(*self),
    {
        match self {
            CapacityError::CacheDropped => "The cache has been dropped".to_owned(),
            CapacityError::ChannelError =>
                "Failed to send capacity change operation to internal channel".to_owned(),
        }
    }
}

} // verus!
