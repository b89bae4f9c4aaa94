//! A verified client core for multi-chain block explorer APIs: a resolver
//! that maps a chain id to its explorer base URL through a one-shot cache
//! with one hardcoded override, and a forwarder that turns each explorer
//! operation into a request path and a filtered set of query parameters.
//!
//! Network work itself is left to the caller: the resolver says when a
//! registry fetch is needed and takes in whatever the fetch produced, and
//! the forwarder builds the request and interprets the response, so every
//! decision along the way is verified.

use vstd::prelude::*;

pub mod cache;
pub mod chain;
pub mod decimal;
pub mod forwarder;
pub mod params;

pub use chain::Chain;
pub use chain::ChainExplorer;

verus! {

/// A failure while resolving a chain id to an explorer base URL.
#[derive(Clone, Copy, Debug, PartialEq, Eq, Structural)]
pub enum ResolveError {
    /// The chain registry was unreachable, answered with a non-success
    /// status, or its response could not be decoded.
    LookupFailed,
    /// The chain record carries no explorer entry.
    NoExplorerAvailable,
}

impl ResolveError {
    /// A human-readable description of the failure.
    pub fn message(&self) -> (r: String)
        ensures
            match self {
                ResolveError::LookupFailed => r@ == "chain lookup failed"@,
                ResolveError::NoExplorerAvailable => r@ == "no explorers"@,
            },
    {
        match self {
            ResolveError::LookupFailed => String::from_str("chain lookup failed"),
            ResolveError::NoExplorerAvailable => String::from_str("no explorers"),
        }
    }
}

} // verus!
