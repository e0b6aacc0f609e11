//! The transport capability.
//!
//! The library never performs I/O itself: the embedding application injects
//! an implementation of [`HttpClient`], and the coordinator only relies on
//! the shape of its result.  Nothing is assumed about the bytes a transport
//! returns, so every caller is verified for every possible outcome.

use vstd::prelude::*;

verus! {

/// A transport-level failure, reported by the capability and passed through
/// to the caller unchanged.
#[derive(Debug, Clone, PartialEq, Eq)]
pub enum NetworkError {
    RequestFailed { reason: String },
    Timeout,
}

/// A capability that fetches the body behind a URL.
///
/// Implementations live outside the library (a native HTTP stack, a fixture
/// replay, a test double).  The method carries no contract: a transport may
/// return any bytes or any failure, and verified callers must be correct for
/// all of them.
pub trait HttpClient {
    fn fetch(&mut self, url: &str) -> Result<Vec<u8>, NetworkError>;
}

} // verus!
