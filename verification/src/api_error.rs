//! The error taxonomy surfaced to callers.
//!
//! Every fetch operation either returns a fully decoded result or one of
//! these errors; nothing is swallowed, substituted or retried.  The default
//! paths only produce `NetworkError` (passed through from the transport) and
//! `DeserializationError`; the remaining variants are reserved for
//! status-aware transports and must propagate unchanged.

use vstd::prelude::*;
use crate::http_client::NetworkError;

verus! {

#[derive(Debug, Clone, PartialEq, Eq)]
pub enum ApiError {
    HttpError { status: u16 },
    NetworkError(NetworkError),
    SerializationError { reason: String },
    DeserializationError { reason: String },
    InvalidResponse,
    NotFound,
    Unauthorized,
    RateLimited,
    ServerError { message: String },
}

} // verus!
