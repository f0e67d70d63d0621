//! The error taxonomy of the client.  Every failure is surfaced to the caller
//! as a distinct, inspectable kind; nothing is handled or retried internally.

use vstd::prelude::*;

verus! {

/// Why a store operation failed.
#[derive(Debug, Clone, PartialEq, Eq)]
pub enum VssError {
    /// The base URL plus the operation path does not form a valid request URL.
    UrlParseError,
    /// Network or connection failure, or a non-success HTTP status.
    TransportError(String),
    /// Failure originating from the delegated auth collaborator, passed
    /// through unchanged.
    AuthError(String),
    /// The response body is not valid JSON or does not match the expected
    /// shape.
    ResponseParseError(String),
    /// The ciphertext fails authentication under the held key.
    DecryptionError,
    /// The decrypted bytes are not valid UTF-8 or not valid JSON.
    EncodingError,
}

} // verus!
