//! Failures of the sign-in flow and of the credential layer.

use vstd::prelude::*;

verus! {

#[verifier::external_type_specification]
#[verifier::external_body]
pub struct ExUrlParseError(url::ParseError);

/// Every failure the library reports.
#[derive(Debug)]
pub enum AuthError {
    /// The browser surface could not be built.
    WebviewError(String),
    /// A transport failure talking to the identity provider.
    NetworkError(String),
    /// A payload that could not be decoded.
    JsonError(String),
    /// A failure of the cache or desktop-entry files.
    FileSystemError(String),
    /// An endpoint URL that could not be built.
    InvalidUrl(url::ParseError),
    /// A CSRF state mismatch, or a malformed or unexpected response.
    InvalidResponse(String),
    /// No persisted session for the requested key.
    SessionNotFound,
    /// The requested character is not among the session's accounts.
    CharacterNotFound { character_id: String, available_chars: String },
    /// The game client could not be launched.
    ExecError { program: String, details: String },
    /// A failure of the secret store other than a missing entry.
    KeyringError(String),
    /// The platform's secret store is unavailable.
    CredentialStoreError(String),
    /// The platform has no cache directory.
    NoCacheDir,
}

} // verus!
