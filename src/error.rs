//! Error kinds of the capability engine.
//!
//! Each error carries plain values (messages, instants, identifiers) so that
//! callers can decide whether to retry, re-request or abort.

use vstd::prelude::*;

verus! {

/// Errors that a token or its request can raise.
#[derive(Debug, Clone, PartialEq, Eq)]
pub enum CapabilityError {
    /// The token or request is malformed (TTL out of range, empty target, ...).
    InvalidFormat(String),
    /// The token expired at the given instant (ms since the epoch).
    Expired(i64),
    /// No token with this identifier is held.
    NotFound(u128),
    /// The domain text could not be parsed.
    InvalidDomain(String),
    /// The action text could not be parsed.
    InvalidAction(String),
    /// The token with this identifier was revoked.
    Revoked(u128),
    /// The token does not cover the attempted use (e.g. its usage cap is spent).
    ScopeMismatch(String),
}

/// Errors about the caller's identity.
#[derive(Debug, Clone, PartialEq, Eq)]
pub enum IdentityError {
    /// The identity token is not well formed.
    InvalidToken(String),
    /// The identity token expired at the given instant (ms since the epoch).
    TokenExpired(i64),
    /// No identity has been set.
    MissingIdentity,
    /// The workload identity is not valid.
    InvalidWorkload(String),
    /// The identity could not be verified.
    VerificationFailed(String),
}

/// Errors of the transport to the broker.
#[derive(Debug, Clone, PartialEq, Eq)]
pub enum TransportError {
    /// The connection could not be made.
    ConnectionFailed(String),
    /// TLS failure.
    Tls(String),
    /// HTTP failure.
    Http(String),
    /// Protocol failure.
    Protocol(String),
    /// The endpoint is not valid.
    InvalidEndpoint(String),
    /// The connection timed out.
    ConnectionTimeout,
}

/// Cryptographic errors.
#[derive(Debug, Clone, PartialEq, Eq)]
pub enum CryptoError {
    /// The key is not in a known format.
    InvalidKeyFormat(String),
    /// A signature did not verify.
    SignatureVerificationFailed,
    /// Encryption failed.
    EncryptionFailed(String),
    /// Decryption failed.
    DecryptionFailed(String),
    /// A certificate is not valid.
    InvalidCertificate(String),
    /// A key was not found.
    KeyNotFound(String),
}

/// Configuration errors.
#[derive(Debug, Clone, PartialEq, Eq)]
pub enum ConfigError {
    /// A required field is missing.
    MissingField(String),
    /// A field holds an invalid value: field name, then the reason.
    InvalidValue(String, String),
    /// The configuration file was not found.
    FileNotFound(String),
    /// The configuration could not be parsed.
    ParseError(String),
    /// An environment variable could not be read.
    EnvironmentVariable(String),
}

/// Every failure that an operation of this library can report.
#[derive(Debug, Clone, PartialEq, Eq)]
pub enum VaultError {
    /// The broker refused the caller's credentials.
    AuthenticationFailed(String),
    /// The broker refused the requested access.
    AccessDenied(String),
    /// A token or request failed.
    Capability(CapabilityError),
    /// The caller's identity failed.
    Identity(IdentityError),
    /// The transport failed.
    Transport(TransportError),
    /// A cryptographic operation failed.
    Crypto(CryptoError),
    /// The configuration is not usable.
    Config(ConfigError),
    /// A validation failed.
    Validation(String),
    /// The operation timed out after the given number of milliseconds.
    Timeout(u64),
    /// The broker limits the rate: retry after the given number of milliseconds.
    RateLimit(u64),
    /// The broker reported an error.
    Server(String),
    /// The broker's response could not be read.
    InvalidResponse(String),
    /// An internal invariant was broken.
    Internal(String),
    /// An I/O error, by its message.
    Io(String),
    /// A JSON error, by its message.
    Json(String),
    /// A TOML error, by its message.
    Toml(String),
}

/// The errors on which an operation may be tried again.
pub open spec fn retryable(e: VaultError) -> bool {
    match e {
        VaultError::Transport(_) | VaultError::Timeout(_) | VaultError::RateLimit(_)
        | VaultError::Server(_) => true,
        _ => false,
    }
}

/// The stable code of each error kind, for logging and monitoring.
pub open spec fn code_of(e: VaultError) -> Seq<char> {
    match e {
        VaultError::AuthenticationFailed(_) => "AUTH_FAILED"@,
        VaultError::AccessDenied(_) => "ACCESS_DENIED"@,
        VaultError::Capability(_) => "CAPABILITY_ERROR"@,
        VaultError::Identity(_) => "IDENTITY_ERROR"@,
        VaultError::Transport(_) => "TRANSPORT_ERROR"@,
        VaultError::Crypto(_) => "CRYPTO_ERROR"@,
        VaultError::Config(_) => "CONFIG_ERROR"@,
        VaultError::Validation(_) => "VALIDATION_ERROR"@,
        VaultError::Timeout(_) => "TIMEOUT"@,
        VaultError::RateLimit(_) => "RATE_LIMIT"@,
        VaultError::Server(_) => "SERVER_ERROR"@,
        VaultError::InvalidResponse(_) => "INVALID_RESPONSE"@,
        VaultError::Internal(_) => "INTERNAL_ERROR"@,
        VaultError::Io(_) => "IO_ERROR"@,
        VaultError::Json(_) => "JSON_ERROR"@,
        VaultError::Toml(_) => "TOML_ERROR"@,
    }
}

impl VaultError {
    /// Whether the failed operation may be retried (transport, timeout,
    /// rate limit and server errors).
    pub fn is_retryable(&self) -> (r: bool)
        ensures
            r == retryable(*self),
    {
        match self {
            VaultError::Transport(_) => true,
            VaultError::Timeout(_) => true,
            VaultError::RateLimit(_) => true,
            VaultError::Server(_) => true,
            _ => false,
        }
    }

    /// Whether the broker refused the caller's credentials.
    pub fn is_authentication_error(&self) -> (r: bool)
        ensures
            r == (*self is AuthenticationFailed),
    {
        matches!(self, VaultError::AuthenticationFailed(_))
    }

    /// Whether the broker refused the requested access.
    pub fn is_authorization_error(&self) -> (r: bool)
        ensures
            r == (*self is AccessDenied),
    {
        matches!(self, VaultError::AccessDenied(_))
    }

    /// The stable code of this error's kind.
    pub fn error_code(&self) -> (r: &'static str)
        ensures
            r@ == code_of(*self),
    {
        match self {
            VaultError::AuthenticationFailed(_) => "AUTH_FAILED",
            VaultError::AccessDenied(_) => "ACCESS_DENIED",
            VaultError::Capability(_) => "CAPABILITY_ERROR",
            VaultError::Identity(_) => "IDENTITY_ERROR",
            VaultError::Transport(_) => "TRANSPORT_ERROR",
            VaultError::Crypto(_) => "CRYPTO_ERROR",
            VaultError::Config(_) => "CONFIG_ERROR",
            VaultError::Validation(_) => "VALIDATION_ERROR",
            VaultError::Timeout(_) => "TIMEOUT",
            VaultError::RateLimit(_) => "RATE_LIMIT",
            VaultError::Server(_) => "SERVER_ERROR",
            VaultError::InvalidResponse(_) => "INVALID_RESPONSE",
            VaultError::Internal(_) => "INTERNAL_ERROR",
            VaultError::Io(_) => "IO_ERROR",
            VaultError::Json(_) => "JSON_ERROR",
            VaultError::Toml(_) => "TOML_ERROR",
        }
    }
}

} // verus!
