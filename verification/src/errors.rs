//! Error taxonomy: the typed verification failures and the application-level
//! error that HTTP handlers consume.

use vstd::prelude::*;

verus! {

/// Why a bearer credential was rejected.
#[derive(Clone, Copy, Debug, PartialEq, Eq, Structural)]
pub enum AuthError {
    /// No `Authorization` header was supplied.
    MissingHeader,
    /// The header is present but not of the form `Bearer <token>`.
    MalformedHeader,
    /// The token (or its header or payload) cannot be parsed as a JWT of the
    /// expected structure.
    MalformedToken,
    /// The token's key id is absent even from the freshly refreshed key set.
    KeyNotFound,
    /// The outbound key-endpoint call failed or returned an invalid body.
    FetchError,
    /// The algorithm is not the accepted one, the key material is unusable,
    /// or the signature does not verify.
    InvalidSignature,
    /// Audience, issuer, or issued-at is not what the policy demands.
    ClaimMismatch,
    /// The token's expiry lies more than the leeway in the past.
    Expired,
}

impl AuthError {
    /// A short, non-leaking description of the failure.
    pub fn describe(&self) -> (r: &'static str)
        ensures
            r@ == spec_describe_auth_error(*self),
    {
        match self {
            AuthError::MissingHeader => "No authorization header",
            AuthError::MalformedHeader => "Invalid authorization header format",
            AuthError::MalformedToken => "Invalid token structure",
            AuthError::KeyNotFound => "Key not found after refresh",
            AuthError::FetchError => "Failed to fetch public keys",
            AuthError::InvalidSignature => "Token signature verification failed",
            AuthError::ClaimMismatch => "Token claims do not match the policy",
            AuthError::Expired => "Token is expired",
        }
    }
}

pub open spec fn spec_describe_auth_error(e: AuthError) -> Seq<char> {
    match e {
        AuthError::MissingHeader => "No authorization header"@,
        AuthError::MalformedHeader => "Invalid authorization header format"@,
        AuthError::MalformedToken => "Invalid token structure"@,
        AuthError::KeyNotFound => "Key not found after refresh"@,
        AuthError::FetchError => "Failed to fetch public keys"@,
        AuthError::InvalidSignature => "Token signature verification failed"@,
        AuthError::ClaimMismatch => "Token claims do not match the policy"@,
        AuthError::Expired => "Token is expired"@,
    }
}

/// Application-level error, mapped by the HTTP layer to a status code.
#[derive(Debug, Clone)]
pub enum AppError {
    AuthError(String),
    UploadError(String),
    ConfigError(String),
    InternalError(String),
}

impl AppError {
    /// Wrap a verification failure as an application error carrying the
    /// failure's generic description.
    pub fn from_auth(e: AuthError) -> (r: AppError)
        ensures
            r matches AppError::AuthError(m) && m@ == spec_describe_auth_error(e),
    {
        AppError::AuthError(String::from_str(e.describe()))
    }

    /// The HTTP status code this error maps to.
    pub fn status_code(&self) -> (r: u16)
        ensures
            r == spec_status_code(*self),
    {
        match self {
            AppError::AuthError(_) => 401,
            AppError::UploadError(_) => 400,
            AppError::ConfigError(_) => 500,
            AppError::InternalError(_) => 500,
        }
    }

    /// The message carried by the error.
    pub fn message(&self) -> (r: &String)
        ensures
            r@ == spec_message(*self),
    {
        match self {
            AppError::AuthError(m) => m,
            AppError::UploadError(m) => m,
            AppError::ConfigError(m) => m,
            AppError::InternalError(m) => m,
        }
    }
}

pub open spec fn spec_status_code(e: AppError) -> u16 {
    match e {
        AppError::AuthError(_) => 401,
        AppError::UploadError(_) => 400,
        AppError::ConfigError(_) => 500,
        AppError::InternalError(_) => 500,
    }
}

pub open spec fn spec_message(e: AppError) -> Seq<char> {
    match e {
        AppError::AuthError(m) => m@,
        AppError::UploadError(m) => m@,
        AppError::ConfigError(m) => m@,
        AppError::InternalError(m) => m@,
    }
}

} // verus!
