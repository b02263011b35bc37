//! The error taxonomy of the service.
//!
//! Every failure is surfaced to the caller as a structured value with a
//! human-readable message; none is retried automatically.

use vstd::prelude::*;

verus! {

/// The identity hint a failed lookup was attempted with; the failure
/// message names it.
#[derive(Debug, Clone, Copy, PartialEq, Eq, Structural)]
pub enum IdentityHint {
    /// The primary identifier.
    PrimaryId,
    /// The email address.
    Email,
    /// The (alternate-field-name, alternate-field-value) pair.
    AltId,
}

/// A failure of the identity-resolution chain.
#[derive(Debug, Clone, Copy, PartialEq, Eq, Structural)]
pub enum IdentityError {
    /// A primary identifier was supplied but is not syntactically valid.
    MalformedIdentifier,
    /// The named hint was supplied but no user matches it.
    NotFound(IdentityHint),
    /// No identity hint was supplied at all.
    MissingIdentity,
}

/// A failure of signed-token verification.
#[derive(Debug, Clone, Copy, PartialEq, Eq, Structural)]
pub enum TokenError {
    /// The cryptographic signature did not verify under the public key.
    InvalidSignature,
    /// The token was well signed but its claim set is not in the expected shape.
    Malformed,
    /// The token's expiration time has passed.
    Expired,
    /// The token carries a not-before time that is still in the future.
    NotYetValid,
}

/// The error taxonomy shared by every operation of the service.
#[derive(Debug, Clone, Copy, PartialEq, Eq, Structural)]
pub enum ApiError {
    /// The held capability does not satisfy the guard. The message is fixed
    /// and never reveals which capability was required.
    AuthorizationDenied,
    /// No token was attached while authentication is enforced.
    AuthenticationMissing,
    /// The attached token failed verification.
    TokenInvalid(TokenError),
    /// The identity-resolution chain failed.
    IdentityResolutionFailed(IdentityError),
    /// The persistence collaborator failed; detail stays server-side.
    PersistenceError,
    /// Signing key material is absent or malformed.
    KeyMaterialError,
}

/// The message for each identity-resolution failure.
pub open spec fn identity_message_spec(e: IdentityError) -> Seq<char> {
    match e {
        IdentityError::MalformedIdentifier => "The supplied identifier is not a valid UUID."@,
        IdentityError::NotFound(h) => match h {
            IdentityHint::PrimaryId => "No user matches the supplied primary identifier."@,
            IdentityHint::Email => "No user matches the supplied email address."@,
            IdentityHint::AltId => "No user matches the supplied alternate-id pair."@,
        },
        IdentityError::MissingIdentity => "You must specify an identifying hint."@,
    }
}

/// The message for each token-verification failure. It says which check
/// failed but never leaks key material.
pub open spec fn token_message_spec(e: TokenError) -> Seq<char> {
    match e {
        TokenError::InvalidSignature => "The token signature is invalid."@,
        TokenError::Malformed => "The token claims are malformed."@,
        TokenError::Expired => "The token has expired."@,
        TokenError::NotYetValid => "The token is not yet valid."@,
    }
}

/// The message for each error of the taxonomy.
pub open spec fn api_message_spec(e: ApiError) -> Seq<char> {
    match e {
        ApiError::AuthorizationDenied => "You are not allowed to access this resource."@,
        ApiError::AuthenticationMissing => (
            "A valid token is missing. Please provide one in the HTTP header."@
        ),
        ApiError::TokenInvalid(t) => "There was an error with your token: "@ + token_message_spec(
            t,
        ),
        ApiError::IdentityResolutionFailed(i) => identity_message_spec(i),
        ApiError::PersistenceError => "An internal persistence error occurred."@,
        ApiError::KeyMaterialError => "The signing key material is missing or malformed."@,
    }
}

impl IdentityError {
    /// The human-readable message for this failure.
    pub fn message(&self) -> (r: String)
        ensures
            r@ == identity_message_spec(*self),
    {
        match self {
            IdentityError::MalformedIdentifier => "The supplied identifier is not a valid UUID."
                .to_owned(),
            IdentityError::NotFound(IdentityHint::PrimaryId) =>
                "No user matches the supplied primary identifier.".to_owned(),
            IdentityError::NotFound(IdentityHint::Email) =>
                "No user matches the supplied email address.".to_owned(),
            IdentityError::NotFound(IdentityHint::AltId) =>
                "No user matches the supplied alternate-id pair.".to_owned(),
            IdentityError::MissingIdentity => "You must specify an identifying hint.".to_owned(),
        }
    }
}

impl TokenError {
    /// The human-readable message for this failure.
    pub fn message(&self) -> (r: String)
        ensures
            r@ == token_message_spec(*self),
    {
        match self {
            TokenError::InvalidSignature => "The token signature is invalid.".to_owned(),
            TokenError::Malformed => "The token claims are malformed.".to_owned(),
            TokenError::Expired => "The token has expired.".to_owned(),
            TokenError::NotYetValid => "The token is not yet valid.".to_owned(),
        }
    }
}

impl ApiError {
    /// The human-readable message for this failure.
    pub fn message(&self) -> (r: String)
        ensures
            r@ == api_message_spec(*self),
    {
        match self {
            ApiError::AuthorizationDenied => "You are not allowed to access this resource."
                .to_owned(),
            ApiError::AuthenticationMissing =>
                "A valid token is missing. Please provide one in the HTTP header.".to_owned(),
            ApiError::TokenInvalid(t) => {
                let prefix = "There was an error with your token: ".to_owned();
                prefix.concat(t.message().as_str())
            },
            ApiError::IdentityResolutionFailed(i) => i.message(),
            ApiError::PersistenceError => "An internal persistence error occurred.".to_owned(),
            ApiError::KeyMaterialError =>
                "The signing key material is missing or malformed.".to_owned(),
        }
    }
}

} // verus!
