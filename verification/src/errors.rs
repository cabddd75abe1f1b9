//! What can go wrong when user info is requested, signed or verified.
use crate::text::{enclose, enclosed};
use vstd::prelude::*;
use vstd::string::*;

verus! {

/// An error of the `serde_json` crate.
#[verifier::external_type_specification]
#[verifier::external_body]
pub struct ExJsonError(serde_json::Error);

/// Why a signature was not accepted.
#[derive(Clone, Debug, PartialEq, Eq)]
pub enum SignatureVerificationError {
    /// More than one key could have made the signature.
    AmbiguousKeyId(String),
    /// The signature is not the one that the key makes for the message.
    CryptoError(String),
    /// The signing algorithm is not one that the client allows.
    DisallowedAlg(String),
    /// The key cannot be used.
    InvalidKey(String),
    /// No key could have made the signature.
    NoMatchingKey,
    /// The signing algorithm is not supported.
    UnsupportedAlg(String),
    /// Another reason.
    Other(String),
}

/// Why a message could not be signed.
#[derive(Clone, Debug, PartialEq, Eq)]
pub enum SigningError {
    /// The computation of the signature failed.
    CryptoError,
    /// The signing algorithm is not supported.
    UnsupportedAlg(String),
    /// Another reason.
    Other(String),
}

/// Why a JSON Web Token could not be made.
#[derive(Debug)]
pub enum JsonWebTokenError {
    /// The claims could not be serialized.
    SerializationError(serde_json::Error),
    /// The serialized claims could not be signed.
    SigningError(SigningError),
}

/// Why claims were not accepted.
#[derive(Clone, Debug, PartialEq, Eq)]
pub enum ClaimsVerificationError {
    /// The audiences are not those that the client accepts.
    InvalidAudience(String),
    /// The issuer is not the expected one.
    InvalidIssuer(String),
    /// The subject is not the expected one.
    InvalidSubject(String),
    /// A signature is required and there is none.
    NoSignature,
    /// The signature was not accepted.
    SignatureVerification(SignatureVerificationError),
}

/// The contents of a [`ClaimsVerificationError`].
pub enum ClaimsVerificationErrorView {
    InvalidAudience(Seq<char>),
    InvalidIssuer(Seq<char>),
    InvalidSubject(Seq<char>),
    NoSignature,
    SignatureVerification(SignatureVerificationError),
}

impl View for ClaimsVerificationError {
    type V = ClaimsVerificationErrorView;

    open spec fn view(&self) -> ClaimsVerificationErrorView {
        match *self {
            ClaimsVerificationError::InvalidAudience(m) =>
                ClaimsVerificationErrorView::InvalidAudience(m@),
            ClaimsVerificationError::InvalidIssuer(m) =>
                ClaimsVerificationErrorView::InvalidIssuer(m@),
            ClaimsVerificationError::InvalidSubject(m) =>
                ClaimsVerificationErrorView::InvalidSubject(m@),
            ClaimsVerificationError::NoSignature => ClaimsVerificationErrorView::NoSignature,
            ClaimsVerificationError::SignatureVerification(e) =>
                ClaimsVerificationErrorView::SignatureVerification(e),
        }
    }
}

/// Error retrieving user info.
#[derive(Debug)]
pub enum UserInfoError<RE> {
    /// Failed to verify user info claims.
    ClaimsVerification(ClaimsVerificationError),
    /// Failed to parse server response.
    Parse(serde_json::Error),
    /// An error occurred while sending the request or receiving the response (e.g., network
    /// connectivity failed).
    Request(RE),
    /// Server returned an invalid response: its status code, its body and what is wrong with it.
    Response(u16, Vec<u8>, String),
    /// An unexpected error occurred.
    Other(String),
}

/// The contents of a [`UserInfoError`].
pub enum UserInfoErrorView<RE> {
    ClaimsVerification(ClaimsVerificationErrorView),
    Parse(serde_json::Error),
    Request(RE),
    Response(u16, Seq<u8>, Seq<char>),
    Other(Seq<char>),
}

impl<RE> View for UserInfoError<RE> {
    type V = UserInfoErrorView<RE>;

    open spec fn view(&self) -> UserInfoErrorView<RE> {
        match *self {
            UserInfoError::ClaimsVerification(e) => UserInfoErrorView::ClaimsVerification(e@),
            UserInfoError::Parse(e) => UserInfoErrorView::Parse(e),
            UserInfoError::Request(e) => UserInfoErrorView::Request(e),
            UserInfoError::Response(status_code, body, m) =>
                UserInfoErrorView::Response(status_code, body@, m@),
            UserInfoError::Other(m) => UserInfoErrorView::Other(m@),
        }
    }
}

/// A result with the contents of its error in place of the error.
pub open spec fn with_error_view<T, E: View>(result: Result<T, E>) -> Result<T, E::V> {
    match result {
        Ok(value) => Ok(value),
        Err(error) => Err(error@),
    }
}

impl<RE> UserInfoError<RE> {
    /// The text that [`UserInfoError::display`] gives.
    pub open spec fn display_text(self) -> Seq<char> {
        match self@ {
            UserInfoErrorView::ClaimsVerification(_) => "Failed to verify claims"@,
            UserInfoErrorView::Parse(_) => "Failed to parse server response"@,
            UserInfoErrorView::Request(_) => "Request failed"@,
            UserInfoErrorView::Response(_, _, m) => "Server returned invalid response: "@ + m,
            UserInfoErrorView::Other(m) => "Other error: "@ + m,
        }
    }

    /// Describes the error for a person.
    pub fn display(&self) -> (text: String)
        ensures
            text@ == self.display_text(),
    {
        match self {
            UserInfoError::ClaimsVerification(_) => String::from_str("Failed to verify claims"),
            UserInfoError::Parse(_) => String::from_str("Failed to parse server response"),
            UserInfoError::Request(_) => String::from_str("Request failed"),
            UserInfoError::Response(_, _, m) =>
                String::from_str("Server returned invalid response: ").concat(m.as_str()),
            UserInfoError::Other(m) => String::from_str("Other error: ").concat(m.as_str()),
        }
    }
}

/// The OpenID Connect Provider has no associated user info endpoint.
#[derive(Clone, Copy, Debug, PartialEq, Eq)]
pub struct NoUserInfoEndpoint;

impl NoUserInfoEndpoint {
    /// Describes the error for a person.
    pub fn display(&self) -> (text: String)
        ensures
            text@ == "No user info endpoint specified"@,
    {
        String::from_str("No user info endpoint specified")
    }
}

/// What an `InvalidSubject` or `InvalidIssuer` error says of a value that is not the expected one.
pub open spec fn mismatch_message(expected: Seq<char>, found: Seq<char>) -> Seq<char> {
    enclosed("expected `"@, expected, "` (found `"@) + found + "`)"@
}

/// Says that `found` is not the expected value.
pub(crate) fn mismatch(expected: &str, found: &str) -> (text: String)
    ensures
        text@ == mismatch_message(expected@, found@),
{
    let mut text = enclose("expected `", expected, "` (found `");
    text.append(found);
    text.append("`)");
    text
}

} // verus!
