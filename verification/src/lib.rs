//! User info of OpenID Connect providers: requests for claims about an end user, and the
//! verification of the claims that come back.
//!
//! A [`UserInfoRequest`] is turned into an HTTP request, and the response to it into
//! [`UserInfoClaims`]. A provider answers with plain JSON or with a signed JSON Web Token; which
//! of them is accepted, and what the claims have to say, is up to the request and its
//! [`UserInfoVerifier`]. Sending requests, parsing JSON and checking signatures are left to the
//! caller, who hands in a client, parsers and keys.

pub mod claim_laws;
pub mod claims;
pub mod errors;
pub mod headers;
pub mod jwt;
pub mod laws;
pub mod request;
pub mod response_laws;
pub mod text;
pub mod token_laws;
pub mod types;
pub mod urls;
pub mod verification;

pub use claims::{StandardClaims, UserInfoClaims, UserInfoClaimsImpl};
pub use errors::{ClaimsVerificationError, JsonWebTokenError, NoUserInfoEndpoint, UserInfoError};
pub use jwt::UserInfoJsonWebToken;
pub use request::{HttpRequest, HttpResponse, UserInfoRequest};
pub use urls::{IssuerUrl, UserInfoUrl};
pub use verification::UserInfoVerifier;
