//! JSON Web Tokens (JWTs) and the keys that sign and verify them.
use crate::claims::{UserInfoClaims, UserInfoClaimsImpl};
use crate::errors::{
    ClaimsVerificationError, ClaimsVerificationErrorView, JsonWebTokenError,
    SignatureVerificationError, SigningError,
};
use crate::types::{AdditionalClaims, GenderClaim};
use crate::verification::UserInfoVerifier;
use vstd::prelude::*;
use vstd::utf8::*;

verus! {

/// Keys of a provider, with which the signature of a token is verified.
pub trait JsonWebKey<JS> {
    /// Verifies that `signature` is a signature of `message`.
    fn verify_signature(&self, signature_alg: &JS, message: &[u8], signature: &[u8]) -> Result<
        (),
        SignatureVerificationError,
    >;
}

/// A key with which a token is signed.
pub trait PrivateSigningKey<JS> {
    /// Signs `message`.
    fn sign(&self, signature_alg: &JS, message: &[u8]) -> Result<Vec<u8>, SigningError>;
}

/// A token: its claims, and the signature of their serialized form.
#[derive(Clone, Debug)]
pub struct JsonWebToken<JS, P> {
    /// The algorithm of the signature, or `None` if the token is not signed.
    pub alg: Option<JS>,
    /// The claims.
    pub payload: P,
    /// The serialized header and claims, to which the signature belongs.
    pub signing_input: String,
    /// The signature.
    pub signature: Vec<u8>,
}

/// Whether `outcome` is what `key` may answer when it is asked to sign `text` with `alg`.
pub open spec fn may_sign<JS, S: PrivateSigningKey<JS>>(
    key: &S,
    alg: &JS,
    text: Seq<char>,
    outcome: Result<Vec<u8>, SigningError>,
) -> bool {
    exists|message: &[u8]|
        message@ == encode_utf8(text) && #[trigger] call_ensures(
            S::sign,
            (key, alg, message),
            outcome,
        )
}

/// Whether `outcome` is what `keys` may answer when they are asked to verify that `signature`
/// is a signature of `text` with `alg`.
pub open spec fn may_verify<JS, K: JsonWebKey<JS>>(
    keys: &K,
    alg: &JS,
    text: Seq<char>,
    signature: Seq<u8>,
    outcome: Result<(), SignatureVerificationError>,
) -> bool {
    exists|message: &[u8], signed: &[u8]|
        message@ == encode_utf8(text) && signed@ == signature && #[trigger] call_ensures(
            K::verify_signature,
            (keys, alg, message, signed),
            outcome,
        )
}

impl<JS, P> JsonWebToken<JS, P> {
    /// The token that a signing key's answer makes of serialized claims.
    pub open spec fn made(
        alg: JS,
        payload: P,
        signing_input: String,
        signed: Result<Vec<u8>, SigningError>,
    ) -> Result<Self, JsonWebTokenError> {
        match signed {
            Ok(signature) => Ok(JsonWebToken { alg: Some(alg), payload, signing_input, signature }),
            Err(error) => Err(JsonWebTokenError::SigningError(error)),
        }
    }

    /// Makes a token of serialized claims and the signing key's answer.
    pub fn from_signature(
        alg: JS,
        payload: P,
        signing_input: String,
        signed: Result<Vec<u8>, SigningError>,
    ) -> (token: Result<Self, JsonWebTokenError>)
        ensures
            token == Self::made(alg, payload, signing_input, signed),
    {
        match signed {
            Ok(signature) => Ok(JsonWebToken { alg: Some(alg), payload, signing_input, signature }),
            Err(error) => Err(JsonWebTokenError::SigningError(error)),
        }
    }

    /// Makes a signed token of the payload. `encode` serializes the header, which names the
    /// algorithm, and the payload.
    pub fn new<S, E>(payload: P, signing_key: &S, alg: JS, encode: E) -> (token: Result<
        Self,
        JsonWebTokenError,
    >) where
        S: PrivateSigningKey<JS>,
        E: FnOnce(&JS, &P) -> Result<String, serde_json::Error>,

        requires
            call_requires(encode, (&alg, &payload)),
        ensures
            exists|encoded: Result<String, serde_json::Error>| #[trigger]
                call_ensures(encode, (&alg, &payload), encoded) && match encoded {
                    Ok(signing_input) => exists|signed: Result<Vec<u8>, SigningError>| #[trigger]
                        may_sign(signing_key, &alg, signing_input@, signed) && token == Self::made(
                            alg,
                            payload,
                            signing_input,
                            signed,
                        ),
                    Err(error) => token == Err::<Self, JsonWebTokenError>(
                        JsonWebTokenError::SerializationError(error),
                    ),
                },
            token matches Ok(made) ==> {
                &&& made.alg == Some(alg)
                &&& made.payload == payload
                &&& call_ensures(
                    encode,
                    (&alg, &payload),
                    Ok::<String, serde_json::Error>(made.signing_input),
                )
                &&& exists|message: &[u8]|
                    message@ == encode_utf8(made.signing_input@) && #[trigger] call_ensures(
                        S::sign,
                        (signing_key, &alg, message),
                        Ok::<Vec<u8>, SigningError>(made.signature),
                    )
            },
            token matches Err(JsonWebTokenError::SigningError(error)) ==> exists|
                signing_input: String,
                message: &[u8],
            |
                #![trigger call_ensures(encode, (&alg, &payload), Ok::<String, serde_json::Error>(signing_input)), call_ensures(S::sign, (signing_key, &alg, message), Err::<Vec<u8>, SigningError>(error))]
                message@ == encode_utf8(signing_input@) && call_ensures(
                    encode,
                    (&alg, &payload),
                    Ok::<String, serde_json::Error>(signing_input),
                ) && call_ensures(
                    S::sign,
                    (signing_key, &alg, message),
                    Err::<Vec<u8>, SigningError>(error),
                ),
            token matches Err(JsonWebTokenError::SerializationError(error)) ==> call_ensures(
                encode,
                (&alg, &payload),
                Err::<String, serde_json::Error>(error),
            ),
    {
        match encode(&alg, &payload) {
            Ok(signing_input) => {
                let signed = signing_key.sign(&alg, signing_input.as_str().as_bytes());
                assert(may_sign(signing_key, &alg, signing_input@, signed));
                let ghost asked = (
                    &alg,
                    choose|message: &[u8]|
                        message@ == encode_utf8(signing_input@) && #[trigger] call_ensures(
                            S::sign,
                            (signing_key, &alg, message),
                            signed,
                        ),
                );
                let token = Self::from_signature(alg, payload, signing_input, signed);
                assert(token matches Ok(made) ==> call_ensures(
                    S::sign,
                    (signing_key, asked.0, asked.1),
                    Ok::<Vec<u8>, SigningError>(made.signature),
                ));
                token
            },
            Err(error) => Err(JsonWebTokenError::SerializationError(error)),
        }
    }
}

/// JSON Web Token (JWT) containing user info claims.
#[derive(Clone, Debug)]
pub struct UserInfoJsonWebToken<AC: AdditionalClaims, GC: GenderClaim, JS>(
    pub JsonWebToken<JS, UserInfoClaimsImpl<AC, GC>>,
);

impl<AC: AdditionalClaims, GC: GenderClaim, JS> UserInfoJsonWebToken<AC, GC, JS> {
    /// Initializes a new signed JWT containing the specified claims, signed with the specified key
    /// and signing algorithm. `encode` serializes the header, which names the algorithm, and the
    /// claims.
    pub fn new<S, E>(
        claims: UserInfoClaims<AC, GC>,
        signing_key: &S,
        alg: JS,
        encode: E,
    ) -> (token: Result<Self, JsonWebTokenError>) where
        S: PrivateSigningKey<JS>,
        E: FnOnce(&JS, &UserInfoClaimsImpl<AC, GC>) -> Result<String, serde_json::Error>,

        requires
            call_requires(encode, (&alg, &claims.0)),
        ensures
            exists|encoded: Result<String, serde_json::Error>| #[trigger]
                call_ensures(encode, (&alg, &claims.0), encoded) && match encoded {
                    Ok(signing_input) => exists|signed: Result<Vec<u8>, SigningError>| #[trigger]
                        may_sign(signing_key, &alg, signing_input@, signed) && match signed {
                            Ok(signature) => token == Ok::<Self, JsonWebTokenError>(
                                UserInfoJsonWebToken(
                                    JsonWebToken {
                                        alg: Some(alg),
                                        payload: claims.0,
                                        signing_input,
                                        signature,
                                    },
                                ),
                            ),
                            Err(error) => token == Err::<Self, JsonWebTokenError>(
                                JsonWebTokenError::SigningError(error),
                            ),
                        },
                    Err(error) => token == Err::<Self, JsonWebTokenError>(
                        JsonWebTokenError::SerializationError(error),
                    ),
                },
            token matches Ok(made) ==> {
                &&& made.0.alg == Some(alg)
                &&& made.0.payload == claims.0
                &&& call_ensures(
                    encode,
                    (&alg, &claims.0),
                    Ok::<String, serde_json::Error>(made.0.signing_input),
                )
                &&& exists|message: &[u8]|
                    message@ == encode_utf8(made.0.signing_input@) && #[trigger] call_ensures(
                        S::sign,
                        (signing_key, &alg, message),
                        Ok::<Vec<u8>, SigningError>(made.0.signature),
                    )
            },
            token matches Err(JsonWebTokenError::SigningError(error)) ==> exists|
                signing_input: String,
                message: &[u8],
            |
                #![trigger call_ensures(encode, (&alg, &claims.0), Ok::<String, serde_json::Error>(signing_input)), call_ensures(S::sign, (signing_key, &alg, message), Err::<Vec<u8>, SigningError>(error))]
                message@ == encode_utf8(signing_input@) && call_ensures(
                    encode,
                    (&alg, &claims.0),
                    Ok::<String, serde_json::Error>(signing_input),
                ) && call_ensures(
                    S::sign,
                    (signing_key, &alg, message),
                    Err::<Vec<u8>, SigningError>(error),
                ),
            token matches Err(JsonWebTokenError::SerializationError(error)) ==> call_ensures(
                encode,
                (&alg, &claims.0),
                Err::<String, serde_json::Error>(error),
            ),
    {
        match JsonWebToken::new(claims.0, signing_key, alg, encode) {
            Ok(token) => Ok(UserInfoJsonWebToken(token)),
            Err(error) => Err(error),
        }
    }

    /// Verifies and returns the user info claims.
    pub fn claims<K>(self, verifier: &UserInfoVerifier<K>) -> (claims: Result<
        UserInfoClaims<AC, GC>,
        ClaimsVerificationError,
    >) where K: JsonWebKey<JS>
        ensures
            verifier.may_verify_token(self.0, unwrapped(claims)),
    {
        match verifier.verified_claims(self.0) {
            Ok(claims) => Ok(UserInfoClaims(claims)),
            Err(error) => Err(error),
        }
    }
}

/// The claims inside [`UserInfoClaims`], or the contents of the error.
pub open spec fn unwrapped<AC: AdditionalClaims, GC: GenderClaim>(
    claims: Result<UserInfoClaims<AC, GC>, ClaimsVerificationError>,
) -> Result<UserInfoClaimsImpl<AC, GC>, ClaimsVerificationErrorView> {
    match claims {
        Ok(claims) => Ok(claims.0),
        Err(error) => Err(error@),
    }
}

} // verus!
