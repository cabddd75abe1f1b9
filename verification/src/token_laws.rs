//! What signing and verifying tokens gives, written out in terms of the claims, the keys and the
//! answers of the keys.
use crate::claims::{borrowed, AudiencesClaim, IssuerClaim, UserInfoClaims, UserInfoClaimsImpl};
use crate::errors::{
    with_error_view, ClaimsVerificationError, JsonWebTokenError, SignatureVerificationError,
    SigningError,
};
use crate::jwt::{
    may_sign, may_verify, unwrapped, JsonWebKey, JsonWebToken, PrivateSigningKey,
    UserInfoJsonWebToken,
};
use crate::laws::lemma_no_other_audience;
use crate::types::{AdditionalClaims, Audience, GenderClaim, SubjectIdentifier};
use crate::urls::IssuerUrl;
use crate::verification::{listed_audiences, subject_error, UserInfoVerifier};
use vstd::prelude::*;
use vstd::std_specs::cmp::PartialEqSpec;
use vstd::utf8::*;

verus! {

/// Two results of a verification with the same contents are the same: the same value, or errors of
/// the same kind with the same text or the same cause.
pub proof fn law_verification_error_contents<T>(
    result: Result<T, ClaimsVerificationError>,
    other: Result<T, ClaimsVerificationError>,
)
    requires
        with_error_view(result) == with_error_view(other),
    ensures
        result matches Ok(value) ==> other == Ok::<T, ClaimsVerificationError>(value),
        result matches Err(ClaimsVerificationError::InvalidAudience(m)) ==> (other matches Err(
            ClaimsVerificationError::InvalidAudience(n),
        ) && m@ == n@),
        result matches Err(ClaimsVerificationError::InvalidIssuer(m)) ==> (other matches Err(
            ClaimsVerificationError::InvalidIssuer(n),
        ) && m@ == n@),
        result matches Err(ClaimsVerificationError::InvalidSubject(m)) ==> (other matches Err(
            ClaimsVerificationError::InvalidSubject(n),
        ) && m@ == n@),
        result == Err::<T, _>(ClaimsVerificationError::NoSignature) ==> other == Err::<T, _>(
            ClaimsVerificationError::NoSignature,
        ),
        result matches Err(ClaimsVerificationError::SignatureVerification(e)) ==> other == Err::<
            T,
            _,
        >(ClaimsVerificationError::SignatureVerification(e)),
{
}

/// The issuer is checked if it has to match, and only then. It matches if it is there and has the
/// text of the expected issuer.
pub proof fn law_issuer_check<K, C: IssuerClaim>(
    verifier: UserInfoVerifier<K>,
    claims: C,
    issuer: Option<IssuerUrl>,
    checked: Result<(), ClaimsVerificationError>,
)
    requires
        issuer == claims.iss(),
        call_ensures(UserInfoVerifier::<K>::check_issuer::<C>, (&verifier, &claims), checked),
    ensures
        checked is Ok <==> (verifier.iss_required ==> issuer is Some && issuer->Some_0.text()
            == verifier.issuer.text()),
        checked is Err && issuer is None ==> (checked matches Err(
            ClaimsVerificationError::InvalidIssuer(m),
        ) && m@ == "missing issuer claim"@),
        checked is Err && issuer is Some ==> (checked matches Err(
            ClaimsVerificationError::InvalidIssuer(m),
        ) && m@ == "expected `"@ + verifier.issuer.text() + "` (found `"@ + issuer->Some_0.text()
            + "`)"@),
{
}

/// Issuer URLs are equal when their texts are.
pub proof fn law_issuers_are_compared_as_text(one: IssuerUrl, other: IssuerUrl)
    ensures
        one.eq_spec(&other) <==> one.text() == other.text(),
{
}

/// The audiences are checked if they have to match, and only then. They match if this client is
/// an audience, and the only one. Otherwise the first audience that is another is named, or all of
/// them if this client is not among them.
pub proof fn law_audience_check<K, C: AudiencesClaim>(
    verifier: UserInfoVerifier<K>,
    claims: C,
    audiences: Option<Vec<Audience>>,
    checked: Result<(), ClaimsVerificationError>,
)
    requires
        audiences == claims.aud(),
        call_ensures(UserInfoVerifier::<K>::check_audiences::<C>, (&verifier, &claims), checked),
    ensures
        checked is Ok <==> (verifier.aud_match_required ==> audiences is Some
            && audiences->Some_0@.len() > 0 && (forall|i: int|
            0 <= i < audiences->Some_0@.len() ==> (#[trigger] audiences->Some_0@[i]).0@
                == verifier.client_id.0@)),
        checked is Err && audiences is None ==> (checked matches Err(
            ClaimsVerificationError::InvalidAudience(m),
        ) && m@ == "missing audiences claim"@),
        checked is Err && audiences is Some && (forall|i: int|
            0 <= i < audiences->Some_0@.len() ==> (#[trigger] audiences->Some_0@[i]).0@
                != verifier.client_id.0@) ==> (checked matches Err(
            ClaimsVerificationError::InvalidAudience(m),
        ) && m@ == "must contain `"@ + verifier.client_id.0@ + "` (found audiences: "@
            + listed_audiences(audiences->Some_0@) + ")"@),
        checked is Err && audiences is Some && (exists|i: int|
            0 <= i < audiences->Some_0@.len() && (#[trigger] audiences->Some_0@[i]).0@
                == verifier.client_id.0@) ==> (checked matches Err(
            ClaimsVerificationError::InvalidAudience(m),
        ) && exists|i: int|
            0 <= i < audiences->Some_0@.len() && (#[trigger] audiences->Some_0@[i]).0@
                != verifier.client_id.0@ && (forall|j: int|
                0 <= j < i ==> (#[trigger] audiences->Some_0@[j]).0@ == verifier.client_id.0@)
                && m@ == "`"@ + audiences->Some_0@[i].0@ + "` is not a trusted audience"@),
{
    if audiences is Some {
        lemma_no_other_audience(audiences->Some_0@, verifier.client_id.0@);
        lemma_first_other_audience(audiences->Some_0@, verifier.client_id.0@);
    }
}

/// Audiences are listed in backticks, in their order, separated by a comma and a space.
pub proof fn law_listed_audiences(audiences: Seq<Audience>, next: Audience)
    ensures
        listed_audiences(Seq::empty()) == Seq::<char>::empty(),
        listed_audiences(seq![next]) == seq!['`'] + next.0@ + seq!['`'],
        audiences.len() > 0 ==> listed_audiences(audiences.push(next)) == listed_audiences(audiences)
            + seq![',', ' ', '`'] + next.0@ + seq!['`'],
{
    reveal_strlit("`");
    reveal_strlit("");
    reveal_strlit(", ");
    reveal_with_fuel(listed_audiences, 2);
    assert(seq![next].drop_last() =~= Seq::<Audience>::empty());
    assert(audiences.push(next).drop_last() =~= audiences);
    assert(listed_audiences(seq![next]) =~= seq!['`'] + next.0@ + seq!['`']);
    assert(audiences.len() > 0 ==> listed_audiences(audiences.push(next)) =~= listed_audiences(
        audiences,
    ) + seq![',', ' ', '`'] + next.0@ + seq!['`']);
}

/// The subject matches if none is expected or if it has the text of the expected one.
pub proof fn law_subject_check(
    expected: Option<&SubjectIdentifier>,
    found: SubjectIdentifier,
    checked: Result<(), ClaimsVerificationError>,
)
    requires
        with_error_view(checked) == match subject_error(expected, found) {
            Some(error) => Err(error),
            None => Ok(()),
        },
    ensures
        checked is Ok <==> expected is None || expected->Some_0.0@ == found.0@,
        checked is Err ==> (checked matches Err(ClaimsVerificationError::InvalidSubject(m)) && m@
            == "expected `"@ + expected->Some_0.0@ + "` (found `"@ + found.0@ + "`)"@),
{
}

/// What a verifier expects of the subject is what it was made to expect, and claims are read from
/// their own fields.
pub proof fn law_accessors<K, AC: AdditionalClaims, GC: GenderClaim>(
    verifier: UserInfoVerifier<K>,
    claims: UserInfoClaimsImpl<AC, GC>,
    subject: Option<&SubjectIdentifier>,
)
    requires
        call_ensures(UserInfoVerifier::<K>::expected_subject, (&verifier,), subject),
    ensures
        subject == verifier.subject(),
        verifier.subject() is Some <==> verifier.expected_subject is Some,
        verifier.subject() matches Some(subject) ==> verifier.expected_subject == Some(*subject),
        claims.aud() == claims.audiences,
        claims.iss() == claims.issuer,
        (&claims).aud() == claims.audiences,
        (&claims).iss() == claims.issuer,
{
}

/// An option with a reference to its value has a value where the option has one, the same.
pub proof fn law_borrowed<T>(value: Option<T>)
    ensures
        borrowed(&value) is Some <==> value is Some,
        borrowed(&value) matches Some(inner) ==> value == Some(*inner),
{
}

/// Given the answer of the keys about its signature, a token is verified exactly when the issuer
/// matches or does not have to, this client is the only audience or does not have to be, the token
/// is signed, the keys accept the signature, and the subject is the expected one if one is
/// expected. Its claims are then returned as they are.
pub proof fn law_token_is_verified_iff_it_matches<K, JS, AC: AdditionalClaims, GC: GenderClaim>(
    verifier: UserInfoVerifier<K>,
    token: JsonWebToken<JS, UserInfoClaimsImpl<AC, GC>>,
    signature: Result<(), SignatureVerificationError>,
    claims: Result<UserInfoClaimsImpl<AC, GC>, ClaimsVerificationError>,
)
    requires
        call_ensures(
            UserInfoVerifier::<K>::verified_with::<JS, AC, GC>,
            (&verifier, token, signature),
            claims,
        ),
    ensures
        claims is Ok <==> {
            &&& verifier.iss_required ==> token.payload.issuer is Some
                && token.payload.issuer->Some_0.text() == verifier.issuer.text()
            &&& verifier.aud_match_required ==> token.payload.audiences is Some
                && token.payload.audiences->Some_0@.len() > 0 && forall|i: int|
                0 <= i < token.payload.audiences->Some_0@.len() ==> (
                #[trigger] token.payload.audiences->Some_0@[i]).0@ == verifier.client_id.0@
            &&& token.alg is Some
            &&& signature is Ok
            &&& verifier.expected_subject is Some ==> verifier.expected_subject->Some_0.0@
                == token.payload.standard_claims.sub.0@
        },
        claims is Ok ==> claims == Ok::<_, ClaimsVerificationError>(token.payload),
{
    if token.payload.audiences is Some {
        lemma_no_other_audience(token.payload.audiences->Some_0@, verifier.client_id.0@);
    }
}

/// A token is refused for the first of these reasons that holds: its issuer, its audiences, that
/// it is not signed, its signature, its subject.
pub proof fn law_token_is_refused_for_first_reason<K, JS, AC: AdditionalClaims, GC: GenderClaim>(
    verifier: UserInfoVerifier<K>,
    token: JsonWebToken<JS, UserInfoClaimsImpl<AC, GC>>,
    signature: Result<(), SignatureVerificationError>,
    claims: Result<UserInfoClaimsImpl<AC, GC>, ClaimsVerificationError>,
)
    requires
        call_ensures(
            UserInfoVerifier::<K>::verified_with::<JS, AC, GC>,
            (&verifier, token, signature),
            claims,
        ),
        claims is Err,
    ensures
        ({
            let issuer_matches = verifier.iss_required ==> token.payload.issuer is Some
                && token.payload.issuer->Some_0.text() == verifier.issuer.text();
            let audience_matches = verifier.aud_match_required ==> token.payload.audiences is Some
                && token.payload.audiences->Some_0@.len() > 0 && forall|i: int|
                0 <= i < token.payload.audiences->Some_0@.len() ==> (
                #[trigger] token.payload.audiences->Some_0@[i]).0@ == verifier.client_id.0@;
            if !issuer_matches {
                claims matches Err(ClaimsVerificationError::InvalidIssuer(m)) && m@
                    == if token.payload.issuer is None {
                    "missing issuer claim"@
                } else {
                    "expected `"@ + verifier.issuer.text() + "` (found `"@
                        + token.payload.issuer->Some_0.text() + "`)"@
                }
            } else if !audience_matches {
                &&& claims->Err_0 is InvalidAudience
                &&& Some(claims->Err_0@) == verifier.audience_error(token.payload.audiences)
            } else if token.alg is None {
                claims->Err_0 == ClaimsVerificationError::NoSignature
            } else if signature is Err {
                claims->Err_0 == ClaimsVerificationError::SignatureVerification(signature->Err_0)
            } else {
                claims matches Err(ClaimsVerificationError::InvalidSubject(m)) && m@
                    == "expected `"@ + verifier.expected_subject->Some_0.0@ + "` (found `"@
                    + token.payload.standard_claims.sub.0@ + "`)"@
            }
        }),
{
    if token.payload.audiences is Some {
        lemma_no_other_audience(token.payload.audiences->Some_0@, verifier.client_id.0@);
    }
}

/// A token whose issuer and audiences match or do not have to, and that is signed, is decided by
/// the answer of the keys. They are asked about the bytes of its signing input and about its
/// signature, with its algorithm. If they accept, the claims are returned as they are, provided
/// that the subject is the expected one; if they refuse, so is the token, for their reason.
pub proof fn law_keys_decide_about_matching_token<
    K: JsonWebKey<JS>,
    JS,
    AC: AdditionalClaims,
    GC: GenderClaim,
>(
    verifier: UserInfoVerifier<K>,
    token: JsonWebToken<JS, UserInfoClaimsImpl<AC, GC>>,
    claims: Result<UserInfoClaims<AC, GC>, ClaimsVerificationError>,
)
    requires
        verifier.may_verify_token(token, unwrapped(claims)),
        verifier.iss_required ==> token.payload.issuer is Some
            && token.payload.issuer->Some_0.text() == verifier.issuer.text(),
        verifier.aud_match_required ==> token.payload.audiences is Some
            && token.payload.audiences->Some_0@.len() > 0 && forall|i: int|
            0 <= i < token.payload.audiences->Some_0@.len() ==> (
            #[trigger] token.payload.audiences->Some_0@[i]).0@ == verifier.client_id.0@,
        token.alg is Some,
    ensures
        exists|
            message: &[u8],
            signature: &[u8],
            answer: Result<(), SignatureVerificationError>,
        |
            {
                &&& #[trigger] call_ensures(
                    K::verify_signature,
                    (&verifier.signature_keys, &token.alg->Some_0, message, signature),
                    answer,
                )
                &&& message@ == encode_utf8(token.signing_input@)
                &&& signature@ == token.signature@
                &&& match answer {
                    Err(error) => claims == Err::<UserInfoClaims<AC, GC>, _>(
                        ClaimsVerificationError::SignatureVerification(error),
                    ),
                    Ok(_) => if verifier.expected_subject is None
                        || verifier.expected_subject->Some_0.0@
                        == token.payload.standard_claims.sub.0@ {
                        claims == Ok::<_, ClaimsVerificationError>(UserInfoClaims(token.payload))
                    } else {
                        claims matches Err(ClaimsVerificationError::InvalidSubject(m)) && m@
                            == "expected `"@ + verifier.expected_subject->Some_0.0@ + "` (found `"@
                            + token.payload.standard_claims.sub.0@ + "`)"@
                    },
                }
            },
{
    if token.payload.audiences is Some {
        lemma_no_other_audience(token.payload.audiences->Some_0@, verifier.client_id.0@);
    }
}

/// Asked for its claims, a token whose issuer and audiences match or do not have to, and that is
/// signed, leaves the decision to the keys. They are asked about the bytes of its signing input and about its
/// signature, with its algorithm. If they accept, the claims are returned as they are, provided
/// that the subject is the expected one; if they refuse, so is the token, for their reason.
pub proof fn law_claims_of_matching_token<
    K: JsonWebKey<JS>,
    JS,
    AC: AdditionalClaims,
    GC: GenderClaim,
>(
    verifier: UserInfoVerifier<K>,
    signed: UserInfoJsonWebToken<AC, GC, JS>,
    token: JsonWebToken<JS, UserInfoClaimsImpl<AC, GC>>,
    claims: Result<UserInfoClaims<AC, GC>, ClaimsVerificationError>,
)
    requires
        signed.0 == token,
        call_ensures(
            UserInfoJsonWebToken::<AC, GC, JS>::claims::<K>,
            (signed, &verifier),
            claims,
        ),
        verifier.iss_required ==> token.payload.issuer is Some
            && token.payload.issuer->Some_0.text() == verifier.issuer.text(),
        verifier.aud_match_required ==> token.payload.audiences is Some
            && token.payload.audiences->Some_0@.len() > 0 && forall|i: int|
            0 <= i < token.payload.audiences->Some_0@.len() ==> (
            #[trigger] token.payload.audiences->Some_0@[i]).0@ == verifier.client_id.0@,
        token.alg is Some,
    ensures
        exists|
            message: &[u8],
            signature: &[u8],
            answer: Result<(), SignatureVerificationError>,
        |
            {
                &&& #[trigger] call_ensures(
                    K::verify_signature,
                    (&verifier.signature_keys, &token.alg->Some_0, message, signature),
                    answer,
                )
                &&& message@ == encode_utf8(token.signing_input@)
                &&& signature@ == token.signature@
                &&& match answer {
                    Err(error) => claims == Err::<UserInfoClaims<AC, GC>, _>(
                        ClaimsVerificationError::SignatureVerification(error),
                    ),
                    Ok(_) => if verifier.expected_subject is None
                        || verifier.expected_subject->Some_0.0@
                        == token.payload.standard_claims.sub.0@ {
                        claims == Ok::<_, ClaimsVerificationError>(UserInfoClaims(token.payload))
                    } else {
                        claims matches Err(ClaimsVerificationError::InvalidSubject(m)) && m@
                            == "expected `"@ + verifier.expected_subject->Some_0.0@ + "` (found `"@
                            + token.payload.standard_claims.sub.0@ + "`)"@
                    },
                }
            },
{
    law_keys_decide_about_matching_token(verifier, token, claims);
}

/// Verifying a token gives the claims that the token gives when asked for them.
pub proof fn law_verified_claims<K: JsonWebKey<JS>, JS, AC: AdditionalClaims, GC: GenderClaim>(
    verifier: UserInfoVerifier<K>,
    token: JsonWebToken<JS, UserInfoClaimsImpl<AC, GC>>,
    verified: Result<UserInfoClaimsImpl<AC, GC>, ClaimsVerificationError>,
)
    requires
        call_ensures(
            UserInfoVerifier::<K>::verified_claims::<JS, AC, GC>,
            (&verifier, token),
            verified,
        ),
    ensures
        verified matches Ok(inner) ==> verifier.may_verify_token(
            token,
            unwrapped(Ok(UserInfoClaims(inner))),
        ) && inner == token.payload,
        verified matches Err(error) ==> verifier.may_verify_token(
            token,
            unwrapped(Err::<UserInfoClaims<AC, GC>, ClaimsVerificationError>(error)),
        ),
{
}

/// A token whose issuer or audiences do not match though they have to, or that is not signed, is
/// refused whatever the keys would say.
pub proof fn law_mismatched_token_is_refused<
    K: JsonWebKey<JS>,
    JS,
    AC: AdditionalClaims,
    GC: GenderClaim,
>(
    verifier: UserInfoVerifier<K>,
    token: JsonWebToken<JS, UserInfoClaimsImpl<AC, GC>>,
    signed: UserInfoJsonWebToken<AC, GC, JS>,
    signature: Result<(), SignatureVerificationError>,
    claims: Result<UserInfoClaims<AC, GC>, ClaimsVerificationError>,
)
    requires
        signed.0 == token,
        call_ensures(
            UserInfoJsonWebToken::<AC, GC, JS>::claims::<K>,
            (signed, &verifier),
            claims,
        ),
        !{
            &&& verifier.iss_required ==> token.payload.issuer is Some
                && token.payload.issuer->Some_0.text() == verifier.issuer.text()
            &&& verifier.aud_match_required ==> token.payload.audiences is Some
                && token.payload.audiences->Some_0@.len() > 0 && forall|i: int|
                0 <= i < token.payload.audiences->Some_0@.len() ==> (
                #[trigger] token.payload.audiences->Some_0@[i]).0@ == verifier.client_id.0@
            &&& token.alg is Some
        },
    ensures
        claims is Err,
        verifier.verified(token, signature) is Err,
        claims->Err_0@ == verifier.verified(token, signature)->Err_0,
{
    if token.payload.audiences is Some {
        lemma_no_other_audience(token.payload.audiences->Some_0@, verifier.client_id.0@);
    }
}

/// The claims that verification hands out are those inside the result.
pub proof fn law_unwrapped<AC: AdditionalClaims, GC: GenderClaim>(
    claims: Result<UserInfoClaims<AC, GC>, ClaimsVerificationError>,
    inner: Result<UserInfoClaimsImpl<AC, GC>, ClaimsVerificationError>,
)
    requires
        unwrapped(claims) == with_error_view(inner),
    ensures
        claims is Ok <==> inner is Ok,
        claims is Ok ==> claims->Ok_0.0 == inner->Ok_0,
        claims is Err ==> claims->Err_0@ == inner->Err_0@,
{
}

/// A key is asked to sign the bytes of a text, and keys are asked about the bytes of a text and
/// about a signature.
pub proof fn law_keys_are_asked_about_bytes<K: JsonWebKey<JS>, S: PrivateSigningKey<JS>, JS>(
    signing_key: &S,
    keys: &K,
    alg: &JS,
    text: Seq<char>,
    signature: Seq<u8>,
    signed: Result<Vec<u8>, SigningError>,
    answer: Result<(), SignatureVerificationError>,
)
    ensures
        may_sign(signing_key, alg, text, signed) <==> exists|message: &[u8]|
            message@ == encode_utf8(text) && #[trigger] call_ensures(
                S::sign,
                (signing_key, alg, message),
                signed,
            ),
        may_verify(keys, alg, text, signature, answer) <==> exists|message: &[u8], given: &[u8]|
            message@ == encode_utf8(text) && given@ == signature && #[trigger] call_ensures(
                K::verify_signature,
                (keys, alg, message, given),
                answer,
            ),
{
}

/// A token is made of what went into it and of the signature that the key gave, and not made if
/// the key gave none.
pub proof fn law_token_is_made_of_its_parts<JS, P>(
    alg: JS,
    payload: P,
    signing_input: String,
    signed: Result<Vec<u8>, SigningError>,
    token: Result<JsonWebToken<JS, P>, JsonWebTokenError>,
)
    requires
        call_ensures(
            JsonWebToken::<JS, P>::from_signature,
            (alg, payload, signing_input, signed),
            token,
        ),
    ensures
        token == JsonWebToken::made(alg, payload, signing_input, signed),
        match signed {
            Err(error) => token == Err::<JsonWebToken<JS, P>, _>(
                JsonWebTokenError::SigningError(error),
            ),
            Ok(signature) => {
                &&& token is Ok
                &&& token->Ok_0.alg == Some(alg)
                &&& token->Ok_0.payload == payload
                &&& token->Ok_0.signing_input == signing_input
                &&& token->Ok_0.signature == signature
            },
        },
{
}

/// Signing and verifying fit together. Take a token made of claims by a signing key: the signature
/// is an answer of the key to the bytes of the signing input. Where the keys accept every
/// signature that the signing key makes of a message as a signature of that same message, the
/// token is verified and gives back the claims that went into it, provided that these claims match
/// what the verifier expects.
pub proof fn law_signed_token_is_verified<
    K: JsonWebKey<JS>,
    S: PrivateSigningKey<JS>,
    JS,
    AC: AdditionalClaims,
    GC: GenderClaim,
>(
    verifier: UserInfoVerifier<K>,
    signing_key: &S,
    alg: JS,
    payload: UserInfoClaimsImpl<AC, GC>,
    signing_input: String,
    signed: Result<Vec<u8>, SigningError>,
    token: Result<JsonWebToken<JS, UserInfoClaimsImpl<AC, GC>>, JsonWebTokenError>,
    claims: Result<UserInfoClaims<AC, GC>, ClaimsVerificationError>,
)
    requires
        forall|
            message: &[u8],
            same_message: &[u8],
            made: Vec<u8>,
            given: &[u8],
            answer: Result<(), SignatureVerificationError>,
        |
            #![trigger call_ensures(S::sign, (signing_key, &alg, message), Ok::<Vec<u8>, SigningError>(made)), call_ensures(K::verify_signature, (&verifier.signature_keys, &alg, same_message, given), answer)]
            {
                &&& message@ == same_message@
                &&& made@ == given@
                &&& call_ensures(
                    S::sign,
                    (signing_key, &alg, message),
                    Ok::<Vec<u8>, SigningError>(made),
                )
                &&& call_ensures(
                    K::verify_signature,
                    (&verifier.signature_keys, &alg, same_message, given),
                    answer,
                )
            } ==> answer is Ok,
        may_sign(signing_key, &alg, signing_input@, signed),
        token == JsonWebToken::made(alg, payload, signing_input, signed),
        signed is Ok,
        verifier.may_verify_token(token->Ok_0, unwrapped(claims)),
        verifier.iss_required ==> payload.issuer is Some && payload.issuer->Some_0.text()
            == verifier.issuer.text(),
        verifier.aud_match_required ==> payload.audiences is Some
            && payload.audiences->Some_0@.len() > 0 && forall|i: int|
            0 <= i < payload.audiences->Some_0@.len() ==> (
            #[trigger] payload.audiences->Some_0@[i]).0@ == verifier.client_id.0@,
        verifier.expected_subject is None || verifier.expected_subject->Some_0.0@
            == payload.standard_claims.sub.0@,
    ensures
        claims == Ok::<_, ClaimsVerificationError>(UserInfoClaims(payload)),
{
    law_keys_decide_about_matching_token(verifier, token->Ok_0, claims);
}

/// A new token holds the claims and the algorithm that it was made with. Its signing input is what
/// the encoder made of them, and its signature what the key made of the bytes of that input. It is
/// not made exactly when the encoder or the key fails, and their error is handed on.
pub proof fn law_new_token<
    S: PrivateSigningKey<JS>,
    JS,
    AC: AdditionalClaims,
    GC: GenderClaim,
    E: FnOnce(&JS, &UserInfoClaimsImpl<AC, GC>) -> Result<String, serde_json::Error>,
>(
    claims: UserInfoClaims<AC, GC>,
    signing_key: &S,
    alg: JS,
    encode: E,
    token: Result<UserInfoJsonWebToken<AC, GC, JS>, JsonWebTokenError>,
)
    requires
        call_ensures(
            UserInfoJsonWebToken::<AC, GC, JS>::new::<S, E>,
            (claims, signing_key, alg, encode),
            token,
        ),
    ensures
        match token {
            Ok(made) => {
                &&& made.0.payload == claims.0
                &&& made.0.alg == Some(alg)
                &&& call_ensures(
                    encode,
                    (&alg, &claims.0),
                    Ok::<String, serde_json::Error>(made.0.signing_input),
                )
                &&& exists|message: &[u8]|
                    message@ == encode_utf8(made.0.signing_input@) && #[trigger] call_ensures(
                        S::sign,
                        (signing_key, &alg, message),
                        Ok::<Vec<u8>, SigningError>(made.0.signature),
                    )
            },
            Err(JsonWebTokenError::SerializationError(error)) => call_ensures(
                encode,
                (&alg, &claims.0),
                Err::<String, serde_json::Error>(error),
            ),
            Err(JsonWebTokenError::SigningError(error)) => exists|
                signing_input: String,
                message: &[u8],
            |
                message@ == encode_utf8(signing_input@) && #[trigger] call_ensures(
                    encode,
                    (&alg, &claims.0),
                    Ok::<String, serde_json::Error>(signing_input),
                ) && #[trigger] call_ensures(
                    S::sign,
                    (signing_key, &alg, message),
                    Err::<Vec<u8>, SigningError>(error),
                ),
        },
{
}

/// A new token gives back its claims, unchanged, to a verifier that they match and whose keys
/// accept every signature that the signing key makes of a message as a signature of that message.
pub proof fn law_new_token_gives_back_claims<
    K: JsonWebKey<JS>,
    S: PrivateSigningKey<JS>,
    JS,
    AC: AdditionalClaims,
    GC: GenderClaim,
    E: FnOnce(&JS, &UserInfoClaimsImpl<AC, GC>) -> Result<String, serde_json::Error>,
>(
    verifier: UserInfoVerifier<K>,
    claims: UserInfoClaims<AC, GC>,
    signing_key: &S,
    alg: JS,
    encode: E,
    token: UserInfoJsonWebToken<AC, GC, JS>,
    back: Result<UserInfoClaims<AC, GC>, ClaimsVerificationError>,
)
    requires
        call_ensures(
            UserInfoJsonWebToken::<AC, GC, JS>::new::<S, E>,
            (claims, signing_key, alg, encode),
            Ok::<UserInfoJsonWebToken<AC, GC, JS>, JsonWebTokenError>(token),
        ),
        call_ensures(UserInfoJsonWebToken::<AC, GC, JS>::claims::<K>, (token, &verifier), back),
        forall|
            message: &[u8],
            same_message: &[u8],
            made: Vec<u8>,
            given: &[u8],
            answer: Result<(), SignatureVerificationError>,
        |
            #![trigger call_ensures(S::sign, (signing_key, &alg, message), Ok::<Vec<u8>, SigningError>(made)), call_ensures(K::verify_signature, (&verifier.signature_keys, &alg, same_message, given), answer)]
            {
                &&& message@ == same_message@
                &&& made@ == given@
                &&& call_ensures(
                    S::sign,
                    (signing_key, &alg, message),
                    Ok::<Vec<u8>, SigningError>(made),
                )
                &&& call_ensures(
                    K::verify_signature,
                    (&verifier.signature_keys, &alg, same_message, given),
                    answer,
                )
            } ==> answer is Ok,
        verifier.iss_required ==> claims.0.issuer is Some && claims.0.issuer->Some_0.text()
            == verifier.issuer.text(),
        verifier.aud_match_required ==> claims.0.audiences is Some
            && claims.0.audiences->Some_0@.len() > 0 && forall|i: int|
            0 <= i < claims.0.audiences->Some_0@.len() ==> (
            #[trigger] claims.0.audiences->Some_0@[i]).0@ == verifier.client_id.0@,
        verifier.expected_subject is None || verifier.expected_subject->Some_0.0@
            == claims.0.standard_claims.sub.0@,
    ensures
        back == Ok::<_, ClaimsVerificationError>(claims),
{
    law_claims_of_matching_token(verifier, token, token.0, back);
}

/// The first audience that is not `client` is found, if there is one.
proof fn lemma_first_other_audience(audiences: Seq<Audience>, client: Seq<char>)
    ensures
        crate::verification::first_other_audience(audiences, client) is Some ==> exists|i: int|
            0 <= i < audiences.len() && (#[trigger] audiences[i]).0@ != client && (forall|j: int|
                0 <= j < i ==> (#[trigger] audiences[j]).0@ == client)
                && crate::verification::first_other_audience(audiences, client) == Some(
                audiences[i].0@,
            ),
    decreases audiences.len(),
{
    if audiences.len() > 0 {
        let rest = audiences.drop_first();
        lemma_first_other_audience(rest, client);
        if audiences[0].0@ == client && crate::verification::first_other_audience(
            rest,
            client,
        ) is Some {
            let i = choose|i: int|
                0 <= i < rest.len() && (#[trigger] rest[i]).0@ != client && (forall|j: int|
                    0 <= j < i ==> (#[trigger] rest[j]).0@ == client)
                    && crate::verification::first_other_audience(rest, client) == Some(rest[i].0@);
            assert(audiences[i + 1] == rest[i]);
            assert forall|j: int| 0 <= j < i + 1 implies (#[trigger] audiences[j]).0@ == client by {
                if j > 0 {
                    assert(rest[j - 1].0@ == client);
                }
            }
        }
    }
}

} // verus!
