//! What holds of user info requests, claims and tokens as a whole.
use crate::claims::{UserInfoClaims, UserInfoClaimsImpl};
use crate::errors::{
    ClaimsVerificationErrorView, SignatureVerificationError, SigningError, UserInfoErrorView,
};
use crate::headers::header_entries;
use crate::jwt::{
    may_sign, may_verify, JsonWebKey, JsonWebToken, PrivateSigningKey, UserInfoJsonWebToken,
};
use crate::types::{AdditionalClaims, Audience, GenderClaim, SubjectIdentifier};
use crate::request::{
    json_type, jwt_type, lemma_media_types_differ, HttpRequest, HttpResponse, ResponseContentView,
    UserInfoRequest,
};
use crate::verification::{
    first_other_audience, is_audience, is_expected_subject, UserInfoVerifier,
};
use vstd::prelude::*;

verus! {

/// Accepted claims are about the expected subject, whether the response was signed or not.
pub proof fn law_accepted_claims_have_expected_subject<
    K: JsonWebKey<JS>,
    AC: AdditionalClaims,
    GC: GenderClaim,
    JS,
    RE,
    PC: FnOnce(&[u8]) -> Result<UserInfoClaimsImpl<AC, GC>, serde_json::Error>,
    PT: FnOnce(String) -> Result<UserInfoJsonWebToken<AC, GC, JS>, serde_json::Error>,
>(
    request: UserInfoRequest<K>,
    response: HttpResponse,
    parse_claims: PC,
    parse_token: PT,
    claims: UserInfoClaims<AC, GC>,
)
    requires
        request.may_answer::<AC, GC, JS, RE, PC, PT>(
            response,
            parse_claims,
            parse_token,
            Ok(claims),
        ),
    ensures
        is_expected_subject(
            request.signed_response_verifier.subject(),
            claims.0.standard_claims.sub,
        ),
{
}

/// Parsed claims are accepted exactly when they are about the expected subject, if one is
/// provided, and are then returned as they are. Claims about another subject are refused as such.
pub proof fn law_parsed_claims_are_checked_for_subject<AC: AdditionalClaims, GC: GenderClaim, RE>(
    claims: UserInfoClaimsImpl<AC, GC>,
    expected_subject: SubjectIdentifier,
)
    ensures
        UserInfoClaims::accepted::<RE>(Ok(claims), None) == Ok::<
            UserInfoClaims<AC, GC>,
            UserInfoErrorView<RE>,
        >(UserInfoClaims(claims)),
        claims.standard_claims.sub.0@ == expected_subject.0@ ==> UserInfoClaims::accepted::<RE>(
            Ok(claims),
            Some(&expected_subject),
        ) == Ok::<UserInfoClaims<AC, GC>, UserInfoErrorView<RE>>(UserInfoClaims(claims)),
        claims.standard_claims.sub.0@ != expected_subject.0@ ==> match UserInfoClaims::accepted::<
            RE,
        >(Ok(claims), Some(&expected_subject)) {
            Err(UserInfoErrorView::ClaimsVerification(error)) => error is InvalidSubject,
            _ => false,
        },
{
}

/// Where a signed response is required, a JSON response is refused for want of a signature,
/// whatever it holds.
pub proof fn law_unsigned_response_is_refused<K, RE>(
    request: UserInfoRequest<K>,
    response: HttpResponse,
)
    requires
        request.require_signed_response,
        response.status_code == 200,
        response.content_type().0 == json_type(),
    ensures
        request.accepted_content::<RE>(response) == Err::<ResponseContentView, UserInfoErrorView<RE>>(
            UserInfoErrorView::ClaimsVerification(ClaimsVerificationErrorView::NoSignature),
        ),
{
}

/// Claims are accepted only from a response with the status code 200, with the content type of
/// JSON or of a JSON Web Token.
pub proof fn law_only_successful_responses_are_accepted<
    K: JsonWebKey<JS>,
    AC: AdditionalClaims,
    GC: GenderClaim,
    JS,
    RE,
    PC: FnOnce(&[u8]) -> Result<UserInfoClaimsImpl<AC, GC>, serde_json::Error>,
    PT: FnOnce(String) -> Result<UserInfoJsonWebToken<AC, GC, JS>, serde_json::Error>,
>(
    request: UserInfoRequest<K>,
    response: HttpResponse,
    parse_claims: PC,
    parse_token: PT,
    claims: UserInfoClaims<AC, GC>,
)
    requires
        request.may_answer::<AC, GC, JS, RE, PC, PT>(
            response,
            parse_claims,
            parse_token,
            Ok(claims),
        ),
    ensures
        response.status_code == 200,
        response.content_type().0 == json_type() || response.content_type().0 == jwt_type(),
{
}

/// Claims that are accepted from a response with the content type of JSON Web Tokens are those of
/// the token that its body holds. The keys accepted the signature of that token. The claims have
/// the expected issuer if the issuer has to match, and this client as their only audience if the
/// audience has to match.
pub proof fn law_signed_response_was_verified<
    K: JsonWebKey<JS>,
    AC: AdditionalClaims,
    GC: GenderClaim,
    JS,
    RE,
    PC: FnOnce(&[u8]) -> Result<UserInfoClaimsImpl<AC, GC>, serde_json::Error>,
    PT: FnOnce(String) -> Result<UserInfoJsonWebToken<AC, GC, JS>, serde_json::Error>,
>(
    request: UserInfoRequest<K>,
    response: HttpResponse,
    parse_claims: PC,
    parse_token: PT,
    claims: UserInfoClaims<AC, GC>,
)
    requires
        response.content_type().0 == jwt_type(),
        request.may_answer::<AC, GC, JS, RE, PC, PT>(
            response,
            parse_claims,
            parse_token,
            Ok(claims),
        ),
    ensures
        exists|text: String, token: UserInfoJsonWebToken<AC, GC, JS>|
            {
                &&& #[trigger] call_ensures(parse_token, (text,), Ok(token))
                &&& vstd::utf8::encode_utf8(text@) == response.body@
                &&& token.0.payload == claims.0
                &&& token.0.alg is Some
                &&& may_verify(
                    &request.signed_response_verifier.signature_keys,
                    &token.0.alg->Some_0,
                    token.0.signing_input@,
                    token.0.signature@,
                    Ok(()),
                )
            },
        request.signed_response_verifier.iss_required ==> claims.0.issuer is Some
            && claims.0.issuer->Some_0.text() == request.signed_response_verifier.issuer.text(),
        request.signed_response_verifier.aud_match_required ==> claims.0.audiences is Some
            && claims.0.audiences->Some_0@.len() > 0 && forall|i: int|
            0 <= i < claims.0.audiences->Some_0@.len() ==> (
            #[trigger] claims.0.audiences->Some_0@[i]).0@
                == request.signed_response_verifier.client_id.0@,
{
    lemma_media_types_differ();
    vstd::utf8::decode_utf8_encode_utf8(response.body@);
    let (text, parsed) = choose|
        text: String,
        parsed: Result<UserInfoJsonWebToken<AC, GC, JS>, serde_json::Error>,
    |
        text@ == vstd::utf8::decode_utf8(response.body@) && #[trigger] call_ensures(
            parse_token,
            (text,),
            parsed,
        ) && request.may_accept_token::<AC, GC, JS, RE>(parsed, Ok(claims));
    let token = parsed->Ok_0;
    let verifier = request.signed_response_verifier;
    assert(verifier.may_verify_token(token.0, Ok(claims.0)));
    let signature = choose|signature: Result<(), SignatureVerificationError>| #[trigger]
        may_verify(
            &verifier.signature_keys,
            &token.0.alg->Some_0,
            token.0.signing_input@,
            token.0.signature@,
            signature,
        ) && verifier.verified(token.0, signature) == Ok::<
            UserInfoClaimsImpl<AC, GC>,
            ClaimsVerificationErrorView,
        >(claims.0);
    law_verified_claims_match(verifier, token.0, signature, claims.0);
    // The answer is `Ok(())`: there is one unit value only.
    let unit: () = signature->Ok_0;
}

/// Where a signed response is required, claims are accepted only from a response with the content
/// type of JSON Web Tokens, and the keys accepted the signature of the token with these claims.
pub proof fn law_required_signature_was_accepted<
    K: JsonWebKey<JS>,
    AC: AdditionalClaims,
    GC: GenderClaim,
    JS,
    RE,
    PC: FnOnce(&[u8]) -> Result<UserInfoClaimsImpl<AC, GC>, serde_json::Error>,
    PT: FnOnce(String) -> Result<UserInfoJsonWebToken<AC, GC, JS>, serde_json::Error>,
>(
    request: UserInfoRequest<K>,
    response: HttpResponse,
    parse_claims: PC,
    parse_token: PT,
    claims: UserInfoClaims<AC, GC>,
)
    requires
        request.require_signed_response,
        request.may_answer::<AC, GC, JS, RE, PC, PT>(
            response,
            parse_claims,
            parse_token,
            Ok(claims),
        ),
    ensures
        response.content_type().0 == jwt_type(),
        exists|text: String, token: UserInfoJsonWebToken<AC, GC, JS>|
            {
                &&& #[trigger] call_ensures(parse_token, (text,), Ok(token))
                &&& vstd::utf8::encode_utf8(text@) == response.body@
                &&& token.0.payload == claims.0
                &&& token.0.alg is Some
                &&& may_verify(
                    &request.signed_response_verifier.signature_keys,
                    &token.0.alg->Some_0,
                    token.0.signing_input@,
                    token.0.signature@,
                    Ok(()),
                )
            },
{
    law_signed_response_was_verified::<K, AC, GC, JS, RE, PC, PT>(
        request,
        response,
        parse_claims,
        parse_token,
        claims,
    );
}

/// Claims of a verified token have the expected issuer if the issuer has to match, and this
/// client as their only audience if the audience has to match.
pub proof fn law_verified_claims_match<
    K,
    JS,
    AC: AdditionalClaims,
    GC: GenderClaim,
>(
    verifier: UserInfoVerifier<K>,
    token: JsonWebToken<JS, UserInfoClaimsImpl<AC, GC>>,
    signature: Result<(), SignatureVerificationError>,
    claims: UserInfoClaimsImpl<AC, GC>,
)
    requires
        verifier.verified(token, signature) == Ok::<
            UserInfoClaimsImpl<AC, GC>,
            ClaimsVerificationErrorView,
        >(claims),
    ensures
        claims == token.payload,
        signature is Ok,
        token.alg is Some,
        verifier.iss_required ==> claims.issuer is Some && claims.issuer->Some_0.text()
            == verifier.issuer.text(),
        verifier.aud_match_required ==> claims.audiences is Some
            && claims.audiences->Some_0@.len() > 0 && forall|i: int|
            0 <= i < claims.audiences->Some_0@.len() ==> (
            #[trigger] claims.audiences->Some_0@[i]).0@ == verifier.client_id.0@,
        is_expected_subject(verifier.subject(), claims.standard_claims.sub),
{
    if verifier.aud_match_required {
        lemma_no_other_audience(claims.audiences->Some_0@, verifier.client_id.0@);
    }
}

/// Where no audience is found that is not `client`, each one is.
pub(crate) proof fn lemma_no_other_audience(audiences: Seq<Audience>, client: Seq<char>)
    ensures
        first_other_audience(audiences, client) is None <==> forall|i: int|
            0 <= i < audiences.len() ==> (#[trigger] audiences[i]).0@ == client,
    decreases audiences.len(),
{
    if audiences.len() > 0 {
        let rest = audiences.drop_first();
        lemma_no_other_audience(rest, client);
        assert forall|i: int| 1 <= i < audiences.len() implies (#[trigger] audiences[i])
            == rest[i - 1] by {}
        assert forall|i: int| 0 <= i < rest.len() implies (#[trigger] rest[i]) == audiences[i
            + 1] by {}
    }
}

/// A token whose claims name the expected issuer, this client as the only audience and the
/// expected subject is verified exactly when the keys accept its signature, and the claims come
/// back as they are.
pub proof fn law_matching_token_is_verified<
    K,
    JS,
    AC: AdditionalClaims,
    GC: GenderClaim,
>(
    verifier: UserInfoVerifier<K>,
    token: JsonWebToken<JS, UserInfoClaimsImpl<AC, GC>>,
    signature: Result<(), SignatureVerificationError>,
)
    requires
        token.alg is Some,
        token.payload.issuer is Some,
        token.payload.issuer->Some_0.text() == verifier.issuer.text(),
        token.payload.audiences is Some,
        token.payload.audiences->Some_0@.len() > 0,
        forall|i: int|
            0 <= i < token.payload.audiences->Some_0@.len() ==> (
            #[trigger] token.payload.audiences->Some_0@[i]).0@ == verifier.client_id.0@,
        is_expected_subject(verifier.subject(), token.payload.standard_claims.sub),
    ensures
        verifier.verified(token, signature) == match signature {
            Ok(_) => Ok(token.payload),
            Err(error) => Err(ClaimsVerificationErrorView::SignatureVerification(error)),
        },
{
    let audiences = token.payload.audiences->Some_0@;
    lemma_no_other_audience(audiences, verifier.client_id.0@);
}

/// What is signed can be verified: where the keys accept every signature that the signing key
/// makes, a token made with that key gives back the claims that went into it, if these are
/// claims that the verifier accepts.
pub proof fn law_signed_claims_come_back<
    K: JsonWebKey<JS>,
    S: PrivateSigningKey<JS>,
    JS,
    AC: AdditionalClaims,
    GC: GenderClaim,
>(
    verifier: UserInfoVerifier<K>,
    signing_key: &S,
    alg: JS,
    claims: UserInfoClaimsImpl<AC, GC>,
    signing_input: String,
    signature: Vec<u8>,
    outcome: Result<UserInfoClaimsImpl<AC, GC>, ClaimsVerificationErrorView>,
)
    requires
        may_sign(signing_key, &alg, signing_input@, Ok(signature)),
        forall|text: Seq<char>, signed: Vec<u8>, answer: Result<(), SignatureVerificationError>|
            #![trigger may_sign(signing_key, &alg, text, Ok::<Vec<u8>, SigningError>(signed)), may_verify(&verifier.signature_keys, &alg, text, signed@, answer)]
            may_sign(signing_key, &alg, text, Ok::<Vec<u8>, SigningError>(signed)) && may_verify(
                &verifier.signature_keys,
                &alg,
                text,
                signed@,
                answer,
            ) ==> answer is Ok,
        verifier.issuer_error(claims.issuer) is None,
        verifier.audience_error(claims.audiences) is None,
        is_expected_subject(verifier.subject(), claims.standard_claims.sub),
        verifier.may_verify_token(
            JsonWebToken::made(alg, claims, signing_input, Ok(signature))->Ok_0,
            outcome,
        ),
    ensures
        outcome == Ok::<UserInfoClaimsImpl<AC, GC>, ClaimsVerificationErrorView>(claims),
{
}

/// Whether the issuer and the audience have to match, and what is expected of them, has no effect
/// on a response that is not taken for a JSON Web Token.
pub proof fn law_match_options_do_not_affect_unsigned_responses<
    K: JsonWebKey<JS>,
    AC: AdditionalClaims,
    GC: GenderClaim,
    JS,
    RE,
    PC: FnOnce(&[u8]) -> Result<UserInfoClaimsImpl<AC, GC>, serde_json::Error>,
    PT: FnOnce(String) -> Result<UserInfoJsonWebToken<AC, GC, JS>, serde_json::Error>,
>(
    request: UserInfoRequest<K>,
    iss_required: bool,
    aud_match_required: bool,
    response: HttpResponse,
    parse_claims: PC,
    parse_token: PT,
    outcome: Result<UserInfoClaims<AC, GC>, UserInfoErrorView<RE>>,
)
    requires
        response.content_type().0 != jwt_type(),
    ensures
        request.may_answer::<AC, GC, JS, RE, PC, PT>(response, parse_claims, parse_token, outcome)
            == (UserInfoRequest {
            signed_response_verifier: UserInfoVerifier {
                iss_required,
                aud_match_required,
                ..request.signed_response_verifier
            },
            ..request
        }).may_answer::<AC, GC, JS, RE, PC, PT>(response, parse_claims, parse_token, outcome),
{
}

/// The options about the response have no effect on the HTTP request that is made.
pub proof fn law_options_do_not_affect_request<K>(
    request: UserInfoRequest<K>,
    require_signed_response: bool,
    signed_response_verifier: UserInfoVerifier<K>,
    http_request: HttpRequest,
)
    ensures
        request.is_prepared(http_request) == (UserInfoRequest {
            require_signed_response,
            signed_response_verifier,
            ..request
        }).is_prepared(http_request),
{
}

/// A response without a `Content-Type` header is treated as one whose first such header is the
/// media type of JSON.
pub proof fn law_missing_content_type_is_json<K, RE>(
    request: UserInfoRequest<K>,
    untyped: HttpResponse,
    typed: HttpResponse,
)
    requires
        untyped.status_code == typed.status_code,
        untyped.body@ == typed.body@,
        !header_entries(untyped.headers).dom().contains("content-type"@),
        header_entries(typed.headers).dom().contains("content-type"@),
        header_entries(typed.headers)["content-type"@][0].0 == json_type(),
    ensures
        request.accepted_content::<RE>(untyped) == request.accepted_content::<RE>(typed),
{
}

/// A response that is rejected for its status code or its content type is handed back with its
/// status code and its body.
pub proof fn law_rejected_response_is_handed_back<K, RE>(
    request: UserInfoRequest<K>,
    response: HttpResponse,
)
    requires
        response.status_code != 200 || response.content_type().0 != json_type()
            && response.content_type().0 != jwt_type(),
    ensures
        request.accepted_content::<RE>(response) is Err,
        match request.accepted_content::<RE>(response)->Err_0 {
            UserInfoErrorView::Response(status_code, body, _) => status_code
                == response.status_code && body == response.body@,
            _ => false,
        },
{
}

} // verus!
