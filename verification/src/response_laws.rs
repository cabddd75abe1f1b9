//! What requests and responses give, written out in terms of the header fields, the body and the
//! answers of the parsers and the keys.
use crate::claims::{UserInfoClaims, UserInfoClaimsImpl};
use crate::errors::{
    with_error_view, ClaimsVerificationError, SignatureVerificationError, UserInfoError,
};
use crate::headers::{
    header_entries, is_header_text, is_value_text, shown_byte, shown_bytes, shown_value,
};
use crate::jwt::{unwrapped, JsonWebKey, UserInfoJsonWebToken};
use crate::request::{
    lemma_media_types_differ, HttpRequest, HttpResponse, Method, ResponseContent,
    UserInfoRequest,
};
use crate::text::lemma_encode_concat;
use crate::token_laws::law_keys_decide_about_matching_token;
use crate::types::{AdditionalClaims, GenderClaim, SubjectIdentifier};
use crate::urls::{outcome_view, parsed_url};
use vstd::prelude::*;
use vstd::utf8::*;

verus! {

/// The HTTP request is a `GET` of the endpoint without a body. It has two header fields with one
/// value each: it accepts JSON, and it bears the whole access token, whatever that is.
pub proof fn law_request_bears_the_token<K>(request: UserInfoRequest<K>, http_request: HttpRequest)
    requires
        call_ensures(UserInfoRequest::<K>::prepare_request, (&request,), http_request),
    ensures
        parsed_url(request.url.text()) == Ok::<Seq<char>, Seq<char>>(http_request.url@),
        http_request.url@ == request.url.serialization(),
        http_request.method == Method::Get,
        http_request.body@.len() == 0,
        forall|name: Seq<char>|
            header_entries(http_request.headers).dom().contains(name) <==> name == "accept"@
                || name == "authorization"@,
        header_entries(http_request.headers)["accept"@] == seq![
            (encode_utf8("application/json"@), false),
        ],
        header_entries(http_request.headers)["authorization"@] == seq![
            (encode_utf8("Bearer "@) + encode_utf8(request.access_token@), false),
        ],
{
    lemma_prepared(request, http_request);
}

/// What a prepared HTTP request holds.
proof fn lemma_prepared<K>(request: UserInfoRequest<K>, http_request: HttpRequest)
    requires
        request.is_prepared(http_request),
    ensures
        http_request.url@ == request.url.serialization(),
        http_request.method == Method::Get,
        http_request.body@.len() == 0,
        forall|name: Seq<char>|
            header_entries(http_request.headers).dom().contains(name) <==> name == "accept"@
                || name == "authorization"@,
        header_entries(http_request.headers)["accept"@] == seq![
            (encode_utf8("application/json"@), false),
        ],
        header_entries(http_request.headers)["authorization"@] == seq![
            (encode_utf8("Bearer "@) + encode_utf8(request.access_token@), false),
        ],
{
    reveal_strlit("accept");
    reveal_strlit("authorization");
    assert("accept"@.len() != "authorization"@.len());
    lemma_encode_concat("Bearer "@, request.access_token@);
    assert(header_entries(http_request.headers)["accept"@] =~= seq![
        (encode_utf8("application/json"@), false),
    ]);
    assert(header_entries(http_request.headers)["authorization"@] =~= seq![
        (encode_utf8("Bearer "@) + encode_utf8(request.access_token@), false),
    ]);
}

/// Every access token can be borne that holds no control characters but the tab: any text whose
/// bytes are at least 32 and not 127, or 9.
pub proof fn law_header_text(text: Seq<char>, given: &str, valid: bool)
    requires
        given@ == text,
        call_ensures(is_header_text, (given,), valid),
    ensures
        valid == is_value_text(text),
        is_value_text(text) <==> forall|i: int|
            0 <= i < encode_utf8(text).len() ==> (#[trigger] encode_utf8(text)[i]) == 9 || (
            encode_utf8(text)[i] >= 32 && encode_utf8(text)[i] != 127),
{
    if is_value_text(text) {
        assert forall|i: int| 0 <= i < encode_utf8(text).len() implies (
        #[trigger] encode_utf8(text)[i]) == 9 || (encode_utf8(text)[i] >= 32 && encode_utf8(text)[i]
            != 127) by {
            assert(crate::headers::is_value_byte(encode_utf8(text)[i]));
        }
    }
}

/// Parsers fit a request if they can be handed any body.
pub proof fn law_any_total_parsers_fit<
    K,
    AC: AdditionalClaims,
    GC: GenderClaim,
    JS,
    PC: FnOnce(&[u8]) -> Result<UserInfoClaimsImpl<AC, GC>, serde_json::Error>,
    PT: FnOnce(String) -> Result<UserInfoJsonWebToken<AC, GC, JS>, serde_json::Error>,
>(parse_claims: PC, parse_token: PT)
    requires
        forall|bytes: &[u8]| #[trigger] call_requires(parse_claims, (bytes,)),
        forall|token: String| #[trigger] call_requires(parse_token, (token,)),
    ensures
        UserInfoRequest::<K>::can_parse::<AC, GC, JS, PC, PT>(parse_claims, parse_token),
{
}

/// Two results with the same contents are the same: the same value, or errors of the same kind
/// with the same parts.
pub proof fn law_error_contents<T, RE>(
    result: Result<T, UserInfoError<RE>>,
    other: Result<T, UserInfoError<RE>>,
)
    requires
        with_error_view(result) == with_error_view(other),
    ensures
        result is Ok ==> other == result,
        result matches Err(UserInfoError::ClaimsVerification(e)) ==> (other matches Err(
            UserInfoError::ClaimsVerification(f),
        ) && e@ == f@),
        result matches Err(UserInfoError::Parse(e)) ==> other == Err::<T, UserInfoError<RE>>(
            UserInfoError::Parse(e),
        ),
        result matches Err(UserInfoError::Request(e)) ==> other == Err::<T, UserInfoError<RE>>(
            UserInfoError::Request(e),
        ),
        result matches Err(UserInfoError::Response(s, b, m)) ==> (other matches Err(
            UserInfoError::Response(t, c, n),
        ) && s == t && b@ == c@ && m@ == n@),
        result matches Err(UserInfoError::Other(m)) ==> (other matches Err(
            UserInfoError::Other(n),
        ) && m@ == n@),
{
}

/// Each error has its own description. That of an invalid response ends in what is wrong with it,
/// that of another error in its text.
pub proof fn law_error_descriptions<RE>(error: UserInfoError<RE>, text: String)
    requires
        call_ensures(UserInfoError::<RE>::display, (&error,), text),
    ensures
        match error {
            UserInfoError::ClaimsVerification(_) => text@
                == "Failed to verify claims"@,
            UserInfoError::Parse(_) => text@ == "Failed to parse server response"@,
            UserInfoError::Request(_) => text@ == "Request failed"@,
            UserInfoError::Response(_, _, m) => text@
                == "Server returned invalid response: "@ + m@,
            UserInfoError::Other(m) => text@ == "Other error: "@ + m@,
        },
{
}

/// The contents of the outcome of parsing a URL are those of the outcome.
pub proof fn law_url_outcome_contents(outcome: Result<String, String>)
    ensures
        match outcome {
            Ok(serialization) => outcome_view(outcome) == Ok::<Seq<char>, Seq<char>>(
                serialization@,
            ),
            Err(message) => outcome_view(outcome) == Err::<Seq<char>, Seq<char>>(message@),
        },
{
}

/// A header value is shown byte by byte, in double quotes unless it is sensitive. Showing it in
/// two parts shows the same.
pub proof fn law_shown_value(bytes: Seq<u8>, more: Seq<u8>)
    ensures
        shown_value(bytes, true) == "Sensitive"@,
        shown_value(bytes, false) == seq!['"'] + shown_bytes(bytes) + seq!['"'],
        shown_bytes(bytes + more) == shown_bytes(bytes) + shown_bytes(more),
    decreases more.len(),
{
    if more.len() == 0 {
        assert(bytes + more =~= bytes);
        assert(shown_bytes(bytes) + shown_bytes(more) =~= shown_bytes(bytes));
    } else {
        law_shown_value(bytes, more.drop_last());
        assert((bytes + more).drop_last() =~= bytes + more.drop_last());
        assert(shown_bytes(bytes + more) =~= shown_bytes(bytes) + shown_bytes(more));
    }
}

/// A byte of a header value is shown as it is if it is a visible character other than the double
/// quote, or the tab; the double quote is escaped, any other byte shown by its hexadecimal digits.
pub proof fn law_shown_byte(byte: u8)
    ensures
        shown_bytes(seq![byte]) == shown_byte(byte),
        32 <= byte < 127 && byte != 34 || byte == 9 ==> shown_byte(byte) == seq![byte as char],
        byte == 34 ==> shown_byte(byte) == seq!['\\', '"'],
        byte >= 127 || byte < 32 && byte != 9 ==> shown_byte(byte).len() == if byte < 16 {
            3int
        } else {
            4int
        } && shown_byte(byte)[0] == '\\' && shown_byte(byte)[1] == 'x' && shown_byte(byte).last()
            as int == byte % 16 + if byte % 16 < 10 {
            48int
        } else {
            87int
        },
        byte >= 127 || 16 <= byte < 32 ==> shown_byte(byte)[2] as int == byte / 16 + if byte / 16
            < 10 {
            48int
        } else {
            87int
        },
{
    reveal_with_fuel(shown_bytes, 2);
    assert(seq![byte].drop_last() =~= Seq::<u8>::empty());
    assert(shown_bytes(seq![byte]) =~= shown_byte(byte));
}

/// Text of visible characters without double quotes is shown as it is.
pub proof fn law_visible_text_is_shown_as_it_is(text: Seq<char>)
    requires
        forall|i: int| 0 <= i < text.len() ==> ' ' <= #[trigger] text[i] <= '~' && text[i] != '"',
    ensures
        shown_bytes(encode_utf8(text)) == text,
    decreases text.len(),
{
    is_ascii_chars_encode_utf8(text);
    if text.len() > 0 {
        let before = text.drop_last();
        law_visible_text_is_shown_as_it_is(before);
        is_ascii_chars_encode_utf8(before);
        assert(encode_utf8(text).drop_last() =~= encode_utf8(before));
        let last = encode_utf8(text).last();
        assert(last == text.last() as u8);
        assert(shown_byte(last) =~= seq![text.last()]);
        assert(before + seq![text.last()] =~= text);
    }
}

/// Looking at a response with a status code other than 200 gives that code, the body and the
/// reason, whatever else the response holds.
pub proof fn law_content_of_failed_response<K, RE>(
    request: UserInfoRequest<K>,
    response: HttpResponse,
    content: Result<ResponseContent, UserInfoError<RE>>,
)
    requires
        call_ensures(
            UserInfoRequest::<K>::response_content::<RE>,
            (&request, response),
            content,
        ),
        response.status_code != 200,
    ensures
        content matches Err(UserInfoError::Response(status_code, body, message)) && status_code
            == response.status_code && body@ == response.body@ && message@
            == "unexpected HTTP status code"@,
{
}

/// A response that says nothing of its content type, or first that it is JSON, is taken for JSON
/// as it is, and refused for want of a signature exactly where one is required.
pub proof fn law_content_of_json_response<K, RE>(
    request: UserInfoRequest<K>,
    response: HttpResponse,
    content: Result<ResponseContent, UserInfoError<RE>>,
)
    requires
        call_ensures(
            UserInfoRequest::<K>::response_content::<RE>,
            (&request, response),
            content,
        ),
        response.status_code == 200,
        header_entries(response.headers).dom().contains("content-type"@) ==> header_entries(response.headers)["content-type"@][0].0
            == encode_utf8("application/json"@),
    ensures
        request.require_signed_response ==> content == Err::<ResponseContent, UserInfoError<RE>>(
            UserInfoError::ClaimsVerification(ClaimsVerificationError::NoSignature),
        ),
        !request.require_signed_response ==> (content matches Ok(ResponseContent::Json(body))
            && body@ == response.body@),
{
}

/// A response that first says that it is a JSON Web Token is taken for one, whether a signature is
/// required or not: for the text that the body encodes. It is refused exactly when the body encodes
/// none.
pub proof fn law_content_of_jwt_response<K, RE>(
    request: UserInfoRequest<K>,
    response: HttpResponse,
    content: Result<ResponseContent, UserInfoError<RE>>,
)
    requires
        call_ensures(
            UserInfoRequest::<K>::response_content::<RE>,
            (&request, response),
            content,
        ),
        response.status_code == 200,
        header_entries(response.headers).dom().contains("content-type"@),
        header_entries(response.headers)["content-type"@][0].0 == encode_utf8("application/jwt"@),
    ensures
        valid_utf8(response.body@) ==> (content matches Ok(ResponseContent::Jwt(text))
            && encode_utf8(text@) == response.body@),
        !valid_utf8(response.body@) ==> (content matches Err(UserInfoError::Other(message))
            && message@ == "response body has invalid UTF-8 encoding"@),
{
    lemma_media_types_differ();
    if valid_utf8(response.body@) {
        decode_utf8_encode_utf8(response.body@);
    }
}

/// A response that first says that it is something else gives the status code, the body, and a
/// message that shows the content type.
pub proof fn law_content_of_other_response<K, RE>(
    request: UserInfoRequest<K>,
    response: HttpResponse,
    content: Result<ResponseContent, UserInfoError<RE>>,
)
    requires
        call_ensures(
            UserInfoRequest::<K>::response_content::<RE>,
            (&request, response),
            content,
        ),
        response.status_code == 200,
        header_entries(response.headers).dom().contains("content-type"@),
        header_entries(response.headers)["content-type"@][0].0 != encode_utf8("application/json"@),
        header_entries(response.headers)["content-type"@][0].0 != encode_utf8("application/jwt"@),
    ensures
        content matches Err(UserInfoError::Response(status_code, body, message)) && status_code
            == 200 && body@ == response.body@ && message@
            == "unexpected response Content-Type: `"@ + shown_value(
            header_entries(response.headers)["content-type"@][0].0,
            header_entries(response.headers)["content-type"@][0].1,
        ) + "`"@,
{
}

/// Parsed claims are returned as they are if no subject is expected, or theirs is. Claims about
/// another subject are refused with both subjects, and a failure to parse is handed on.
pub proof fn law_parsed_claims<AC: AdditionalClaims, GC: GenderClaim, RE>(
    parsed: Result<UserInfoClaimsImpl<AC, GC>, serde_json::Error>,
    expected: Option<&SubjectIdentifier>,
    claims: Result<UserInfoClaims<AC, GC>, UserInfoError<RE>>,
)
    requires
        with_error_view(claims) == UserInfoClaims::accepted::<RE>(parsed, expected),
    ensures
        match parsed {
            Err(error) => claims == Err::<UserInfoClaims<AC, GC>, UserInfoError<RE>>(
                UserInfoError::Parse(error),
            ),
            Ok(inner) => if expected is None || expected->Some_0.0@ == inner.standard_claims.sub.0@ {
                claims == Ok::<_, UserInfoError<RE>>(UserInfoClaims(inner))
            } else {
                claims matches Err(
                    UserInfoError::ClaimsVerification(ClaimsVerificationError::InvalidSubject(m)),
                ) && m@ == "expected `"@ + expected->Some_0.0@ + "` (found `"@
                    + inner.standard_claims.sub.0@ + "`)"@
            },
        },
{
}

/// Making claims of parsed ones: they are returned as they are if no subject is expected, or theirs is. Claims about
/// another subject are refused with both subjects, and a failure to parse is handed on.
pub proof fn law_from_parsed<AC: AdditionalClaims, GC: GenderClaim, RE>(
    parsed: Result<UserInfoClaimsImpl<AC, GC>, serde_json::Error>,
    expected: Option<&SubjectIdentifier>,
    claims: Result<UserInfoClaims<AC, GC>, UserInfoError<RE>>,
)
    requires
        call_ensures(
            UserInfoClaims::<AC, GC>::from_parsed::<RE>,
            (parsed, expected),
            claims,
        ),
    ensures
        match parsed {
            Err(error) => claims == Err::<UserInfoClaims<AC, GC>, UserInfoError<RE>>(
                UserInfoError::Parse(error),
            ),
            Ok(inner) => if expected is None || expected->Some_0.0@ == inner.standard_claims.sub.0@ {
                claims == Ok::<_, UserInfoError<RE>>(UserInfoClaims(inner))
            } else {
                claims matches Err(
                    UserInfoError::ClaimsVerification(ClaimsVerificationError::InvalidSubject(m)),
                ) && m@ == "expected `"@ + expected->Some_0.0@ + "` (found `"@
                    + inner.standard_claims.sub.0@ + "`)"@
            },
        },
{
    law_parsed_claims(parsed, expected, claims);
}

/// A parsed token gives the claims that its verification gives, as they are, whether a signature
/// is required or not. A token that is not verified is refused for the reason of the verification,
/// and a failure to parse is handed on.
pub proof fn law_parsed_token<
    K: JsonWebKey<JS>,
    AC: AdditionalClaims,
    GC: GenderClaim,
    JS,
    RE,
>(
    request: UserInfoRequest<K>,
    parsed: Result<UserInfoJsonWebToken<AC, GC, JS>, serde_json::Error>,
    claims: Result<UserInfoClaims<AC, GC>, UserInfoError<RE>>,
)
    requires
        request.may_accept_token::<AC, GC, JS, RE>(parsed, with_error_view(claims)),
    ensures
        parsed matches Err(error) ==> claims == Err::<UserInfoClaims<AC, GC>, UserInfoError<RE>>(
            UserInfoError::Parse(error),
        ),
        parsed is Ok ==> match claims {
            Ok(inner) => request.signed_response_verifier.may_verify_token(
                parsed->Ok_0.0,
                unwrapped(Ok(inner)),
            ),
            Err(UserInfoError::ClaimsVerification(error)) =>
                request.signed_response_verifier.may_verify_token(
                parsed->Ok_0.0,
                unwrapped(Err::<UserInfoClaims<AC, GC>, ClaimsVerificationError>(error)),
            ),
            _ => false,
        },
{
}

/// Asked for its claims, a parsed token gives the claims that its verification gives, as they are, whether a signature
/// is required or not. A token that is not verified is refused for the reason of the verification,
/// and a failure to parse is handed on.
pub proof fn law_token_claims<
    K: JsonWebKey<JS>,
    AC: AdditionalClaims,
    GC: GenderClaim,
    JS,
    RE,
>(
    request: UserInfoRequest<K>,
    parsed: Result<UserInfoJsonWebToken<AC, GC, JS>, serde_json::Error>,
    claims: Result<UserInfoClaims<AC, GC>, UserInfoError<RE>>,
)
    requires
        call_ensures(
            UserInfoRequest::<K>::token_claims::<AC, GC, JS, RE>,
            (&request, parsed),
            claims,
        ),
    ensures
        parsed matches Err(error) ==> claims == Err::<UserInfoClaims<AC, GC>, UserInfoError<RE>>(
            UserInfoError::Parse(error),
        ),
        parsed is Ok ==> match claims {
            Ok(inner) => request.signed_response_verifier.may_verify_token(
                parsed->Ok_0.0,
                unwrapped(Ok(inner)),
            ),
            Err(UserInfoError::ClaimsVerification(error)) =>
                request.signed_response_verifier.may_verify_token(
                parsed->Ok_0.0,
                unwrapped(Err::<UserInfoClaims<AC, GC>, ClaimsVerificationError>(error)),
            ),
            _ => false,
        },
{
    law_parsed_token(request, parsed, claims);
}

/// The bytes of a JSON response are handed to the parser as they are, and what it makes of them is
/// returned unchanged if no subject is expected, or theirs is. Claims about another subject are
/// refused with both subjects, and a failure to parse is handed on.
pub proof fn law_from_json<
    AC: AdditionalClaims,
    GC: GenderClaim,
    RE,
    P: FnOnce(&[u8]) -> Result<UserInfoClaimsImpl<AC, GC>, serde_json::Error>,
>(
    json: &[u8],
    expected: Option<&SubjectIdentifier>,
    parse: P,
    claims: Result<UserInfoClaims<AC, GC>, UserInfoError<RE>>,
)
    requires
        call_ensures(
            UserInfoClaims::<AC, GC>::from_json::<RE, P>,
            (json, expected, parse),
            claims,
        ),
    ensures
        exists|parsed: Result<UserInfoClaimsImpl<AC, GC>, serde_json::Error>|
            {
                &&& #[trigger] call_ensures(parse, (json,), parsed)
                &&& match parsed {
                    Err(error) => claims == Err::<UserInfoClaims<AC, GC>, UserInfoError<RE>>(
                        UserInfoError::Parse(error),
                    ),
                    Ok(inner) => if expected is None || expected->Some_0.0@
                        == inner.standard_claims.sub.0@ {
                        claims == Ok::<_, UserInfoError<RE>>(UserInfoClaims(inner))
                    } else {
                        claims matches Err(
                            UserInfoError::ClaimsVerification(
                                ClaimsVerificationError::InvalidSubject(m),
                            ),
                        ) && m@ == "expected `"@ + expected->Some_0.0@ + "` (found `"@
                            + inner.standard_claims.sub.0@ + "`)"@
                    },
                }
            },
{
    let parsed = choose|parsed: Result<UserInfoClaimsImpl<AC, GC>, serde_json::Error>| #[trigger]
        call_ensures(parse, (json,), parsed) && with_error_view(claims)
            == UserInfoClaims::accepted::<RE>(parsed, expected);
    law_parsed_claims(parsed, expected, claims);
}

/// A request is sent once through the client, as [`law_request_bears_the_token`] says. A failure of
/// the client is handed on, and a response gives what
/// [`UserInfoRequest::user_info_response`] gives.
pub proof fn law_request_goes_through_client<
    K: JsonWebKey<JS>,
    AC: AdditionalClaims,
    GC: GenderClaim,
    JS,
    HC: FnOnce(HttpRequest) -> Result<HttpResponse, RE>,
    RE,
    PC: FnOnce(&[u8]) -> Result<UserInfoClaimsImpl<AC, GC>, serde_json::Error>,
    PT: FnOnce(String) -> Result<UserInfoJsonWebToken<AC, GC, JS>, serde_json::Error>,
>(
    request: UserInfoRequest<K>,
    http_client: HC,
    parse_claims: PC,
    parse_token: PT,
    claims: Result<UserInfoClaims<AC, GC>, UserInfoError<RE>>,
)
    requires
        call_ensures(
            UserInfoRequest::<K>::request::<AC, GC, JS, HC, RE, PC, PT>,
            (request, http_client, parse_claims, parse_token),
            claims,
        ),
    ensures
        exists|http_request: HttpRequest, answer: Result<HttpResponse, RE>|
            {
                &&& #[trigger] call_ensures(http_client, (http_request,), answer)
                &&& http_request.url@ == request.url.serialization()
                &&& http_request.method == Method::Get
                &&& http_request.body@.len() == 0
                &&& header_entries(http_request.headers).dom() == set!["accept"@, "authorization"@]
                &&& header_entries(http_request.headers)["accept"@] == seq![
                    (encode_utf8("application/json"@), false),
                ]
                &&& header_entries(http_request.headers)["authorization"@] == seq![
                    (encode_utf8("Bearer "@) + encode_utf8(request.access_token@), false),
                ]
                &&& match answer {
                    Err(error) => claims == Err::<UserInfoClaims<AC, GC>, UserInfoError<RE>>(
                        UserInfoError::Request(error),
                    ),
                    Ok(response) => request.may_answer::<AC, GC, JS, RE, PC, PT>(
                        response,
                        parse_claims,
                        parse_token,
                        with_error_view(claims),
                    ),
                }
            },
{
    let (http_request, answer) = choose|
        http_request: HttpRequest,
        answer: Result<HttpResponse, RE>,
    |
        request.is_prepared(http_request) && #[trigger] call_ensures(
            http_client,
            (http_request,),
            answer,
        ) && match answer {
            Err(error) => claims == Err::<UserInfoClaims<AC, GC>, UserInfoError<RE>>(
                UserInfoError::Request(error),
            ),
            Ok(response) => request.may_answer::<AC, GC, JS, RE, PC, PT>(
                response,
                parse_claims,
                parse_token,
                with_error_view(claims),
            ),
        };
    lemma_prepared(request, http_request);
    assert(header_entries(http_request.headers).dom() =~= set!["accept"@, "authorization"@]);
}

/// A response with a status code other than 200 gives that code, the body and the reason.
pub proof fn law_failed_response_is_reported<
    K: JsonWebKey<JS>,
    AC: AdditionalClaims,
    GC: GenderClaim,
    JS,
    RE,
    PC: FnOnce(&[u8]) -> Result<UserInfoClaimsImpl<AC, GC>, serde_json::Error>,
    PT: FnOnce(String) -> Result<UserInfoJsonWebToken<AC, GC, JS>, serde_json::Error>,
>(
    request: UserInfoRequest<K>,
    response: HttpResponse,
    parse_claims: PC,
    parse_token: PT,
    claims: Result<UserInfoClaims<AC, GC>, UserInfoError<RE>>,
)
    requires
        call_ensures(
            UserInfoRequest::<K>::user_info_response::<AC, GC, JS, RE, PC, PT>,
            (request, response, parse_claims, parse_token),
            claims,
        ),
        response.status_code != 200,
    ensures
        claims matches Err(UserInfoError::Response(status_code, body, message)) && status_code
            == response.status_code && body@ == response.body@ && message@
            == "unexpected HTTP status code"@,
{
}

/// A JSON response is refused for want of a signature where one is required.
pub proof fn law_unsigned_json_is_refused<
    K: JsonWebKey<JS>,
    AC: AdditionalClaims,
    GC: GenderClaim,
    JS,
    RE,
    PC: FnOnce(&[u8]) -> Result<UserInfoClaimsImpl<AC, GC>, serde_json::Error>,
    PT: FnOnce(String) -> Result<UserInfoJsonWebToken<AC, GC, JS>, serde_json::Error>,
>(
    request: UserInfoRequest<K>,
    response: HttpResponse,
    parse_claims: PC,
    parse_token: PT,
    claims: Result<UserInfoClaims<AC, GC>, UserInfoError<RE>>,
)
    requires
        call_ensures(
            UserInfoRequest::<K>::user_info_response::<AC, GC, JS, RE, PC, PT>,
            (request, response, parse_claims, parse_token),
            claims,
        ),
        response.status_code == 200,
        header_entries(response.headers).dom().contains("content-type"@) ==> header_entries(response.headers)["content-type"@][0].0
            == encode_utf8("application/json"@),
        request.require_signed_response,
    ensures
        claims == Err::<UserInfoClaims<AC, GC>, UserInfoError<RE>>(
            UserInfoError::ClaimsVerification(ClaimsVerificationError::NoSignature),
        ),
{
}

/// Where no signature is required, the body of a JSON response is parsed. The parsed claims are
/// returned as they are if no subject is expected, or theirs is; otherwise they are refused with
/// both subjects. A failure to parse is handed on.
pub proof fn law_json_response_gives_parsed_claims<
    K: JsonWebKey<JS>,
    AC: AdditionalClaims,
    GC: GenderClaim,
    JS,
    RE,
    PC: FnOnce(&[u8]) -> Result<UserInfoClaimsImpl<AC, GC>, serde_json::Error>,
    PT: FnOnce(String) -> Result<UserInfoJsonWebToken<AC, GC, JS>, serde_json::Error>,
>(
    request: UserInfoRequest<K>,
    response: HttpResponse,
    parse_claims: PC,
    parse_token: PT,
    claims: Result<UserInfoClaims<AC, GC>, UserInfoError<RE>>,
)
    requires
        call_ensures(
            UserInfoRequest::<K>::user_info_response::<AC, GC, JS, RE, PC, PT>,
            (request, response, parse_claims, parse_token),
            claims,
        ),
        response.status_code == 200,
        header_entries(response.headers).dom().contains("content-type"@) ==> header_entries(response.headers)["content-type"@][0].0
            == encode_utf8("application/json"@),
        !request.require_signed_response,
    ensures
        exists|
            bytes: &[u8],
            parsed: Result<UserInfoClaimsImpl<AC, GC>, serde_json::Error>,
        |
            {
                &&& #[trigger] call_ensures(parse_claims, (bytes,), parsed)
                &&& bytes@ == response.body@
                &&& match parsed {
                    Err(error) => claims == Err::<UserInfoClaims<AC, GC>, UserInfoError<RE>>(
                        UserInfoError::Parse(error),
                    ),
                    Ok(inner) => if request.signed_response_verifier.expected_subject is None
                        || request.signed_response_verifier.expected_subject->Some_0.0@
                        == inner.standard_claims.sub.0@ {
                        claims == Ok::<_, UserInfoError<RE>>(UserInfoClaims(inner))
                    } else {
                        claims matches Err(
                            UserInfoError::ClaimsVerification(
                                ClaimsVerificationError::InvalidSubject(m),
                            ),
                        ) && m@ == "expected `"@
                            + request.signed_response_verifier.expected_subject->Some_0.0@
                            + "` (found `"@ + inner.standard_claims.sub.0@ + "`)"@
                    },
                }
            },
{
    let (bytes, parsed) = choose|
        bytes: &[u8],
        parsed: Result<UserInfoClaimsImpl<AC, GC>, serde_json::Error>,
    |
        bytes@ == response.body@ && #[trigger] call_ensures(parse_claims, (bytes,), parsed)
            && with_error_view(claims) == UserInfoClaims::accepted::<RE>(
            parsed,
            request.signed_response_verifier.subject(),
        );
    law_parsed_claims(parsed, request.signed_response_verifier.subject(), claims);
}

/// Claims that the parser makes of the body of a JSON response, and that are about the expected
/// subject if one is expected, are what the response gives, all of them unchanged.
pub proof fn law_good_json_response_is_accepted<
    K: JsonWebKey<JS>,
    AC: AdditionalClaims,
    GC: GenderClaim,
    JS,
    RE,
    PC: FnOnce(&[u8]) -> Result<UserInfoClaimsImpl<AC, GC>, serde_json::Error>,
    PT: FnOnce(String) -> Result<UserInfoJsonWebToken<AC, GC, JS>, serde_json::Error>,
>(
    request: UserInfoRequest<K>,
    response: HttpResponse,
    parse_claims: PC,
    parse_token: PT,
    parsed: UserInfoClaimsImpl<AC, GC>,
    claims: Result<UserInfoClaims<AC, GC>, UserInfoError<RE>>,
)
    requires
        call_ensures(
            UserInfoRequest::<K>::user_info_response::<AC, GC, JS, RE, PC, PT>,
            (request, response, parse_claims, parse_token),
            claims,
        ),
        response.status_code == 200,
        header_entries(response.headers).dom().contains("content-type"@) ==> header_entries(response.headers)["content-type"@][0].0
            == encode_utf8("application/json"@),
        !request.require_signed_response,
        forall|bytes: &[u8], answer: Result<UserInfoClaimsImpl<AC, GC>, serde_json::Error>|
            bytes@ == response.body@ && #[trigger] call_ensures(parse_claims, (bytes,), answer)
                ==> answer == Ok::<_, serde_json::Error>(parsed),
        request.signed_response_verifier.expected_subject is None
            || request.signed_response_verifier.expected_subject->Some_0.0@
            == parsed.standard_claims.sub.0@,
    ensures
        claims == Ok::<_, UserInfoError<RE>>(UserInfoClaims(parsed)),
{
    law_json_response_gives_parsed_claims::<K, AC, GC, JS, RE, PC, PT>(
        request,
        response,
        parse_claims,
        parse_token,
        claims,
    );
}

/// A response that is a JSON Web Token is refused if its body is not text.
pub proof fn law_undecodable_token_is_reported<
    K: JsonWebKey<JS>,
    AC: AdditionalClaims,
    GC: GenderClaim,
    JS,
    RE,
    PC: FnOnce(&[u8]) -> Result<UserInfoClaimsImpl<AC, GC>, serde_json::Error>,
    PT: FnOnce(String) -> Result<UserInfoJsonWebToken<AC, GC, JS>, serde_json::Error>,
>(
    request: UserInfoRequest<K>,
    response: HttpResponse,
    parse_claims: PC,
    parse_token: PT,
    claims: Result<UserInfoClaims<AC, GC>, UserInfoError<RE>>,
)
    requires
        call_ensures(
            UserInfoRequest::<K>::user_info_response::<AC, GC, JS, RE, PC, PT>,
            (request, response, parse_claims, parse_token),
            claims,
        ),
        response.status_code == 200,
        header_entries(response.headers).dom().contains("content-type"@),
        header_entries(response.headers)["content-type"@][0].0 == encode_utf8("application/jwt"@),
        !valid_utf8(response.body@),
    ensures
        claims matches Err(UserInfoError::Other(message)) && message@
            == "response body has invalid UTF-8 encoding"@,
{
    lemma_media_types_differ();
}

/// The text in the body of a response that is a JSON Web Token is parsed, whether a signature is
/// required or not, and what the parsed token gives is what the response gives.
pub proof fn law_jwt_response_gives_parsed_token<
    K: JsonWebKey<JS>,
    AC: AdditionalClaims,
    GC: GenderClaim,
    JS,
    RE,
    PC: FnOnce(&[u8]) -> Result<UserInfoClaimsImpl<AC, GC>, serde_json::Error>,
    PT: FnOnce(String) -> Result<UserInfoJsonWebToken<AC, GC, JS>, serde_json::Error>,
>(
    request: UserInfoRequest<K>,
    response: HttpResponse,
    parse_claims: PC,
    parse_token: PT,
    claims: Result<UserInfoClaims<AC, GC>, UserInfoError<RE>>,
)
    requires
        call_ensures(
            UserInfoRequest::<K>::user_info_response::<AC, GC, JS, RE, PC, PT>,
            (request, response, parse_claims, parse_token),
            claims,
        ),
        response.status_code == 200,
        header_entries(response.headers).dom().contains("content-type"@),
        header_entries(response.headers)["content-type"@][0].0 == encode_utf8("application/jwt"@),
        valid_utf8(response.body@),
    ensures
        exists|text: String, parsed: Result<UserInfoJsonWebToken<AC, GC, JS>, serde_json::Error>|
            {
                &&& #[trigger] call_ensures(parse_token, (text,), parsed)
                &&& encode_utf8(text@) == response.body@
                &&& match parsed {
                    Err(error) => claims == Err::<UserInfoClaims<AC, GC>, UserInfoError<RE>>(
                        UserInfoError::Parse(error),
                    ),
                    Ok(token) => match claims {
                        Ok(inner) => request.signed_response_verifier.may_verify_token(
                            token.0,
                            unwrapped(Ok(inner)),
                        ),
                        Err(UserInfoError::ClaimsVerification(error)) =>
                            request.signed_response_verifier.may_verify_token(
                            token.0,
                            unwrapped(
                                Err::<UserInfoClaims<AC, GC>, ClaimsVerificationError>(error),
                            ),
                        ),
                        _ => false,
                    },
                }
            },
{
    lemma_media_types_differ();
    decode_utf8_encode_utf8(response.body@);
    let (text, parsed) = choose|
        text: String,
        parsed: Result<UserInfoJsonWebToken<AC, GC, JS>, serde_json::Error>,
    |
        text@ == decode_utf8(response.body@) && #[trigger] call_ensures(
            parse_token,
            (text,),
            parsed,
        ) && request.may_accept_token::<AC, GC, JS, RE>(parsed, with_error_view(claims));
    law_parsed_token(request, parsed, claims);
}

/// A good token is accepted, whether a signature is required or not: where the parser makes a
/// signed token of the text in the body, its issuer and audiences match or do not have to, its
/// subject is the expected one if one is expected, and the keys accept its signature as one of the
/// bytes of its signing input, the response gives the claims of the token unchanged.
pub proof fn law_good_jwt_response_is_accepted<
    K: JsonWebKey<JS>,
    AC: AdditionalClaims,
    GC: GenderClaim,
    JS,
    RE,
    PC: FnOnce(&[u8]) -> Result<UserInfoClaimsImpl<AC, GC>, serde_json::Error>,
    PT: FnOnce(String) -> Result<UserInfoJsonWebToken<AC, GC, JS>, serde_json::Error>,
>(
    request: UserInfoRequest<K>,
    response: HttpResponse,
    parse_claims: PC,
    parse_token: PT,
    token: UserInfoJsonWebToken<AC, GC, JS>,
    claims: Result<UserInfoClaims<AC, GC>, UserInfoError<RE>>,
)
    requires
        call_ensures(
            UserInfoRequest::<K>::user_info_response::<AC, GC, JS, RE, PC, PT>,
            (request, response, parse_claims, parse_token),
            claims,
        ),
        response.status_code == 200,
        header_entries(response.headers).dom().contains("content-type"@),
        header_entries(response.headers)["content-type"@][0].0 == encode_utf8("application/jwt"@),
        valid_utf8(response.body@),
        forall|
            text: String,
            answer: Result<UserInfoJsonWebToken<AC, GC, JS>, serde_json::Error>,
        |
            encode_utf8(text@) == response.body@ && #[trigger] call_ensures(
                parse_token,
                (text,),
                answer,
            ) ==> answer == Ok::<_, serde_json::Error>(token),
        request.signed_response_verifier.iss_required ==> token.0.payload.issuer is Some
            && token.0.payload.issuer->Some_0.text()
            == request.signed_response_verifier.issuer.text(),
        request.signed_response_verifier.aud_match_required ==> token.0.payload.audiences is Some
            && token.0.payload.audiences->Some_0@.len() > 0 && forall|i: int|
            0 <= i < token.0.payload.audiences->Some_0@.len() ==> (
            #[trigger] token.0.payload.audiences->Some_0@[i]).0@
                == request.signed_response_verifier.client_id.0@,
        request.signed_response_verifier.expected_subject is None
            || request.signed_response_verifier.expected_subject->Some_0.0@
            == token.0.payload.standard_claims.sub.0@,
        token.0.alg is Some,
        forall|
            message: &[u8],
            signature: &[u8],
            answer: Result<(), SignatureVerificationError>,
        |
            message@ == encode_utf8(token.0.signing_input@) && signature@ == token.0.signature@
                && #[trigger] call_ensures(
                K::verify_signature,
                (
                    &request.signed_response_verifier.signature_keys,
                    &token.0.alg->Some_0,
                    message,
                    signature,
                ),
                answer,
            ) ==> answer is Ok,
    ensures
        claims == Ok::<_, UserInfoError<RE>>(UserInfoClaims(token.0.payload)),
{
    law_jwt_response_gives_parsed_token::<K, AC, GC, JS, RE, PC, PT>(
        request,
        response,
        parse_claims,
        parse_token,
        claims,
    );
    match claims {
        Ok(inner) => {
            law_keys_decide_about_matching_token(
                request.signed_response_verifier,
                token.0,
                Ok(inner),
            );
        },
        Err(UserInfoError::ClaimsVerification(error)) => {
            law_keys_decide_about_matching_token(
                request.signed_response_verifier,
                token.0,
                Err::<UserInfoClaims<AC, GC>, ClaimsVerificationError>(error),
            );
        },
        _ => {},
    }
}

/// A token response gives whatever verification gives: where the parser makes a token of the text
/// in the body, and verification of that token can only give these claims, so does the response,
/// whatever the request demands of signatures.
pub proof fn law_verified_token_response_is_accepted<
    K: JsonWebKey<JS>,
    AC: AdditionalClaims,
    GC: GenderClaim,
    JS,
    RE,
    PC: FnOnce(&[u8]) -> Result<UserInfoClaimsImpl<AC, GC>, serde_json::Error>,
    PT: FnOnce(String) -> Result<UserInfoJsonWebToken<AC, GC, JS>, serde_json::Error>,
>(
    request: UserInfoRequest<K>,
    response: HttpResponse,
    parse_claims: PC,
    parse_token: PT,
    token: UserInfoJsonWebToken<AC, GC, JS>,
    verified: UserInfoClaims<AC, GC>,
    claims: Result<UserInfoClaims<AC, GC>, UserInfoError<RE>>,
)
    requires
        call_ensures(
            UserInfoRequest::<K>::user_info_response::<AC, GC, JS, RE, PC, PT>,
            (request, response, parse_claims, parse_token),
            claims,
        ),
        response.status_code == 200,
        header_entries(response.headers).dom().contains("content-type"@),
        header_entries(response.headers)["content-type"@][0].0 == encode_utf8("application/jwt"@),
        valid_utf8(response.body@),
        forall|
            text: String,
            answer: Result<UserInfoJsonWebToken<AC, GC, JS>, serde_json::Error>,
        |
            encode_utf8(text@) == response.body@ && #[trigger] call_ensures(
                parse_token,
                (text,),
                answer,
            ) ==> answer == Ok::<_, serde_json::Error>(token),
        forall|outcome: Result<UserInfoClaims<AC, GC>, ClaimsVerificationError>|
            request.signed_response_verifier.may_verify_token(
                token.0,
                #[trigger] unwrapped(outcome),
            ) ==> outcome == Ok::<_, ClaimsVerificationError>(verified),
    ensures
        claims == Ok::<_, UserInfoError<RE>>(verified),
{
    law_jwt_response_gives_parsed_token::<K, AC, GC, JS, RE, PC, PT>(
        request,
        response,
        parse_claims,
        parse_token,
        claims,
    );
}

/// A response that first says that it is something other than JSON or a JSON Web Token gives the
/// status code, the body, and a message that shows the content type.
pub proof fn law_other_response_is_reported<
    K: JsonWebKey<JS>,
    AC: AdditionalClaims,
    GC: GenderClaim,
    JS,
    RE,
    PC: FnOnce(&[u8]) -> Result<UserInfoClaimsImpl<AC, GC>, serde_json::Error>,
    PT: FnOnce(String) -> Result<UserInfoJsonWebToken<AC, GC, JS>, serde_json::Error>,
>(
    request: UserInfoRequest<K>,
    response: HttpResponse,
    parse_claims: PC,
    parse_token: PT,
    claims: Result<UserInfoClaims<AC, GC>, UserInfoError<RE>>,
)
    requires
        call_ensures(
            UserInfoRequest::<K>::user_info_response::<AC, GC, JS, RE, PC, PT>,
            (request, response, parse_claims, parse_token),
            claims,
        ),
        response.status_code == 200,
        header_entries(response.headers).dom().contains("content-type"@),
        header_entries(response.headers)["content-type"@][0].0 != encode_utf8("application/json"@),
        header_entries(response.headers)["content-type"@][0].0 != encode_utf8("application/jwt"@),
    ensures
        claims matches Err(UserInfoError::Response(status_code, body, message)) && status_code
            == 200 && body@ == response.body@ && message@
            == "unexpected response Content-Type: `"@ + shown_value(
            header_entries(response.headers)["content-type"@][0].0,
            header_entries(response.headers)["content-type"@][0].1,
        ) + "`"@,
{
}

} // verus!
