use http::header::{HeaderMap, HeaderValue};
use user_info::claims::{StandardClaims, UserInfoClaimsImpl};
use user_info::errors::{
    ClaimsVerificationError, NoUserInfoEndpoint, SignatureVerificationError, UserInfoError,
};
use user_info::headers::is_header_text;
use user_info::jwt::{JsonWebKey, JsonWebToken, UserInfoJsonWebToken};
use user_info::types::{
    AdditionalClaims, Audience, ClientId, GenderClaim, SubjectIdentifier,
};
use user_info::urls::{IssuerUrl, UserInfoUrl};
use user_info::request::{HttpRequest, HttpResponse, Method, ResponseContent, UserInfoRequest};
use user_info::verification::UserInfoVerifier;

#[derive(Clone, Debug)]
struct NoClaims;

impl AdditionalClaims for NoClaims {}

#[derive(Clone, Debug)]
struct Gender;

impl GenderClaim for Gender {}

/// Accepts the signature that is the message read backwards.
struct Mirror;

impl JsonWebKey<String> for Mirror {
    fn verify_signature(
        &self,
        signature_alg: &String,
        message: &[u8],
        signature: &[u8],
    ) -> Result<(), SignatureVerificationError> {
        if signature_alg != "mirror" {
            return Err(SignatureVerificationError::UnsupportedAlg(signature_alg.clone()));
        }
        let expected: Vec<u8> = message.iter().rev().cloned().collect();
        if signature == expected.as_slice() {
            Ok(())
        } else {
            Err(SignatureVerificationError::CryptoError("bad signature".to_string()))
        }
    }
}

type Claims = UserInfoClaimsImpl<NoClaims, Gender>;
type Token = UserInfoJsonWebToken<NoClaims, Gender, String>;
type Outcome = Result<user_info::claims::UserInfoClaims<NoClaims, Gender>, UserInfoError<String>>;

fn claims(sub: &str) -> Claims {
    UserInfoClaimsImpl {
        issuer: None,
        audiences: None,
        standard_claims: StandardClaims {
            sub: SubjectIdentifier(sub.to_string()),
            name: None,
            given_name: None,
            family_name: None,
            middle_name: None,
            nickname: None,
            preferred_username: None,
            profile: None,
            picture: None,
            website: None,
            email: None,
            email_verified: None,
            gender: None,
            birthday: None,
            zoneinfo: None,
            locale: None,
            phone_number: None,
            phone_number_verified: None,
            address: None,
            updated_at: None,
        },
        additional_claims: NoClaims,
    }
}

fn signed_claims(sub: &str) -> Claims {
    let mut made = claims(sub);
    made.issuer = Some(IssuerUrl::new("https://issuer.example".to_string()).unwrap());
    made.audiences = Some(vec![Audience("client".to_string())]);
    made
}

fn token(alg: Option<&str>, payload: Claims, input: &str, signature: &str) -> Token {
    UserInfoJsonWebToken(JsonWebToken {
        alg: alg.map(|name| name.to_string()),
        payload,
        signing_input: input.to_string(),
        signature: signature.as_bytes().to_vec(),
    })
}

fn request_for(subject: Option<&str>) -> UserInfoRequest<Mirror> {
    UserInfoRequest {
        url: UserInfoUrl::new("https://Issuer.example/user info?x=1".to_string()).unwrap(),
        access_token: "t0k3n".to_string(),
        require_signed_response: false,
        signed_response_verifier: UserInfoVerifier::new(
            ClientId("client".to_string()),
            IssuerUrl::new("https://issuer.example".to_string()).unwrap(),
            Mirror,
            subject.map(|sub| SubjectIdentifier(sub.to_string())),
        ),
    }
}

fn response(status_code: u16, content_type: Option<&[u8]>, body: &[u8]) -> HttpResponse {
    let mut headers = HeaderMap::new();
    if let Some(value) = content_type {
        headers.insert("Content-Type", HeaderValue::from_bytes(value).unwrap());
    }
    HttpResponse { status_code, headers, body: body.to_vec() }
}

fn parse_error() -> serde_json::Error {
    serde_json::from_slice::<serde_json::Value>(b"{").unwrap_err()
}

fn no_claims(_: &[u8]) -> Result<Claims, serde_json::Error> {
    panic!("no JSON was expected")
}

fn no_token(_: String) -> Result<Token, serde_json::Error> {
    panic!("no token was expected")
}

fn answer_json(request: UserInfoRequest<Mirror>, answer: HttpResponse, sub: &'static str) -> Outcome {
    request.user_info_response(answer, |_: &[u8]| Ok(claims(sub)), no_token)
}

fn answer_jwt(request: UserInfoRequest<Mirror>, parsed: Token) -> Outcome {
    let answer = response(200, Some(b"application/jwt"), b"a.b.c");
    request.user_info_response(answer, no_claims, move |_: String| Ok(parsed))
}

#[test]
fn request_is_a_get_with_bearer_token() {
    let made = request_for(None).prepare_request();
    assert_eq!(made.url, "https://issuer.example/user%20info?x=1");
    assert_eq!(made.method, Method::Get);
    assert!(made.body.is_empty());
    assert_eq!(made.headers.len(), 2);
    assert_eq!(made.headers.get("accept").unwrap().as_bytes(), b"application/json");
    assert_eq!(made.headers.get("authorization").unwrap().as_bytes(), b"Bearer t0k3n");
    assert!(!made.headers.get("authorization").unwrap().is_sensitive());
}

#[test]
fn request_does_not_depend_on_response_options() {
    let made = request_for(None)
        .require_signed_response(true)
        .require_issuer_match(false)
        .require_audience_match(false)
        .prepare_request();
    let plain = request_for(Some("someone")).prepare_request();
    assert_eq!(made.url, plain.url);
    assert_eq!(made.headers, plain.headers);
}

#[test]
fn header_text_excludes_control_characters() {
    assert!(is_header_text("t0k3n"));
    assert!(is_header_text(""));
    assert!(is_header_text("a\tb"));
    assert!(is_header_text("caf\u{e9}"));
    assert!(!is_header_text("a\nb"));
    assert!(!is_header_text("a\u{7f}"));
}

#[test]
fn url_keeps_text_beside_its_serialization() {
    let url = UserInfoUrl::new("HTTPS://issuer.example".to_string()).unwrap();
    assert_eq!(url.as_str(), "HTTPS://issuer.example");
    assert_eq!(url.url(), "https://issuer.example/");
    assert_eq!(url.clone().url(), "https://issuer.example/");
}

#[test]
fn url_without_scheme_is_refused() {
    let error = UserInfoUrl::new("issuer.example".to_string()).unwrap_err();
    assert_eq!(error.message, "relative URL without a base");
}

#[test]
fn options_change_what_they_name() {
    let request = request_for(None);
    assert!(request.signed_response_verifier.iss_required);
    assert!(request.signed_response_verifier.aud_match_required);
    let request = request.require_issuer_match(false);
    assert!(!request.signed_response_verifier.iss_required);
    assert!(request.signed_response_verifier.aud_match_required);
    let request = request.require_issuer_match(true).require_audience_match(false);
    assert!(request.signed_response_verifier.iss_required);
    assert!(!request.signed_response_verifier.aud_match_required);
    assert!(!request.require_signed_response);
    assert!(request.require_signed_response(true).require_signed_response);
}

#[test]
fn json_claims_are_returned() {
    let request = request_for(Some("alice"));
    let answer = response(200, Some(b"application/json"), b"{\"sub\":\"alice\"}");
    let got: Outcome = request.user_info_response(
        answer,
        |body: &[u8]| {
            assert_eq!(body, b"{\"sub\":\"alice\"}");
            Ok(claims("alice"))
        },
        no_token,
    );
    assert_eq!(got.unwrap().subject().0, "alice");
}

#[test]
fn missing_content_type_is_taken_for_json() {
    let got = answer_json(request_for(None), response(200, None, b"{}"), "bob");
    assert_eq!(got.unwrap().subject().0, "bob");
}

#[test]
fn other_json_subject_is_refused() {
    let got = answer_json(request_for(Some("alice")), response(200, None, b"{}"), "bob");
    match got {
        Err(UserInfoError::ClaimsVerification(error)) => assert_eq!(
            error,
            ClaimsVerificationError::InvalidSubject(
                "expected `alice` (found `bob`)".to_string()
            )
        ),
        other => panic!("{:?}", other),
    }
}

#[test]
fn unparsable_json_is_reported() {
    let got: Outcome = request_for(None).user_info_response(
        response(200, None, b"{"),
        |_: &[u8]| Err(parse_error()),
        no_token,
    );
    match got {
        Err(UserInfoError::Parse(error)) => assert!(error.is_eof()),
        other => panic!("{:?}", other),
    }
}

#[test]
fn unsigned_response_is_refused_where_signature_is_required() {
    let request = request_for(None).require_signed_response(true);
    let got: Outcome =
        request.user_info_response(response(200, None, b"{}"), no_claims, no_token);
    match got {
        Err(UserInfoError::ClaimsVerification(ClaimsVerificationError::NoSignature)) => (),
        other => panic!("{:?}", other),
    }
}

#[test]
fn match_options_have_no_effect_on_json() {
    for iss in vec![false, true] {
        for aud in vec![false, true] {
            let request =
                request_for(None).require_issuer_match(iss).require_audience_match(aud);
            let got = answer_json(request, response(200, None, b"{}"), "bob");
            assert_eq!(got.unwrap().subject().0, "bob");
        }
    }
}

#[test]
fn status_code_other_than_ok_is_refused() {
    let got: Outcome = request_for(None).user_info_response(
        response(404, Some(b"application/json"), b"gone"),
        no_claims,
        no_token,
    );
    match got {
        Err(UserInfoError::Response(status_code, body, message)) => {
            assert_eq!(status_code, 404);
            assert_eq!(body, b"gone");
            assert_eq!(message, "unexpected HTTP status code");
        }
        other => panic!("{:?}", other),
    }
}

#[test]
fn created_is_not_ok() {
    let content: Result<ResponseContent, UserInfoError<String>> =
        request_for(None).response_content(response(201, None, b"{}"));
    assert!(matches!(content, Err(UserInfoError::Response(201, _, _))));
}

fn content_type_message(value: &[u8], sensitive: bool) -> String {
    let mut header = HeaderValue::from_bytes(value).unwrap();
    header.set_sensitive(sensitive);
    let mut headers = HeaderMap::new();
    headers.insert("content-type", header);
    let answer = HttpResponse { status_code: 200, headers, body: b"x".to_vec() };
    let content: Result<ResponseContent, UserInfoError<String>> =
        request_for(None).response_content(answer);
    match content {
        Err(UserInfoError::Response(200, body, message)) => {
            assert_eq!(body, b"x");
            message
        }
        other => panic!("{:?}", other),
    }
}

#[test]
fn unknown_content_type_is_quoted() {
    assert_eq!(
        content_type_message(b"text/html", false),
        "unexpected response Content-Type: `\"text/html\"`"
    );
}

#[test]
fn content_type_with_parameters_is_unknown() {
    assert_eq!(
        content_type_message(b"application/json; charset=utf-8", false),
        "unexpected response Content-Type: `\"application/json; charset=utf-8\"`"
    );
}

#[test]
fn unusual_bytes_of_content_type_are_escaped() {
    assert_eq!(
        content_type_message(b"a\"\t\xe9\xf0\x80z", false),
        "unexpected response Content-Type: `\"a\\\"\t\\xe9\\xf0\\x80z\"`"
    );
}

#[test]
fn empty_content_type_is_unknown() {
    assert_eq!(
        content_type_message(b"", false),
        "unexpected response Content-Type: `\"\"`"
    );
}

#[test]
fn sensitive_content_type_is_not_shown() {
    assert_eq!(
        content_type_message(b"secret", true),
        "unexpected response Content-Type: `Sensitive`"
    );
}

#[test]
fn first_content_type_counts() {
    let mut headers = HeaderMap::new();
    headers.append("content-type", HeaderValue::from_static("application/jwt"));
    headers.append("content-type", HeaderValue::from_static("application/json"));
    let answer = HttpResponse { status_code: 200, headers, body: b"a.b.c".to_vec() };
    let content: Result<ResponseContent, UserInfoError<String>> =
        request_for(None).response_content(answer);
    assert_eq!(content.unwrap(), ResponseContent::Jwt("a.b.c".to_string()));
}

#[test]
fn token_with_invalid_utf8_is_refused() {
    let got: Outcome = request_for(None).user_info_response(
        response(200, Some(b"application/jwt"), b"a\xff"),
        no_claims,
        no_token,
    );
    match got {
        Err(UserInfoError::Other(message)) => {
            assert_eq!(message, "response body has invalid UTF-8 encoding")
        }
        other => panic!("{:?}", other),
    }
}

#[test]
fn token_text_is_decoded() {
    let answer = response(200, Some(b"application/jwt"), "h\u{e9}.b.c".as_bytes());
    let got: Outcome = request_for(None).user_info_response(answer, no_claims, |text: String| {
        assert_eq!(text, "h\u{e9}.b.c");
        Err(parse_error())
    });
    assert!(matches!(got, Err(UserInfoError::Parse(_))));
}

#[test]
fn signed_token_is_accepted() {
    let request = request_for(Some("alice")).require_signed_response(true);
    let got = answer_jwt(request, token(Some("mirror"), signed_claims("alice"), "abc", "cba"));
    assert_eq!(got.unwrap().subject().0, "alice");
}

#[test]
fn token_about_other_subject_is_refused() {
    let request = request_for(Some("alice"));
    let got = answer_jwt(request, token(Some("mirror"), signed_claims("bob"), "abc", "cba"));
    match got {
        Err(UserInfoError::ClaimsVerification(ClaimsVerificationError::InvalidSubject(m))) => {
            assert_eq!(m, "expected `alice` (found `bob`)")
        }
        other => panic!("{:?}", other),
    }
}

#[test]
fn token_with_bad_signature_is_refused() {
    let got =
        answer_jwt(request_for(None), token(Some("mirror"), signed_claims("bob"), "abc", "abc"));
    match got {
        Err(UserInfoError::ClaimsVerification(error)) => assert_eq!(
            error,
            ClaimsVerificationError::SignatureVerification(
                SignatureVerificationError::CryptoError("bad signature".to_string())
            )
        ),
        other => panic!("{:?}", other),
    }
}

#[test]
fn token_without_signature_is_refused() {
    let got = answer_jwt(request_for(None), token(None, signed_claims("bob"), "abc", ""));
    assert!(matches!(
        got,
        Err(UserInfoError::ClaimsVerification(ClaimsVerificationError::NoSignature))
    ));
}

#[test]
fn request_goes_through_client() {
    let got: Outcome = request_for(Some("alice")).request(
        |made: HttpRequest| {
            assert_eq!(made.url, "https://issuer.example/user%20info?x=1");
            Ok(response(200, None, b"{}"))
        },
        |_: &[u8]| Ok(claims("alice")),
        no_token,
    );
    assert_eq!(got.unwrap().subject().0, "alice");
}

#[test]
fn client_failure_is_reported() {
    let got: Outcome = request_for(None).request(
        |_: HttpRequest| Err("no network".to_string()),
        no_claims,
        no_token,
    );
    match got {
        Err(UserInfoError::Request(error)) => assert_eq!(error, "no network"),
        other => panic!("{:?}", other),
    }
}

#[test]
fn errors_describe_themselves() {
    let verification: UserInfoError<String> =
        UserInfoError::ClaimsVerification(ClaimsVerificationError::NoSignature);
    assert_eq!(verification.display(), "Failed to verify claims");
    let parse: UserInfoError<String> = UserInfoError::Parse(parse_error());
    assert_eq!(parse.display(), "Failed to parse server response");
    let request: UserInfoError<String> = UserInfoError::Request("x".to_string());
    assert_eq!(request.display(), "Request failed");
    let answer: UserInfoError<String> =
        UserInfoError::Response(500, Vec::new(), "broken".to_string());
    assert_eq!(answer.display(), "Server returned invalid response: broken");
    let other: UserInfoError<String> = UserInfoError::Other("odd".to_string());
    assert_eq!(other.display(), "Other error: odd");
    assert_eq!(NoUserInfoEndpoint.display(), "No user info endpoint specified");
}
