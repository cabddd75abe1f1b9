//! Requests for user info and the answers to them.
use crate::claims::{UserInfoClaims, UserInfoClaimsImpl};
use crate::errors::{
    with_error_view, ClaimsVerificationError, ClaimsVerificationErrorView, UserInfoError,
    UserInfoErrorView,
};
use crate::headers::{
    append_header, first_header, header_entries, is_value_text, lemma_visible_is_value_text,
    new_headers, no_headers, show_header_value, shown_value, with_header,
};
use crate::jwt::{JsonWebKey, UserInfoJsonWebToken};
use crate::text::{enclose, enclosed, lemma_encode_concat, same_bytes, string_from_utf8};
use crate::types::{AdditionalClaims, GenderClaim};
use crate::urls::{parsed_url, UserInfoUrl};
use crate::verification::UserInfoVerifier;
use http::header::{HeaderMap, HeaderValue};
use vstd::prelude::*;
use vstd::string::*;
use vstd::utf8::*;

verus! {

/// Method of an HTTP request.
#[derive(Clone, Copy, Debug, PartialEq, Eq)]
pub enum Method {
    Get,
}

/// An HTTP request.
#[derive(Debug)]
pub struct HttpRequest {
    /// URL to which the request is made, in its serialized form.
    pub url: String,
    /// Method of the request.
    pub method: Method,
    /// Headers to send.
    pub headers: HeaderMap<HeaderValue>,
    /// Body of the request.
    pub body: Vec<u8>,
}

/// An HTTP response.
#[derive(Debug)]
pub struct HttpResponse {
    /// Status code returned by the server.
    pub status_code: u16,
    /// Headers returned by the server.
    pub headers: HeaderMap<HeaderValue>,
    /// Body returned by the server.
    pub body: Vec<u8>,
}

/// What a response holds that is not rejected before it is parsed.
#[derive(Clone, Debug, PartialEq, Eq)]
pub enum ResponseContent {
    /// Claims as a JSON object.
    Json(Vec<u8>),
    /// Claims in a JSON Web Token.
    Jwt(String),
}

/// The contents of a [`ResponseContent`].
pub enum ResponseContentView {
    Json(Seq<u8>),
    Jwt(Seq<char>),
}

impl View for ResponseContent {
    type V = ResponseContentView;

    open spec fn view(&self) -> ResponseContentView {
        match *self {
            ResponseContent::Json(body) => ResponseContentView::Json(body@),
            ResponseContent::Jwt(text) => ResponseContentView::Jwt(text@),
        }
    }
}

/// A result with the contents of its value and of its error.
pub open spec fn content_view<RE>(
    content: Result<ResponseContent, UserInfoError<RE>>,
) -> Result<ResponseContentView, UserInfoErrorView<RE>> {
    match content {
        Ok(content) => Ok(content@),
        Err(error) => Err(error@),
    }
}

/// The media type of JSON.
pub open spec fn json_type() -> Seq<u8> {
    encode_utf8("application/json"@)
}

/// The media type of JSON Web Tokens.
pub open spec fn jwt_type() -> Seq<u8> {
    encode_utf8("application/jwt"@)
}

/// The two media types are different.
pub(crate) proof fn lemma_media_types_differ()
    ensures
        json_type() != jwt_type(),
{
    reveal_strlit("application/json");
    reveal_strlit("application/jwt");
    is_ascii_chars_encode_utf8("application/json"@);
    is_ascii_chars_encode_utf8("application/jwt"@);
}

impl HttpResponse {
    /// The value of the `Content-Type` header and whether it is marked sensitive. A response
    /// without that header is taken for JSON.
    pub open spec fn content_type(&self) -> (Seq<u8>, bool) {
        if header_entries(self.headers).dom().contains("content-type"@) {
            header_entries(self.headers)["content-type"@][0]
        } else {
            (json_type(), false)
        }
    }
}

/// User info request.
pub struct UserInfoRequest<K> {
    /// The endpoint to which the request is made.
    pub url: UserInfoUrl,
    /// The secret of the access token that authorizes the request.
    pub access_token: String,
    /// Whether only a signed response is accepted.
    pub require_signed_response: bool,
    /// What is expected of the claims in the response.
    pub signed_response_verifier: UserInfoVerifier<K>,
}

impl<K> UserInfoRequest<K> {
    /// Whether `request` is the HTTP request that this user info request stands for.
    pub open spec fn is_prepared(&self, request: HttpRequest) -> bool {
        &&& request.url@ == self.url.serialization()
        &&& request.method == Method::Get
        &&& header_entries(request.headers) == with_header(
            with_header(no_headers(), "accept"@, json_type()),
            "authorization"@,
            encode_utf8("Bearer "@ + self.access_token@),
        )
        &&& request.body@ == Seq::<u8>::empty()
    }

    /// Makes the HTTP request. The access token has to be one that can stand in a header.
    pub fn prepare_request(&self) -> (request: HttpRequest)
        requires
            is_value_text(self.access_token@),
        ensures
            self.is_prepared(request),
            parsed_url(self.url.text()) == Ok::<Seq<char>, Seq<char>>(request.url@),
    {
        let mut headers = new_headers();
        proof {
            reveal_strlit("accept");
            reveal_strlit("authorization");
            reveal_strlit("application/json");
            reveal_strlit("Bearer ");
            lemma_visible_is_value_text("application/json"@);
            lemma_visible_is_value_text("Bearer "@);
            lemma_encode_concat("Bearer "@, self.access_token@);
        }
        append_header(&mut headers, "accept", "application/json");
        let bearer = String::from_str("Bearer ").concat(self.access_token.as_str());
        append_header(&mut headers, "authorization", bearer.as_str());
        HttpRequest {
            url: self.url.url().clone(),
            method: Method::Get,
            headers,
            body: Vec::new(),
        }
    }

    /// What a response holds, or why it is rejected before it is parsed.
    pub open spec fn accepted_content<RE>(&self, response: HttpResponse) -> Result<
        ResponseContentView,
        UserInfoErrorView<RE>,
    > {
        let (content_type, sensitive) = response.content_type();
        if response.status_code != 200 {
            Err(
                UserInfoErrorView::Response(
                    response.status_code,
                    response.body@,
                    "unexpected HTTP status code"@,
                ),
            )
        } else if content_type == json_type() {
            if self.require_signed_response {
                Err(
                    UserInfoErrorView::ClaimsVerification(ClaimsVerificationErrorView::NoSignature),
                )
            } else {
                Ok(ResponseContentView::Json(response.body@))
            }
        } else if content_type == jwt_type() {
            if valid_utf8(response.body@) {
                Ok(ResponseContentView::Jwt(decode_utf8(response.body@)))
            } else {
                Err(UserInfoErrorView::Other("response body has invalid UTF-8 encoding"@))
            }
        } else {
            Err(
                UserInfoErrorView::Response(
                    response.status_code,
                    response.body@,
                    enclosed(
                        "unexpected response Content-Type: `"@,
                        shown_value(content_type, sensitive),
                        "`"@,
                    ),
                ),
            )
        }
    }

    /// Looks at the status code and the content type of a response.
    pub fn response_content<RE>(&self, http_response: HttpResponse) -> (content: Result<
        ResponseContent,
        UserInfoError<RE>,
    >)
        ensures
            content_view(content) == self.accepted_content::<RE>(http_response),
    {
        if http_response.status_code != 200 {
            return Err(
                UserInfoError::Response(
                    http_response.status_code,
                    http_response.body,
                    String::from_str("unexpected HTTP status code"),
                ),
            );
        }
        proof {
            reveal_strlit("content-type");
        }
        let (content_type, sensitive) = match first_header(
            &http_response.headers,
            "content-type",
        ) {
            Some(found) => found,
            None => ("application/json".as_bytes_vec(), false),
        };
        if same_bytes(content_type.as_slice(), "application/json".as_bytes()) {
            if self.require_signed_response {
                Err(UserInfoError::ClaimsVerification(ClaimsVerificationError::NoSignature))
            } else {
                Ok(ResponseContent::Json(http_response.body))
            }
        } else if same_bytes(content_type.as_slice(), "application/jwt".as_bytes()) {
            match string_from_utf8(http_response.body) {
                Some(text) => Ok(ResponseContent::Jwt(text)),
                None => Err(
                    UserInfoError::Other(
                        String::from_str("response body has invalid UTF-8 encoding"),
                    ),
                ),
            }
        } else {
            let shown = show_header_value(content_type.as_slice(), sensitive);
            Err(
                UserInfoError::Response(
                    http_response.status_code,
                    http_response.body,
                    enclose("unexpected response Content-Type: `", shown.as_str(), "`"),
                ),
            )
        }
    }

    /// The claims that come of the verification of a signed response.
    pub open spec fn answer_of<AC: AdditionalClaims, GC: GenderClaim, RE>(
        claims: Result<UserInfoClaimsImpl<AC, GC>, ClaimsVerificationErrorView>,
    ) -> Result<UserInfoClaims<AC, GC>, UserInfoErrorView<RE>> {
        match claims {
            Ok(claims) => Ok(UserInfoClaims(claims)),
            Err(error) => Err(UserInfoErrorView::ClaimsVerification(error)),
        }
    }

    /// Whether `outcome` may come of a parsed token.
    pub open spec fn may_accept_token<AC: AdditionalClaims, GC: GenderClaim, JS, RE>(
        &self,
        parsed: Result<UserInfoJsonWebToken<AC, GC, JS>, serde_json::Error>,
        outcome: Result<UserInfoClaims<AC, GC>, UserInfoErrorView<RE>>,
    ) -> bool where K: JsonWebKey<JS> {
        match parsed {
            Err(error) => outcome == Err::<UserInfoClaims<AC, GC>, UserInfoErrorView<RE>>(
                UserInfoErrorView::Parse(error),
            ),
            Ok(token) => exists|claims: Result<
                UserInfoClaimsImpl<AC, GC>,
                ClaimsVerificationErrorView,
            >| #[trigger]
                self.signed_response_verifier.may_verify_token(token.0, claims) && outcome
                    == Self::answer_of::<AC, GC, RE>(claims),
        }
    }

    /// Whether `outcome` may come of a response. The body of a response that is not rejected
    /// before is handed to `parse_claims` if it is JSON, and as text to `parse_token` if it is a
    /// JSON Web Token.
    pub open spec fn may_answer<AC: AdditionalClaims, GC: GenderClaim, JS, RE, PC, PT>(
        &self,
        response: HttpResponse,
        parse_claims: PC,
        parse_token: PT,
        outcome: Result<UserInfoClaims<AC, GC>, UserInfoErrorView<RE>>,
    ) -> bool where
        K: JsonWebKey<JS>,
        PC: FnOnce(&[u8]) -> Result<UserInfoClaimsImpl<AC, GC>, serde_json::Error>,
        PT: FnOnce(String) -> Result<UserInfoJsonWebToken<AC, GC, JS>, serde_json::Error>,
     {
        match self.accepted_content::<RE>(response) {
            Err(error) => outcome == Err::<UserInfoClaims<AC, GC>, UserInfoErrorView<RE>>(error),
            Ok(ResponseContentView::Json(body)) => exists|
                bytes: &[u8],
                parsed: Result<UserInfoClaimsImpl<AC, GC>, serde_json::Error>,
            |
                bytes@ == body && #[trigger] call_ensures(parse_claims, (bytes,), parsed) && outcome
                    == UserInfoClaims::accepted::<RE>(
                    parsed,
                    self.signed_response_verifier.subject(),
                ),
            Ok(ResponseContentView::Jwt(text)) => exists|
                token: String,
                parsed: Result<UserInfoJsonWebToken<AC, GC, JS>, serde_json::Error>,
            |
                token@ == text && #[trigger] call_ensures(parse_token, (token,), parsed)
                    && self.may_accept_token::<AC, GC, JS, RE>(parsed, outcome),
        }
    }

    /// Whether the parsers can be handed any body.
    pub open spec fn can_parse<AC: AdditionalClaims, GC: GenderClaim, JS, PC, PT>(
        parse_claims: PC,
        parse_token: PT,
    ) -> bool where
        PC: FnOnce(&[u8]) -> Result<UserInfoClaimsImpl<AC, GC>, serde_json::Error>,
        PT: FnOnce(String) -> Result<UserInfoJsonWebToken<AC, GC, JS>, serde_json::Error>,
     {
        &&& forall|bytes: &[u8]| #[trigger] call_requires(parse_claims, (bytes,))
        &&& forall|token: String| #[trigger] call_requires(parse_token, (token,))
    }

    /// Returns the claims of a parsed token.
    pub fn token_claims<AC: AdditionalClaims, GC: GenderClaim, JS, RE>(
        &self,
        parsed: Result<UserInfoJsonWebToken<AC, GC, JS>, serde_json::Error>,
    ) -> (claims: Result<UserInfoClaims<AC, GC>, UserInfoError<RE>>) where K: JsonWebKey<JS>
        ensures
            self.may_accept_token::<AC, GC, JS, RE>(parsed, with_error_view(claims)),
    {
        match parsed {
            Err(error) => Err(UserInfoError::Parse(error)),
            Ok(token) => match token.claims(&self.signed_response_verifier) {
                Ok(claims) => Ok(claims),
                Err(error) => Err(UserInfoError::ClaimsVerification(error)),
            },
        }
    }

    /// Returns the claims of a response. `parse_claims` parses a JSON response, `parse_token` a
    /// JSON Web Token.
    pub fn user_info_response<AC: AdditionalClaims, GC: GenderClaim, JS, RE, PC, PT>(
        self,
        http_response: HttpResponse,
        parse_claims: PC,
        parse_token: PT,
    ) -> (claims: Result<UserInfoClaims<AC, GC>, UserInfoError<RE>>) where
        K: JsonWebKey<JS>,
        PC: FnOnce(&[u8]) -> Result<UserInfoClaimsImpl<AC, GC>, serde_json::Error>,
        PT: FnOnce(String) -> Result<UserInfoJsonWebToken<AC, GC, JS>, serde_json::Error>,

        requires
            Self::can_parse::<AC, GC, JS, PC, PT>(parse_claims, parse_token),
        ensures
            self.may_answer::<AC, GC, JS, RE, PC, PT>(
                http_response,
                parse_claims,
                parse_token,
                with_error_view(claims),
            ),
    {
        match self.response_content(http_response) {
            Err(error) => Err(error),
            Ok(ResponseContent::Json(body)) => UserInfoClaims::from_json(
                body.as_slice(),
                self.signed_response_verifier.expected_subject(),
                parse_claims,
            ),
            Ok(ResponseContent::Jwt(text)) => self.token_claims(parse_token(text)),
        }
    }

    /// Submits this request to the associated user info endpoint using the specified synchronous
    /// HTTP client. `parse_claims` parses a JSON response, `parse_token` a JSON Web Token.
    pub fn request<AC: AdditionalClaims, GC: GenderClaim, JS, HC, RE, PC, PT>(
        self,
        http_client: HC,
        parse_claims: PC,
        parse_token: PT,
    ) -> (claims: Result<UserInfoClaims<AC, GC>, UserInfoError<RE>>) where
        K: JsonWebKey<JS>,
        HC: FnOnce(HttpRequest) -> Result<HttpResponse, RE>,
        PC: FnOnce(&[u8]) -> Result<UserInfoClaimsImpl<AC, GC>, serde_json::Error>,
        PT: FnOnce(String) -> Result<UserInfoJsonWebToken<AC, GC, JS>, serde_json::Error>,

        requires
            is_value_text(self.access_token@),
            forall|request: HttpRequest|
                self.is_prepared(request) ==> #[trigger] call_requires(http_client, (request,)),
            Self::can_parse::<AC, GC, JS, PC, PT>(parse_claims, parse_token),
        ensures
            exists|request: HttpRequest, answer: Result<HttpResponse, RE>|
                self.is_prepared(request) && #[trigger] call_ensures(
                    http_client,
                    (request,),
                    answer,
                ) && match answer {
                    Err(error) => claims == Err::<UserInfoClaims<AC, GC>, UserInfoError<RE>>(
                        UserInfoError::Request(error),
                    ),
                    Ok(response) => self.may_answer::<AC, GC, JS, RE, PC, PT>(
                        response,
                        parse_claims,
                        parse_token,
                        with_error_view(claims),
                    ),
                },
    {
        match http_client(self.prepare_request()) {
            Err(error) => Err(UserInfoError::Request(error)),
            Ok(http_response) => self.user_info_response(http_response, parse_claims, parse_token),
        }
    }

    /// Specifies whether to require the user info response to be a signed JSON Web Token (JWT).
    pub fn require_signed_response(self, require_signed_response: bool) -> (request: Self)
        ensures
            request == (UserInfoRequest { require_signed_response, ..self }),
    {
        UserInfoRequest { require_signed_response, ..self }
    }

    /// Specifies whether to require the issuer of the signed JWT response to match the expected
    /// issuer URL for this provider.
    ///
    /// This option has no effect on unsigned JSON responses.
    pub fn require_issuer_match(self, iss_required: bool) -> (request: Self)
        ensures
            request == (UserInfoRequest {
                signed_response_verifier: UserInfoVerifier {
                    iss_required,
                    ..self.signed_response_verifier
                },
                ..self
            }),
    {
        UserInfoRequest {
            signed_response_verifier: self.signed_response_verifier.require_issuer_match(
                iss_required,
            ),
            ..self
        }
    }

    /// Specifies whether to require the audience of the signed JWT response to match the expected
    /// audience (client ID).
    ///
    /// This option has no effect on unsigned JSON responses.
    pub fn require_audience_match(self, aud_required: bool) -> (request: Self)
        ensures
            request == (UserInfoRequest {
                signed_response_verifier: UserInfoVerifier {
                    aud_match_required: aud_required,
                    ..self.signed_response_verifier
                },
                ..self
            }),
    {
        UserInfoRequest {
            signed_response_verifier: self.signed_response_verifier.require_audience_match(
                aud_required,
            ),
            ..self
        }
    }
}

} // verus!
