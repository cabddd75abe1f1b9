use user_info::claims::{
    AudiencesClaim, IssuerClaim, StandardClaims, UserInfoClaims, UserInfoClaimsImpl,
};
use user_info::errors::{
    ClaimsVerificationError, JsonWebTokenError, SignatureVerificationError, SigningError,
    UserInfoError,
};
use user_info::jwt::{JsonWebKey, JsonWebToken, PrivateSigningKey, UserInfoJsonWebToken};
use user_info::types::{
    AdditionalClaims, AddressClaim, Audience, ClientId, EndUserBirthday, EndUserEmail,
    EndUserFamilyName, EndUserGivenName, EndUserMiddleName, EndUserName, EndUserNickname,
    EndUserPhoneNumber, EndUserPictureUrl, EndUserProfileUrl, EndUserTimezone, EndUserUsername,
    EndUserWebsiteUrl, GenderClaim, LanguageTag, LocalizedClaim, SubjectIdentifier,
    Timestamp,
};
use user_info::urls::IssuerUrl;
use user_info::verification::UserInfoVerifier;

#[derive(Clone, Debug, PartialEq)]
struct Score(u32);

impl AdditionalClaims for Score {}

#[derive(Clone, Debug, PartialEq)]
struct Gender(String);

impl GenderClaim for Gender {}

/// Signs a message with its length and a secret.
struct Secret(u8);

impl PrivateSigningKey<u16> for Secret {
    fn sign(&self, signature_alg: &u16, message: &[u8]) -> Result<Vec<u8>, SigningError> {
        if *signature_alg == 7 {
            Ok(vec![message.len() as u8, self.0])
        } else {
            Err(SigningError::UnsupportedAlg(format!("{}", signature_alg)))
        }
    }
}

impl JsonWebKey<u16> for Secret {
    fn verify_signature(
        &self,
        signature_alg: &u16,
        message: &[u8],
        signature: &[u8],
    ) -> Result<(), SignatureVerificationError> {
        match self.sign(signature_alg, message) {
            Ok(expected) => {
                if expected.as_slice() == signature {
                    Ok(())
                } else {
                    Err(SignatureVerificationError::NoMatchingKey)
                }
            }
            Err(_) => Err(SignatureVerificationError::Other("alg".to_string())),
        }
    }
}

fn standard(sub: &str) -> StandardClaims<Gender> {
    StandardClaims {
        sub: SubjectIdentifier(sub.to_string()),
        name: None,
        given_name: None,
        family_name: None,
        middle_name: None,
        nickname: None,
        preferred_username: None,
        profile: None,
        picture: None,
        website: None,
        email: None,
        email_verified: None,
        gender: None,
        birthday: None,
        zoneinfo: None,
        locale: None,
        phone_number: None,
        phone_number_verified: None,
        address: None,
        updated_at: None,
    }
}

fn new_claims() -> UserInfoClaims<Score, Gender> {
    UserInfoClaims::new(standard("carol"), Score(3))
}

fn audiences(names: &[&str]) -> Option<Vec<Audience>> {
    Some(names.iter().map(|name| Audience(name.to_string())).collect())
}

fn issued(issuer: &str, names: &[&str]) -> UserInfoClaims<Score, Gender> {
    new_claims()
        .set_issuer(Some(IssuerUrl::new(issuer.to_string()).unwrap()))
        .set_audiences(audiences(names))
}

fn strict_verifier() -> UserInfoVerifier<Secret> {
    UserInfoVerifier::new(
        ClientId("me".to_string()),
        IssuerUrl::new("https://op".to_string()).unwrap(),
        Secret(9),
        Some(SubjectIdentifier("carol".to_string())),
    )
}

fn encode(alg: &u16, claims: &UserInfoClaimsImpl<Score, Gender>) -> Result<String, serde_json::Error> {
    Ok(format!("{}.{}", alg, claims.standard_claims.sub.0))
}

fn signed(claims: UserInfoClaims<Score, Gender>) -> UserInfoJsonWebToken<Score, Gender, u16> {
    UserInfoJsonWebToken::new(claims, &Secret(9), 7u16, encode).unwrap()
}

fn refused(claims: UserInfoClaims<Score, Gender>) -> ClaimsVerificationError {
    signed(claims).claims(&strict_verifier()).unwrap_err()
}

#[test]
fn new_token_holds_claims_and_signature() {
    let token = signed(new_claims());
    assert_eq!(token.0.alg, Some(7));
    assert_eq!(token.0.signing_input, "7.carol");
    assert_eq!(token.0.signature, vec![7, 9]);
    assert_eq!(token.0.payload.additional_claims, Score(3));
}

#[test]
fn signed_claims_come_back() {
    let claims = issued("https://op", &["me"]);
    let shown = format!("{:?}", claims);
    let back = signed(claims).claims(&strict_verifier()).unwrap();
    assert_eq!(format!("{:?}", back), shown);
}

#[test]
fn signing_failure_is_reported() {
    let made: Result<UserInfoJsonWebToken<Score, Gender, u16>, JsonWebTokenError> =
        UserInfoJsonWebToken::new(new_claims(), &Secret(9), 8u16, encode);
    match made {
        Err(JsonWebTokenError::SigningError(error)) => {
            assert_eq!(error, SigningError::UnsupportedAlg("8".to_string()))
        }
        other => panic!("{:?}", other),
    }
}

#[test]
fn serialization_failure_is_reported() {
    let made: Result<UserInfoJsonWebToken<Score, Gender, u16>, JsonWebTokenError> =
        UserInfoJsonWebToken::new(
            new_claims(),
            &Secret(9),
            7u16,
            |_: &u16, _: &UserInfoClaimsImpl<Score, Gender>| {
                Err(serde_json::from_str::<u8>("x").unwrap_err())
            },
        );
    assert!(matches!(made, Err(JsonWebTokenError::SerializationError(_))));
}

#[test]
fn token_can_be_made_of_any_payload() {
    let token: Result<JsonWebToken<u16, u8>, JsonWebTokenError> =
        JsonWebToken::from_signature(7u16, 5u8, "in".to_string(), Ok(vec![1]));
    let token = token.unwrap();
    assert_eq!(token.payload, 5);
    assert_eq!(token.signature, vec![1]);
    let failed: Result<JsonWebToken<u16, u8>, JsonWebTokenError> =
        JsonWebToken::from_signature(7u16, 5u8, "in".to_string(), Err(SigningError::CryptoError));
    assert!(matches!(failed, Err(JsonWebTokenError::SigningError(SigningError::CryptoError))));
}

#[test]
fn other_issuer_is_refused() {
    assert_eq!(
        refused(issued("https://other", &["me"])),
        ClaimsVerificationError::InvalidIssuer(
            "expected `https://op` (found `https://other`)".to_string()
        )
    );
}

#[test]
fn missing_issuer_is_refused() {
    assert_eq!(
        refused(new_claims().set_audiences(audiences(&["me"]))),
        ClaimsVerificationError::InvalidIssuer("missing issuer claim".to_string())
    );
}

#[test]
fn missing_audiences_are_refused() {
    assert_eq!(
        refused(issued("https://op", &[]).set_audiences(None)),
        ClaimsVerificationError::InvalidAudience("missing audiences claim".to_string())
    );
}

#[test]
fn other_audiences_are_refused() {
    assert_eq!(
        refused(issued("https://op", &["you", "them"])),
        ClaimsVerificationError::InvalidAudience(
            "must contain `me` (found audiences: `you`, `them`)".to_string()
        )
    );
    assert_eq!(
        refused(issued("https://op", &[])),
        ClaimsVerificationError::InvalidAudience(
            "must contain `me` (found audiences: )".to_string()
        )
    );
}

#[test]
fn additional_audience_is_refused() {
    assert_eq!(
        refused(issued("https://op", &["me", "you", "them"])),
        ClaimsVerificationError::InvalidAudience(
            "`you` is not a trusted audience".to_string()
        )
    );
}

#[test]
fn repeated_audience_is_accepted() {
    assert!(signed(issued("https://op", &["me", "me"])).claims(&strict_verifier()).is_ok());
}

#[test]
fn matches_that_are_not_required_are_not_checked() {
    let lenient = strict_verifier().require_issuer_match(false).require_audience_match(false);
    assert!(signed(new_claims()).claims(&lenient).is_ok());
    let strict = lenient.require_issuer_match(true);
    assert!(signed(new_claims()).claims(&strict).is_err());
}

#[test]
fn signature_is_looked_at_before_subject() {
    let mut token = signed(issued("https://op", &["me"]));
    token.0.signature = vec![0];
    token.0.payload.standard_claims.sub = SubjectIdentifier("dave".to_string());
    assert_eq!(
        token.claims(&strict_verifier()).unwrap_err(),
        ClaimsVerificationError::SignatureVerification(SignatureVerificationError::NoMatchingKey)
    );
}

#[test]
fn other_subject_is_refused() {
    let mut claims = issued("https://op", &["me"]);
    claims.set_subject(SubjectIdentifier("dave".to_string()));
    assert_eq!(
        refused(claims),
        ClaimsVerificationError::InvalidSubject("expected `carol` (found `dave`)".to_string())
    );
}

#[test]
fn answer_about_signature_decides() {
    let token = signed(issued("https://op", &["me"]));
    assert!(strict_verifier().verified_with(token.0.clone(), Ok(())).is_ok());
    assert_eq!(
        strict_verifier()
            .verified_with(token.0, Err(SignatureVerificationError::NoMatchingKey))
            .unwrap_err(),
        ClaimsVerificationError::SignatureVerification(SignatureVerificationError::NoMatchingKey)
    );
}

#[test]
fn from_json_hands_the_body_to_the_parser() {
    let subject = SubjectIdentifier("carol".to_string());
    let got: Result<UserInfoClaims<Score, Gender>, UserInfoError<String>> =
        UserInfoClaims::from_json(b"body", Some(&subject), |body: &[u8]| {
            assert_eq!(body, b"body");
            Ok(new_claims().0)
        });
    assert_eq!(got.unwrap().additional_claims(), &Score(3));
}

#[test]
fn from_json_without_expected_subject_accepts_any() {
    let got: Result<UserInfoClaims<Score, Gender>, UserInfoError<String>> =
        UserInfoClaims::from_parsed(Ok(new_claims().0), None);
    assert_eq!(got.unwrap().subject().0, "carol");
}

#[test]
fn from_json_refuses_other_subject() {
    let subject = SubjectIdentifier("dave".to_string());
    let got: Result<UserInfoClaims<Score, Gender>, UserInfoError<String>> =
        UserInfoClaims::from_parsed(Ok(new_claims().0), Some(&subject));
    match got {
        Err(UserInfoError::ClaimsVerification(error)) => assert_eq!(
            error,
            ClaimsVerificationError::InvalidSubject(
                "expected `dave` (found `carol`)".to_string()
            )
        ),
        other => panic!("{:?}", other),
    }
}

#[test]
fn new_claims_have_no_issuer_and_no_audiences() {
    let claims = new_claims();
    assert!(claims.issuer().is_none());
    assert!(claims.audiences().is_none());
    assert_eq!(claims.standard_claims().sub.0, "carol");
    assert_eq!(claims.additional_claims(), &Score(3));
}

#[test]
fn subject_and_additional_claims_can_be_changed() {
    let mut claims = new_claims();
    claims.set_subject(SubjectIdentifier("erin".to_string()));
    claims.additional_claims_mut().0 = 8;
    assert_eq!(claims.subject().0, "erin");
    assert_eq!(claims.additional_claims(), &Score(8));
}

#[test]
fn issuer_and_audiences_are_claims() {
    let claims = issued("https://op", &["me", "you"]);
    assert_eq!(claims.issuer().unwrap().as_str(), "https://op");
    assert_eq!(claims.audiences().unwrap().len(), 2);
    let inner = &claims.0;
    assert_eq!(IssuerClaim::issuer(inner).unwrap().as_str(), "https://op");
    assert_eq!(AudiencesClaim::audiences(inner).unwrap()[1].0, "you");
    assert_eq!(IssuerClaim::issuer(&inner).unwrap().as_str(), "https://op");
    assert_eq!(AudiencesClaim::audiences(&inner).unwrap()[0].0, "me");
}

fn local<T>(value: T) -> LocalizedClaim<T> {
    LocalizedClaim { untagged: Some(value), tagged: Vec::new() }
}

#[test]
fn each_standard_claim_is_set_and_read() {
    let claims = new_claims()
        .set_name(Some(local(EndUserName("n".to_string()))))
        .set_given_name(Some(local(EndUserGivenName("g".to_string()))))
        .set_family_name(Some(local(EndUserFamilyName("f".to_string()))))
        .set_middle_name(Some(local(EndUserMiddleName("m".to_string()))))
        .set_nickname(Some(local(EndUserNickname("k".to_string()))))
        .set_preferred_username(Some(EndUserUsername("u".to_string())))
        .set_profile(Some(local(EndUserProfileUrl("p".to_string()))))
        .set_picture(Some(local(EndUserPictureUrl("i".to_string()))))
        .set_website(Some(local(EndUserWebsiteUrl("w".to_string()))))
        .set_email(Some(EndUserEmail("e".to_string())))
        .set_email_verified(Some(true))
        .set_gender(Some(Gender("x".to_string())))
        .set_birthday(Some(EndUserBirthday("b".to_string())))
        .set_zoneinfo(Some(EndUserTimezone("z".to_string())))
        .set_locale(Some(LanguageTag("l".to_string())))
        .set_phone_number(Some(EndUserPhoneNumber("t".to_string())))
        .set_phone_number_verified(Some(false))
        .set_address(Some(AddressClaim {
            formatted: None,
            street_address: None,
            locality: None,
            region: None,
            postal_code: None,
            country: None,
        }))
        .set_updated_at(Some(Timestamp { seconds: 12, nanoseconds: 34 }));
    assert_eq!(claims.name(), Some(&local(EndUserName("n".to_string()))));
    assert_eq!(claims.given_name(), Some(&local(EndUserGivenName("g".to_string()))));
    assert_eq!(claims.family_name(), Some(&local(EndUserFamilyName("f".to_string()))));
    assert_eq!(claims.middle_name(), Some(&local(EndUserMiddleName("m".to_string()))));
    assert_eq!(claims.nickname(), Some(&local(EndUserNickname("k".to_string()))));
    assert_eq!(claims.preferred_username(), Some(&EndUserUsername("u".to_string())));
    assert_eq!(claims.profile(), Some(&local(EndUserProfileUrl("p".to_string()))));
    assert_eq!(claims.picture(), Some(&local(EndUserPictureUrl("i".to_string()))));
    assert_eq!(claims.website(), Some(&local(EndUserWebsiteUrl("w".to_string()))));
    assert_eq!(claims.email(), Some(&EndUserEmail("e".to_string())));
    assert_eq!(claims.email_verified(), Some(true));
    assert_eq!(claims.gender(), Some(&Gender("x".to_string())));
    assert_eq!(claims.birthday(), Some(&EndUserBirthday("b".to_string())));
    assert_eq!(claims.zoneinfo(), Some(&EndUserTimezone("z".to_string())));
    assert_eq!(claims.locale(), Some(&LanguageTag("l".to_string())));
    assert_eq!(claims.phone_number(), Some(&EndUserPhoneNumber("t".to_string())));
    assert_eq!(claims.phone_number_verified(), Some(false));
    assert!(claims.address().is_some());
    assert_eq!(claims.updated_at(), Some(Timestamp { seconds: 12, nanoseconds: 34 }));
    assert_eq!(claims.subject().0, "carol");
    assert!(claims.set_name(None).name().is_none());
}

#[test]
fn issuers_are_compared_as_text() {
    let plain = IssuerUrl::new("https://op".to_string()).unwrap();
    let slash = IssuerUrl::new("https://op/".to_string()).unwrap();
    assert_eq!(plain.url(), slash.url());
    assert!(plain != slash);
    assert!(plain == plain.clone());
    assert!(IssuerUrl::new("op".to_string()).is_err());
    assert_eq!(
        refused(issued("https://op/", &["me"])),
        ClaimsVerificationError::InvalidIssuer(
            "expected `https://op` (found `https://op/`)".to_string()
        )
    );
}
