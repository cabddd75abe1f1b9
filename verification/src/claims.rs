//! Claims about the end user.
use crate::types::{
    AdditionalClaims, AddressClaim, Audience, EndUserBirthday, EndUserEmail, EndUserFamilyName,
    EndUserGivenName, EndUserMiddleName, EndUserName, EndUserNickname, EndUserPhoneNumber,
    EndUserPictureUrl, EndUserProfileUrl, EndUserTimezone, EndUserUsername, EndUserWebsiteUrl,
    GenderClaim, LanguageTag, LocalizedClaim, SubjectIdentifier, Timestamp,
};
use crate::errors::{with_error_view, UserInfoError, UserInfoErrorView};
use crate::urls::IssuerUrl;
use crate::verification::{check_subject, subject_error};
use vstd::prelude::*;

verus! {

/// The standard claims about the end user.
#[derive(Clone, Debug)]
pub struct StandardClaims<GC: GenderClaim> {
    pub sub: SubjectIdentifier,
    pub name: Option<LocalizedClaim<EndUserName>>,
    pub given_name: Option<LocalizedClaim<EndUserGivenName>>,
    pub family_name: Option<LocalizedClaim<EndUserFamilyName>>,
    pub middle_name: Option<LocalizedClaim<EndUserMiddleName>>,
    pub nickname: Option<LocalizedClaim<EndUserNickname>>,
    pub preferred_username: Option<EndUserUsername>,
    pub profile: Option<LocalizedClaim<EndUserProfileUrl>>,
    pub picture: Option<LocalizedClaim<EndUserPictureUrl>>,
    pub website: Option<LocalizedClaim<EndUserWebsiteUrl>>,
    pub email: Option<EndUserEmail>,
    pub email_verified: Option<bool>,
    pub gender: Option<GC>,
    pub birthday: Option<EndUserBirthday>,
    pub zoneinfo: Option<EndUserTimezone>,
    pub locale: Option<LanguageTag>,
    pub phone_number: Option<EndUserPhoneNumber>,
    pub phone_number_verified: Option<bool>,
    pub address: Option<AddressClaim>,
    pub updated_at: Option<Timestamp>,
}

/// All claims of a user info response.
#[derive(Clone, Debug)]
pub struct UserInfoClaimsImpl<AC: AdditionalClaims, GC: GenderClaim> {
    pub issuer: Option<IssuerUrl>,
    pub audiences: Option<Vec<Audience>>,
    pub standard_claims: StandardClaims<GC>,
    pub additional_claims: AC,
}

/// Claims that say for whom they are meant.
pub trait AudiencesClaim {
    /// The value of the `aud` claim.
    spec fn aud(&self) -> Option<Vec<Audience>>;

    /// Returns the audiences.
    fn audiences(&self) -> (audiences: Option<&Vec<Audience>>)
        ensures
            audiences == borrowed(&self.aud()),
    ;
}

/// Claims that say who issued them.
pub trait IssuerClaim {
    /// The value of the `iss` claim.
    spec fn iss(&self) -> Option<IssuerUrl>;

    /// Returns the issuer.
    fn issuer(&self) -> (issuer: Option<&IssuerUrl>)
        ensures
            issuer == borrowed(&self.iss()),
    ;
}

/// The option with a reference to its value.
pub open spec fn borrowed<'a, T>(value: &'a Option<T>) -> Option<&'a T> {
    match value {
        Some(inner) => Some(inner),
        None => None,
    }
}

impl<AC: AdditionalClaims, GC: GenderClaim> AudiencesClaim for UserInfoClaimsImpl<AC, GC> {
    open spec fn aud(&self) -> Option<Vec<Audience>> {
        self.audiences
    }

    fn audiences(&self) -> Option<&Vec<Audience>> {
        self.audiences.as_ref()
    }
}

impl<'a, AC: AdditionalClaims, GC: GenderClaim> AudiencesClaim for &'a UserInfoClaimsImpl<AC, GC> {
    open spec fn aud(&self) -> Option<Vec<Audience>> {
        self.audiences
    }

    fn audiences(&self) -> Option<&Vec<Audience>> {
        self.audiences.as_ref()
    }
}

impl<AC: AdditionalClaims, GC: GenderClaim> IssuerClaim for UserInfoClaimsImpl<AC, GC> {
    open spec fn iss(&self) -> Option<IssuerUrl> {
        self.issuer
    }

    fn issuer(&self) -> Option<&IssuerUrl> {
        self.issuer.as_ref()
    }
}

impl<'a, AC: AdditionalClaims, GC: GenderClaim> IssuerClaim for &'a UserInfoClaimsImpl<AC, GC> {
    open spec fn iss(&self) -> Option<IssuerUrl> {
        self.issuer
    }

    fn issuer(&self) -> Option<&IssuerUrl> {
        self.issuer.as_ref()
    }
}

/// User info claims.
#[derive(Clone, Debug)]
pub struct UserInfoClaims<AC: AdditionalClaims, GC: GenderClaim>(pub UserInfoClaimsImpl<AC, GC>);

impl<AC: AdditionalClaims, GC: GenderClaim> UserInfoClaims<AC, GC> {
    /// Initializes user info claims.
    pub fn new(standard_claims: StandardClaims<GC>, additional_claims: AC) -> (claims: Self)
        ensures
            claims.0 == (UserInfoClaimsImpl {
                issuer: None,
                audiences: None,
                standard_claims,
                additional_claims,
            }),
    {
        UserInfoClaims(
            UserInfoClaimsImpl { issuer: None, audiences: None, standard_claims, additional_claims },
        )
    }

    /// The claims that come of a parsed JSON response.
    pub open spec fn accepted<RE>(
        parsed: Result<UserInfoClaimsImpl<AC, GC>, serde_json::Error>,
        expected_subject: Option<&SubjectIdentifier>,
    ) -> Result<Self, UserInfoErrorView<RE>> {
        match parsed {
            Err(error) => Err(UserInfoErrorView::Parse(error)),
            Ok(claims) => match subject_error(expected_subject, claims.standard_claims.sub) {
                Some(error) => Err(UserInfoErrorView::ClaimsVerification(error)),
                None => Ok(UserInfoClaims(claims)),
            },
        }
    }

    /// Initializes user info claims from a parsed JSON response.
    pub fn from_parsed<RE>(
        parsed: Result<UserInfoClaimsImpl<AC, GC>, serde_json::Error>,
        expected_subject: Option<&SubjectIdentifier>,
    ) -> (claims: Result<Self, UserInfoError<RE>>)
        ensures
            with_error_view(claims) == Self::accepted::<RE>(parsed, expected_subject),
    {
        match parsed {
            Err(error) => Err(UserInfoError::Parse(error)),
            Ok(user_info) => match check_subject(
                expected_subject,
                &user_info.standard_claims.sub,
            ) {
                Err(error) => Err(UserInfoError::ClaimsVerification(error)),
                Ok(_) => Ok(UserInfoClaims(user_info)),
            },
        }
    }

    /// Initializes user info claims from the provided raw JSON response, which `parse` parses.
    ///
    /// If an `expected_subject` is provided, this function verifies that the user info claims
    /// contain the expected subject and returns an error otherwise.
    pub fn from_json<RE, P>(
        user_info_json: &[u8],
        expected_subject: Option<&SubjectIdentifier>,
        parse: P,
    ) -> (claims: Result<Self, UserInfoError<RE>>) where
        P: FnOnce(&[u8]) -> Result<UserInfoClaimsImpl<AC, GC>, serde_json::Error>,

        requires
            call_requires(parse, (user_info_json,)),
        ensures
            exists|parsed: Result<UserInfoClaimsImpl<AC, GC>, serde_json::Error>| #[trigger]
                call_ensures(parse, (user_info_json,), parsed) && with_error_view(claims)
                    == Self::accepted::<RE>(parsed, expected_subject),
    {
        let parsed = parse(user_info_json);
        Self::from_parsed(parsed, expected_subject)
    }

    /// Returns the `sub` claim.
    pub fn subject(&self) -> (subject: &SubjectIdentifier)
        ensures
            *subject == self.0.standard_claims.sub,
    {
        &self.0.standard_claims.sub
    }

    /// Sets the `sub` claim.
    pub fn set_subject(&mut self, subject: SubjectIdentifier)
        ensures
            final(self).0 == (UserInfoClaimsImpl {
                standard_claims: StandardClaims { sub: subject, ..old(self).0.standard_claims },
                ..old(self).0
            }),
    {
        self.0.standard_claims.sub = subject;
    }

    /// Returns the standard claims as a `StandardClaims` object.
    pub fn standard_claims(&self) -> (claims: &StandardClaims<GC>)
        ensures
            *claims == self.0.standard_claims,
    {
        &self.0.standard_claims
    }

    /// Returns additional user info claims.
    pub fn additional_claims(&self) -> (claims: &AC)
        ensures
            *claims == self.0.additional_claims,
    {
        &self.0.additional_claims
    }

    /// Returns mutable additional user info claims.
    pub fn additional_claims_mut(&mut self) -> (claims: &mut AC)
        ensures
            *claims == old(self).0.additional_claims,
            final(self).0 == (UserInfoClaimsImpl {
                additional_claims: *final(claims),
                ..old(self).0
            }),
    {
        &mut self.0.additional_claims
    }

    /// Returns the `issuer` claim.
    pub fn issuer(&self) -> (claim: Option<&IssuerUrl>)
        ensures
            claim == borrowed(&self.0.issuer),
    {
        self.0.issuer.as_ref()
    }

    /// Sets the `issuer` claim.
    pub fn set_issuer(self, issuer: Option<IssuerUrl>) -> (claims: Self)
        ensures
            claims.0 == (UserInfoClaimsImpl { issuer, ..self.0 }),
    {
        let mut claims = self;
        claims.0.issuer = issuer;
        claims
    }

    /// Returns the `aud` claim.
    pub fn audiences(&self) -> (claim: Option<&Vec<Audience>>)
        ensures
            claim == borrowed(&self.0.audiences),
    {
        self.0.audiences.as_ref()
    }

    /// Sets the `aud` claim.
    pub fn set_audiences(self, audiences: Option<Vec<Audience>>) -> (claims: Self)
        ensures
            claims.0 == (UserInfoClaimsImpl { audiences, ..self.0 }),
    {
        let mut claims = self;
        claims.0.audiences = audiences;
        claims
    }

    /// Returns the `name` claim.
    pub fn name(&self) -> (claim: Option<&LocalizedClaim<EndUserName>>)
        ensures
            claim == borrowed(&self.0.standard_claims.name),
    {
        self.0.standard_claims.name.as_ref()
    }

    /// Sets the `name` claim.
    pub fn set_name(self, name: Option<LocalizedClaim<EndUserName>>) -> (claims: Self)
        ensures
            claims.0 == (UserInfoClaimsImpl {
                standard_claims: StandardClaims { name, ..self.0.standard_claims },
                ..self.0
            }),
    {
        let mut claims = self;
        claims.0.standard_claims.name = name;
        claims
    }

    /// Returns the `given_name` claim.
    pub fn given_name(&self) -> (claim: Option<&LocalizedClaim<EndUserGivenName>>)
        ensures
            claim == borrowed(&self.0.standard_claims.given_name),
    {
        self.0.standard_claims.given_name.as_ref()
    }

    /// Sets the `given_name` claim.
    pub fn set_given_name(self, given_name: Option<LocalizedClaim<EndUserGivenName>>) -> (claims: Self)
        ensures
            claims.0 == (UserInfoClaimsImpl {
                standard_claims: StandardClaims { given_name, ..self.0.standard_claims },
                ..self.0
            }),
    {
        let mut claims = self;
        claims.0.standard_claims.given_name = given_name;
        claims
    }

    /// Returns the `family_name` claim.
    pub fn family_name(&self) -> (claim: Option<&LocalizedClaim<EndUserFamilyName>>)
        ensures
            claim == borrowed(&self.0.standard_claims.family_name),
    {
        self.0.standard_claims.family_name.as_ref()
    }

    /// Sets the `family_name` claim.
    pub fn set_family_name(self, family_name: Option<LocalizedClaim<EndUserFamilyName>>) -> (claims: Self)
        ensures
            claims.0 == (UserInfoClaimsImpl {
                standard_claims: StandardClaims { family_name, ..self.0.standard_claims },
                ..self.0
            }),
    {
        let mut claims = self;
        claims.0.standard_claims.family_name = family_name;
        claims
    }

    /// Returns the `middle_name` claim.
    pub fn middle_name(&self) -> (claim: Option<&LocalizedClaim<EndUserMiddleName>>)
        ensures
            claim == borrowed(&self.0.standard_claims.middle_name),
    {
        self.0.standard_claims.middle_name.as_ref()
    }

    /// Sets the `middle_name` claim.
    pub fn set_middle_name(self, middle_name: Option<LocalizedClaim<EndUserMiddleName>>) -> (claims: Self)
        ensures
            claims.0 == (UserInfoClaimsImpl {
                standard_claims: StandardClaims { middle_name, ..self.0.standard_claims },
                ..self.0
            }),
    {
        let mut claims = self;
        claims.0.standard_claims.middle_name = middle_name;
        claims
    }

    /// Returns the `nickname` claim.
    pub fn nickname(&self) -> (claim: Option<&LocalizedClaim<EndUserNickname>>)
        ensures
            claim == borrowed(&self.0.standard_claims.nickname),
    {
        self.0.standard_claims.nickname.as_ref()
    }

    /// Sets the `nickname` claim.
    pub fn set_nickname(self, nickname: Option<LocalizedClaim<EndUserNickname>>) -> (claims: Self)
        ensures
            claims.0 == (UserInfoClaimsImpl {
                standard_claims: StandardClaims { nickname, ..self.0.standard_claims },
                ..self.0
            }),
    {
        let mut claims = self;
        claims.0.standard_claims.nickname = nickname;
        claims
    }

    /// Returns the `preferred_username` claim.
    pub fn preferred_username(&self) -> (claim: Option<&EndUserUsername>)
        ensures
            claim == borrowed(&self.0.standard_claims.preferred_username),
    {
        self.0.standard_claims.preferred_username.as_ref()
    }

    /// Sets the `preferred_username` claim.
    pub fn set_preferred_username(self, preferred_username: Option<EndUserUsername>) -> (claims: Self)
        ensures
            claims.0 == (UserInfoClaimsImpl {
                standard_claims: StandardClaims { preferred_username, ..self.0.standard_claims },
                ..self.0
            }),
    {
        let mut claims = self;
        claims.0.standard_claims.preferred_username = preferred_username;
        claims
    }

    /// Returns the `profile` claim.
    pub fn profile(&self) -> (claim: Option<&LocalizedClaim<EndUserProfileUrl>>)
        ensures
            claim == borrowed(&self.0.standard_claims.profile),
    {
        self.0.standard_claims.profile.as_ref()
    }

    /// Sets the `profile` claim.
    pub fn set_profile(self, profile: Option<LocalizedClaim<EndUserProfileUrl>>) -> (claims: Self)
        ensures
            claims.0 == (UserInfoClaimsImpl {
                standard_claims: StandardClaims { profile, ..self.0.standard_claims },
                ..self.0
            }),
    {
        let mut claims = self;
        claims.0.standard_claims.profile = profile;
        claims
    }

    /// Returns the `picture` claim.
    pub fn picture(&self) -> (claim: Option<&LocalizedClaim<EndUserPictureUrl>>)
        ensures
            claim == borrowed(&self.0.standard_claims.picture),
    {
        self.0.standard_claims.picture.as_ref()
    }

    /// Sets the `picture` claim.
    pub fn set_picture(self, picture: Option<LocalizedClaim<EndUserPictureUrl>>) -> (claims: Self)
        ensures
            claims.0 == (UserInfoClaimsImpl {
                standard_claims: StandardClaims { picture, ..self.0.standard_claims },
                ..self.0
            }),
    {
        let mut claims = self;
        claims.0.standard_claims.picture = picture;
        claims
    }

    /// Returns the `website` claim.
    pub fn website(&self) -> (claim: Option<&LocalizedClaim<EndUserWebsiteUrl>>)
        ensures
            claim == borrowed(&self.0.standard_claims.website),
    {
        self.0.standard_claims.website.as_ref()
    }

    /// Sets the `website` claim.
    pub fn set_website(self, website: Option<LocalizedClaim<EndUserWebsiteUrl>>) -> (claims: Self)
        ensures
            claims.0 == (UserInfoClaimsImpl {
                standard_claims: StandardClaims { website, ..self.0.standard_claims },
                ..self.0
            }),
    {
        let mut claims = self;
        claims.0.standard_claims.website = website;
        claims
    }

    /// Returns the `email` claim.
    pub fn email(&self) -> (claim: Option<&EndUserEmail>)
        ensures
            claim == borrowed(&self.0.standard_claims.email),
    {
        self.0.standard_claims.email.as_ref()
    }

    /// Sets the `email` claim.
    pub fn set_email(self, email: Option<EndUserEmail>) -> (claims: Self)
        ensures
            claims.0 == (UserInfoClaimsImpl {
                standard_claims: StandardClaims { email, ..self.0.standard_claims },
                ..self.0
            }),
    {
        let mut claims = self;
        claims.0.standard_claims.email = email;
        claims
    }

    /// Returns the `email_verified` claim.
    pub fn email_verified(&self) -> (claim: Option<bool>)
        ensures
            claim == self.0.standard_claims.email_verified,
    {
        self.0.standard_claims.email_verified
    }

    /// Sets the `email_verified` claim.
    pub fn set_email_verified(self, email_verified: Option<bool>) -> (claims: Self)
        ensures
            claims.0 == (UserInfoClaimsImpl {
                standard_claims: StandardClaims { email_verified, ..self.0.standard_claims },
                ..self.0
            }),
    {
        let mut claims = self;
        claims.0.standard_claims.email_verified = email_verified;
        claims
    }

    /// Returns the `gender` claim.
    pub fn gender(&self) -> (claim: Option<&GC>)
        ensures
            claim == borrowed(&self.0.standard_claims.gender),
    {
        self.0.standard_claims.gender.as_ref()
    }

    /// Sets the `gender` claim.
    pub fn set_gender(self, gender: Option<GC>) -> (claims: Self)
        ensures
            claims.0 == (UserInfoClaimsImpl {
                standard_claims: StandardClaims { gender, ..self.0.standard_claims },
                ..self.0
            }),
    {
        let mut claims = self;
        claims.0.standard_claims.gender = gender;
        claims
    }

    /// Returns the `birthday` claim.
    pub fn birthday(&self) -> (claim: Option<&EndUserBirthday>)
        ensures
            claim == borrowed(&self.0.standard_claims.birthday),
    {
        self.0.standard_claims.birthday.as_ref()
    }

    /// Sets the `birthday` claim.
    pub fn set_birthday(self, birthday: Option<EndUserBirthday>) -> (claims: Self)
        ensures
            claims.0 == (UserInfoClaimsImpl {
                standard_claims: StandardClaims { birthday, ..self.0.standard_claims },
                ..self.0
            }),
    {
        let mut claims = self;
        claims.0.standard_claims.birthday = birthday;
        claims
    }

    /// Returns the `zoneinfo` claim.
    pub fn zoneinfo(&self) -> (claim: Option<&EndUserTimezone>)
        ensures
            claim == borrowed(&self.0.standard_claims.zoneinfo),
    {
        self.0.standard_claims.zoneinfo.as_ref()
    }

    /// Sets the `zoneinfo` claim.
    pub fn set_zoneinfo(self, zoneinfo: Option<EndUserTimezone>) -> (claims: Self)
        ensures
            claims.0 == (UserInfoClaimsImpl {
                standard_claims: StandardClaims { zoneinfo, ..self.0.standard_claims },
                ..self.0
            }),
    {
        let mut claims = self;
        claims.0.standard_claims.zoneinfo = zoneinfo;
        claims
    }

    /// Returns the `locale` claim.
    pub fn locale(&self) -> (claim: Option<&LanguageTag>)
        ensures
            claim == borrowed(&self.0.standard_claims.locale),
    {
        self.0.standard_claims.locale.as_ref()
    }

    /// Sets the `locale` claim.
    pub fn set_locale(self, locale: Option<LanguageTag>) -> (claims: Self)
        ensures
            claims.0 == (UserInfoClaimsImpl {
                standard_claims: StandardClaims { locale, ..self.0.standard_claims },
                ..self.0
            }),
    {
        let mut claims = self;
        claims.0.standard_claims.locale = locale;
        claims
    }

    /// Returns the `phone_number` claim.
    pub fn phone_number(&self) -> (claim: Option<&EndUserPhoneNumber>)
        ensures
            claim == borrowed(&self.0.standard_claims.phone_number),
    {
        self.0.standard_claims.phone_number.as_ref()
    }

    /// Sets the `phone_number` claim.
    pub fn set_phone_number(self, phone_number: Option<EndUserPhoneNumber>) -> (claims: Self)
        ensures
            claims.0 == (UserInfoClaimsImpl {
                standard_claims: StandardClaims { phone_number, ..self.0.standard_claims },
                ..self.0
            }),
    {
        let mut claims = self;
        claims.0.standard_claims.phone_number = phone_number;
        claims
    }

    /// Returns the `phone_number_verified` claim.
    pub fn phone_number_verified(&self) -> (claim: Option<bool>)
        ensures
            claim == self.0.standard_claims.phone_number_verified,
    {
        self.0.standard_claims.phone_number_verified
    }

    /// Sets the `phone_number_verified` claim.
    pub fn set_phone_number_verified(self, phone_number_verified: Option<bool>) -> (claims: Self)
        ensures
            claims.0 == (UserInfoClaimsImpl {
                standard_claims: StandardClaims { phone_number_verified, ..self.0.standard_claims },
                ..self.0
            }),
    {
        let mut claims = self;
        claims.0.standard_claims.phone_number_verified = phone_number_verified;
        claims
    }

    /// Returns the `address` claim.
    pub fn address(&self) -> (claim: Option<&AddressClaim>)
        ensures
            claim == borrowed(&self.0.standard_claims.address),
    {
        self.0.standard_claims.address.as_ref()
    }

    /// Sets the `address` claim.
    pub fn set_address(self, address: Option<AddressClaim>) -> (claims: Self)
        ensures
            claims.0 == (UserInfoClaimsImpl {
                standard_claims: StandardClaims { address, ..self.0.standard_claims },
                ..self.0
            }),
    {
        let mut claims = self;
        claims.0.standard_claims.address = address;
        claims
    }

    /// Returns the `updated_at` claim.
    pub fn updated_at(&self) -> (claim: Option<Timestamp>)
        ensures
            claim == self.0.standard_claims.updated_at,
    {
        self.0.standard_claims.updated_at
    }

    /// Sets the `updated_at` claim.
    pub fn set_updated_at(self, updated_at: Option<Timestamp>) -> (claims: Self)
        ensures
            claims.0 == (UserInfoClaimsImpl {
                standard_claims: StandardClaims { updated_at, ..self.0.standard_claims },
                ..self.0
            }),
    {
        let mut claims = self;
        claims.0.standard_claims.updated_at = updated_at;
        claims
    }
}

} // verus!
