//! The values that claims are made of.
use vstd::prelude::*;

verus! {

/// Audience claim value.
#[derive(Clone, Debug, PartialEq, Eq)]
pub struct Audience(pub String);

/// Locally unique and never reassigned identifier of the end user at the issuer.
#[derive(Clone, Debug, PartialEq, Eq)]
pub struct SubjectIdentifier(pub String);

/// Identifier of this client at the provider.
#[derive(Clone, Debug, PartialEq, Eq)]
pub struct ClientId(pub String);

/// Language tag of a localized claim.
#[derive(Clone, Debug, PartialEq, Eq)]
pub struct LanguageTag(pub String);

/// Birthday of the end user.
#[derive(Clone, Debug, PartialEq, Eq)]
pub struct EndUserBirthday(pub String);

/// E-mail address of the end user.
#[derive(Clone, Debug, PartialEq, Eq)]
pub struct EndUserEmail(pub String);

/// Family name of the end user.
#[derive(Clone, Debug, PartialEq, Eq)]
pub struct EndUserFamilyName(pub String);

/// Given name of the end user.
#[derive(Clone, Debug, PartialEq, Eq)]
pub struct EndUserGivenName(pub String);

/// Middle name of the end user.
#[derive(Clone, Debug, PartialEq, Eq)]
pub struct EndUserMiddleName(pub String);

/// Full name of the end user.
#[derive(Clone, Debug, PartialEq, Eq)]
pub struct EndUserName(pub String);

/// Casual name of the end user.
#[derive(Clone, Debug, PartialEq, Eq)]
pub struct EndUserNickname(pub String);

/// Telephone number of the end user.
#[derive(Clone, Debug, PartialEq, Eq)]
pub struct EndUserPhoneNumber(pub String);

/// URL of the end user's picture.
#[derive(Clone, Debug, PartialEq, Eq)]
pub struct EndUserPictureUrl(pub String);

/// URL of the end user's profile page.
#[derive(Clone, Debug, PartialEq, Eq)]
pub struct EndUserProfileUrl(pub String);

/// Time zone of the end user.
#[derive(Clone, Debug, PartialEq, Eq)]
pub struct EndUserTimezone(pub String);

/// Name by which the end user wishes to be referred to.
#[derive(Clone, Debug, PartialEq, Eq)]
pub struct EndUserUsername(pub String);

/// URL of the end user's website.
#[derive(Clone, Debug, PartialEq, Eq)]
pub struct EndUserWebsiteUrl(pub String);

/// Country of an address.
#[derive(Clone, Debug, PartialEq, Eq)]
pub struct AddressCountry(pub String);

/// City or locality of an address.
#[derive(Clone, Debug, PartialEq, Eq)]
pub struct AddressLocality(pub String);

/// Postal code of an address.
#[derive(Clone, Debug, PartialEq, Eq)]
pub struct AddressPostalCode(pub String);

/// State or region of an address.
#[derive(Clone, Debug, PartialEq, Eq)]
pub struct AddressRegion(pub String);

/// Full mailing address, ready for display.
#[derive(Clone, Debug, PartialEq, Eq)]
pub struct FormattedAddress(pub String);

/// Street of an address.
#[derive(Clone, Debug, PartialEq, Eq)]
pub struct StreetAddress(pub String);

/// A claim that may be given in several languages.
#[derive(Clone, Debug, PartialEq, Eq)]
pub struct LocalizedClaim<T> {
    /// The value without a language tag.
    pub untagged: Option<T>,
    /// The values with a language tag.
    pub tagged: Vec<(LanguageTag, T)>,
}

/// Address of the end user.
#[derive(Clone, Debug, PartialEq, Eq)]
pub struct AddressClaim {
    pub formatted: Option<FormattedAddress>,
    pub street_address: Option<StreetAddress>,
    pub locality: Option<AddressLocality>,
    pub region: Option<AddressRegion>,
    pub postal_code: Option<AddressPostalCode>,
    pub country: Option<AddressCountry>,
}

/// An instant in UTC.
#[derive(Clone, Copy, Debug, PartialEq, Eq)]
pub struct Timestamp {
    /// Seconds since the beginning of 1970.
    pub seconds: i64,
    /// Nanoseconds within the second.
    pub nanoseconds: u32,
}

/// Claims beyond the standard ones, defined by the application.
pub trait AdditionalClaims {

}

/// Gender of the end user, in a form that the application chooses.
pub trait GenderClaim {

}

} // verus!
