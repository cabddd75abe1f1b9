//! What building and reading claims, requests, verifiers and URLs gives, and how one relates to the
//! other.
use crate::claims::{StandardClaims, UserInfoClaims, UserInfoClaimsImpl};
use crate::errors::NoUserInfoEndpoint;
use crate::request::UserInfoRequest;
use crate::types::{
    AdditionalClaims, AddressClaim, Audience, ClientId, EndUserBirthday, EndUserEmail,
    EndUserFamilyName, EndUserGivenName, EndUserMiddleName, EndUserName, EndUserNickname,
    EndUserPhoneNumber, EndUserPictureUrl, EndUserProfileUrl, EndUserTimezone, EndUserUsername,
    EndUserWebsiteUrl, GenderClaim, LanguageTag, LocalizedClaim, SubjectIdentifier, Timestamp,
};
use crate::urls::{parsed_url, InvalidUrl, IssuerUrl, UserInfoUrl};
use crate::verification::UserInfoVerifier;
use vstd::prelude::*;

verus! {

/// New claims are the given ones, without an issuer and without audiences, and are read back as
/// they were given.
pub proof fn law_new_claims<AC: AdditionalClaims, GC: GenderClaim>(
    standard_claims: StandardClaims<GC>,
    additional_claims: AC,
    claims: UserInfoClaims<AC, GC>,
    subject: &SubjectIdentifier,
    standard: &StandardClaims<GC>,
    additional: &AC,
    issuer: Option<&IssuerUrl>,
    audiences: Option<&Vec<Audience>>,
)
    requires
        call_ensures(
            UserInfoClaims::<AC, GC>::new,
            (standard_claims, additional_claims),
            claims,
        ),
        call_ensures(UserInfoClaims::<AC, GC>::subject, (&claims,), subject),
        call_ensures(UserInfoClaims::<AC, GC>::standard_claims, (&claims,), standard),
        call_ensures(UserInfoClaims::<AC, GC>::additional_claims, (&claims,), additional),
        call_ensures(UserInfoClaims::<AC, GC>::issuer, (&claims,), issuer),
        call_ensures(UserInfoClaims::<AC, GC>::audiences, (&claims,), audiences),
    ensures
        *subject == standard_claims.sub,
        *standard == standard_claims,
        *additional == additional_claims,
        issuer is None,
        audiences is None,
{
}

/// The `issuer` claim that is set is the one that is read, and no other claim changes.
pub proof fn law_issuer_is_set_and_read<AC: AdditionalClaims, GC: GenderClaim>(
    claims: UserInfoClaims<AC, GC>,
    before: Option<&IssuerUrl>,
    issuer: Option<IssuerUrl>,
    changed: UserInfoClaims<AC, GC>,
    read: Option<&IssuerUrl>,
)
    requires
        call_ensures(UserInfoClaims::<AC, GC>::issuer, (&claims,), before),
        call_ensures(UserInfoClaims::<AC, GC>::set_issuer, (claims, issuer), changed),
        call_ensures(UserInfoClaims::<AC, GC>::issuer, (&changed,), read),
    ensures
        before is Some <==> claims.0.issuer is Some,
        before matches Some(value) ==> claims.0.issuer == Some(*value),
        read is Some <==> issuer is Some,
        read matches Some(value) ==> issuer == Some(*value),
        changed.0.audiences == claims.0.audiences,
        changed.0.standard_claims == claims.0.standard_claims,
        changed.0.additional_claims == claims.0.additional_claims,
{
}

/// The `audiences` claim that is set is the one that is read, and no other claim changes.
pub proof fn law_audiences_is_set_and_read<AC: AdditionalClaims, GC: GenderClaim>(
    claims: UserInfoClaims<AC, GC>,
    before: Option<&Vec<Audience>>,
    audiences: Option<Vec<Audience>>,
    changed: UserInfoClaims<AC, GC>,
    read: Option<&Vec<Audience>>,
)
    requires
        call_ensures(UserInfoClaims::<AC, GC>::audiences, (&claims,), before),
        call_ensures(UserInfoClaims::<AC, GC>::set_audiences, (claims, audiences), changed),
        call_ensures(UserInfoClaims::<AC, GC>::audiences, (&changed,), read),
    ensures
        before is Some <==> claims.0.audiences is Some,
        before matches Some(value) ==> claims.0.audiences == Some(*value),
        read is Some <==> audiences is Some,
        read matches Some(value) ==> audiences == Some(*value),
        changed.0.issuer == claims.0.issuer,
        changed.0.standard_claims == claims.0.standard_claims,
        changed.0.additional_claims == claims.0.additional_claims,
{
}

/// The `name` claim that is set is the one that is read, and no other claim changes.
pub proof fn law_name_is_set_and_read<AC: AdditionalClaims, GC: GenderClaim>(
    claims: UserInfoClaims<AC, GC>,
    before: Option<&LocalizedClaim<EndUserName>>,
    name: Option<LocalizedClaim<EndUserName>>,
    changed: UserInfoClaims<AC, GC>,
    read: Option<&LocalizedClaim<EndUserName>>,
)
    requires
        call_ensures(UserInfoClaims::<AC, GC>::name, (&claims,), before),
        call_ensures(UserInfoClaims::<AC, GC>::set_name, (claims, name), changed),
        call_ensures(UserInfoClaims::<AC, GC>::name, (&changed,), read),
    ensures
        before is Some <==> claims.0.standard_claims.name is Some,
        before matches Some(value) ==> claims.0.standard_claims.name == Some(*value),
        read is Some <==> name is Some,
        read matches Some(value) ==> name == Some(*value),
        changed.0.issuer == claims.0.issuer,
        changed.0.audiences == claims.0.audiences,
        changed.0.additional_claims == claims.0.additional_claims,
        changed.0.standard_claims.sub == claims.0.standard_claims.sub,
        changed.0.standard_claims.given_name == claims.0.standard_claims.given_name,
        changed.0.standard_claims.family_name == claims.0.standard_claims.family_name,
        changed.0.standard_claims.middle_name == claims.0.standard_claims.middle_name,
        changed.0.standard_claims.nickname == claims.0.standard_claims.nickname,
        changed.0.standard_claims.preferred_username == claims.0.standard_claims.preferred_username,
        changed.0.standard_claims.profile == claims.0.standard_claims.profile,
        changed.0.standard_claims.picture == claims.0.standard_claims.picture,
        changed.0.standard_claims.website == claims.0.standard_claims.website,
        changed.0.standard_claims.email == claims.0.standard_claims.email,
        changed.0.standard_claims.email_verified == claims.0.standard_claims.email_verified,
        changed.0.standard_claims.gender == claims.0.standard_claims.gender,
        changed.0.standard_claims.birthday == claims.0.standard_claims.birthday,
        changed.0.standard_claims.zoneinfo == claims.0.standard_claims.zoneinfo,
        changed.0.standard_claims.locale == claims.0.standard_claims.locale,
        changed.0.standard_claims.phone_number == claims.0.standard_claims.phone_number,
        changed.0.standard_claims.phone_number_verified == claims.0.standard_claims.phone_number_verified,
        changed.0.standard_claims.address == claims.0.standard_claims.address,
        changed.0.standard_claims.updated_at == claims.0.standard_claims.updated_at,
{
}

/// The `given_name` claim that is set is the one that is read, and no other claim changes.
pub proof fn law_given_name_is_set_and_read<AC: AdditionalClaims, GC: GenderClaim>(
    claims: UserInfoClaims<AC, GC>,
    before: Option<&LocalizedClaim<EndUserGivenName>>,
    given_name: Option<LocalizedClaim<EndUserGivenName>>,
    changed: UserInfoClaims<AC, GC>,
    read: Option<&LocalizedClaim<EndUserGivenName>>,
)
    requires
        call_ensures(UserInfoClaims::<AC, GC>::given_name, (&claims,), before),
        call_ensures(UserInfoClaims::<AC, GC>::set_given_name, (claims, given_name), changed),
        call_ensures(UserInfoClaims::<AC, GC>::given_name, (&changed,), read),
    ensures
        before is Some <==> claims.0.standard_claims.given_name is Some,
        before matches Some(value) ==> claims.0.standard_claims.given_name == Some(*value),
        read is Some <==> given_name is Some,
        read matches Some(value) ==> given_name == Some(*value),
        changed.0.issuer == claims.0.issuer,
        changed.0.audiences == claims.0.audiences,
        changed.0.additional_claims == claims.0.additional_claims,
        changed.0.standard_claims.sub == claims.0.standard_claims.sub,
        changed.0.standard_claims.name == claims.0.standard_claims.name,
        changed.0.standard_claims.family_name == claims.0.standard_claims.family_name,
        changed.0.standard_claims.middle_name == claims.0.standard_claims.middle_name,
        changed.0.standard_claims.nickname == claims.0.standard_claims.nickname,
        changed.0.standard_claims.preferred_username == claims.0.standard_claims.preferred_username,
        changed.0.standard_claims.profile == claims.0.standard_claims.profile,
        changed.0.standard_claims.picture == claims.0.standard_claims.picture,
        changed.0.standard_claims.website == claims.0.standard_claims.website,
        changed.0.standard_claims.email == claims.0.standard_claims.email,
        changed.0.standard_claims.email_verified == claims.0.standard_claims.email_verified,
        changed.0.standard_claims.gender == claims.0.standard_claims.gender,
        changed.0.standard_claims.birthday == claims.0.standard_claims.birthday,
        changed.0.standard_claims.zoneinfo == claims.0.standard_claims.zoneinfo,
        changed.0.standard_claims.locale == claims.0.standard_claims.locale,
        changed.0.standard_claims.phone_number == claims.0.standard_claims.phone_number,
        changed.0.standard_claims.phone_number_verified == claims.0.standard_claims.phone_number_verified,
        changed.0.standard_claims.address == claims.0.standard_claims.address,
        changed.0.standard_claims.updated_at == claims.0.standard_claims.updated_at,
{
}

/// The `family_name` claim that is set is the one that is read, and no other claim changes.
pub proof fn law_family_name_is_set_and_read<AC: AdditionalClaims, GC: GenderClaim>(
    claims: UserInfoClaims<AC, GC>,
    before: Option<&LocalizedClaim<EndUserFamilyName>>,
    family_name: Option<LocalizedClaim<EndUserFamilyName>>,
    changed: UserInfoClaims<AC, GC>,
    read: Option<&LocalizedClaim<EndUserFamilyName>>,
)
    requires
        call_ensures(UserInfoClaims::<AC, GC>::family_name, (&claims,), before),
        call_ensures(UserInfoClaims::<AC, GC>::set_family_name, (claims, family_name), changed),
        call_ensures(UserInfoClaims::<AC, GC>::family_name, (&changed,), read),
    ensures
        before is Some <==> claims.0.standard_claims.family_name is Some,
        before matches Some(value) ==> claims.0.standard_claims.family_name == Some(*value),
        read is Some <==> family_name is Some,
        read matches Some(value) ==> family_name == Some(*value),
        changed.0.issuer == claims.0.issuer,
        changed.0.audiences == claims.0.audiences,
        changed.0.additional_claims == claims.0.additional_claims,
        changed.0.standard_claims.sub == claims.0.standard_claims.sub,
        changed.0.standard_claims.name == claims.0.standard_claims.name,
        changed.0.standard_claims.given_name == claims.0.standard_claims.given_name,
        changed.0.standard_claims.middle_name == claims.0.standard_claims.middle_name,
        changed.0.standard_claims.nickname == claims.0.standard_claims.nickname,
        changed.0.standard_claims.preferred_username == claims.0.standard_claims.preferred_username,
        changed.0.standard_claims.profile == claims.0.standard_claims.profile,
        changed.0.standard_claims.picture == claims.0.standard_claims.picture,
        changed.0.standard_claims.website == claims.0.standard_claims.website,
        changed.0.standard_claims.email == claims.0.standard_claims.email,
        changed.0.standard_claims.email_verified == claims.0.standard_claims.email_verified,
        changed.0.standard_claims.gender == claims.0.standard_claims.gender,
        changed.0.standard_claims.birthday == claims.0.standard_claims.birthday,
        changed.0.standard_claims.zoneinfo == claims.0.standard_claims.zoneinfo,
        changed.0.standard_claims.locale == claims.0.standard_claims.locale,
        changed.0.standard_claims.phone_number == claims.0.standard_claims.phone_number,
        changed.0.standard_claims.phone_number_verified == claims.0.standard_claims.phone_number_verified,
        changed.0.standard_claims.address == claims.0.standard_claims.address,
        changed.0.standard_claims.updated_at == claims.0.standard_claims.updated_at,
{
}

/// The `middle_name` claim that is set is the one that is read, and no other claim changes.
pub proof fn law_middle_name_is_set_and_read<AC: AdditionalClaims, GC: GenderClaim>(
    claims: UserInfoClaims<AC, GC>,
    before: Option<&LocalizedClaim<EndUserMiddleName>>,
    middle_name: Option<LocalizedClaim<EndUserMiddleName>>,
    changed: UserInfoClaims<AC, GC>,
    read: Option<&LocalizedClaim<EndUserMiddleName>>,
)
    requires
        call_ensures(UserInfoClaims::<AC, GC>::middle_name, (&claims,), before),
        call_ensures(UserInfoClaims::<AC, GC>::set_middle_name, (claims, middle_name), changed),
        call_ensures(UserInfoClaims::<AC, GC>::middle_name, (&changed,), read),
    ensures
        before is Some <==> claims.0.standard_claims.middle_name is Some,
        before matches Some(value) ==> claims.0.standard_claims.middle_name == Some(*value),
        read is Some <==> middle_name is Some,
        read matches Some(value) ==> middle_name == Some(*value),
        changed.0.issuer == claims.0.issuer,
        changed.0.audiences == claims.0.audiences,
        changed.0.additional_claims == claims.0.additional_claims,
        changed.0.standard_claims.sub == claims.0.standard_claims.sub,
        changed.0.standard_claims.name == claims.0.standard_claims.name,
        changed.0.standard_claims.given_name == claims.0.standard_claims.given_name,
        changed.0.standard_claims.family_name == claims.0.standard_claims.family_name,
        changed.0.standard_claims.nickname == claims.0.standard_claims.nickname,
        changed.0.standard_claims.preferred_username == claims.0.standard_claims.preferred_username,
        changed.0.standard_claims.profile == claims.0.standard_claims.profile,
        changed.0.standard_claims.picture == claims.0.standard_claims.picture,
        changed.0.standard_claims.website == claims.0.standard_claims.website,
        changed.0.standard_claims.email == claims.0.standard_claims.email,
        changed.0.standard_claims.email_verified == claims.0.standard_claims.email_verified,
        changed.0.standard_claims.gender == claims.0.standard_claims.gender,
        changed.0.standard_claims.birthday == claims.0.standard_claims.birthday,
        changed.0.standard_claims.zoneinfo == claims.0.standard_claims.zoneinfo,
        changed.0.standard_claims.locale == claims.0.standard_claims.locale,
        changed.0.standard_claims.phone_number == claims.0.standard_claims.phone_number,
        changed.0.standard_claims.phone_number_verified == claims.0.standard_claims.phone_number_verified,
        changed.0.standard_claims.address == claims.0.standard_claims.address,
        changed.0.standard_claims.updated_at == claims.0.standard_claims.updated_at,
{
}

/// The `nickname` claim that is set is the one that is read, and no other claim changes.
pub proof fn law_nickname_is_set_and_read<AC: AdditionalClaims, GC: GenderClaim>(
    claims: UserInfoClaims<AC, GC>,
    before: Option<&LocalizedClaim<EndUserNickname>>,
    nickname: Option<LocalizedClaim<EndUserNickname>>,
    changed: UserInfoClaims<AC, GC>,
    read: Option<&LocalizedClaim<EndUserNickname>>,
)
    requires
        call_ensures(UserInfoClaims::<AC, GC>::nickname, (&claims,), before),
        call_ensures(UserInfoClaims::<AC, GC>::set_nickname, (claims, nickname), changed),
        call_ensures(UserInfoClaims::<AC, GC>::nickname, (&changed,), read),
    ensures
        before is Some <==> claims.0.standard_claims.nickname is Some,
        before matches Some(value) ==> claims.0.standard_claims.nickname == Some(*value),
        read is Some <==> nickname is Some,
        read matches Some(value) ==> nickname == Some(*value),
        changed.0.issuer == claims.0.issuer,
        changed.0.audiences == claims.0.audiences,
        changed.0.additional_claims == claims.0.additional_claims,
        changed.0.standard_claims.sub == claims.0.standard_claims.sub,
        changed.0.standard_claims.name == claims.0.standard_claims.name,
        changed.0.standard_claims.given_name == claims.0.standard_claims.given_name,
        changed.0.standard_claims.family_name == claims.0.standard_claims.family_name,
        changed.0.standard_claims.middle_name == claims.0.standard_claims.middle_name,
        changed.0.standard_claims.preferred_username == claims.0.standard_claims.preferred_username,
        changed.0.standard_claims.profile == claims.0.standard_claims.profile,
        changed.0.standard_claims.picture == claims.0.standard_claims.picture,
        changed.0.standard_claims.website == claims.0.standard_claims.website,
        changed.0.standard_claims.email == claims.0.standard_claims.email,
        changed.0.standard_claims.email_verified == claims.0.standard_claims.email_verified,
        changed.0.standard_claims.gender == claims.0.standard_claims.gender,
        changed.0.standard_claims.birthday == claims.0.standard_claims.birthday,
        changed.0.standard_claims.zoneinfo == claims.0.standard_claims.zoneinfo,
        changed.0.standard_claims.locale == claims.0.standard_claims.locale,
        changed.0.standard_claims.phone_number == claims.0.standard_claims.phone_number,
        changed.0.standard_claims.phone_number_verified == claims.0.standard_claims.phone_number_verified,
        changed.0.standard_claims.address == claims.0.standard_claims.address,
        changed.0.standard_claims.updated_at == claims.0.standard_claims.updated_at,
{
}

/// The `preferred_username` claim that is set is the one that is read, and no other claim changes.
pub proof fn law_preferred_username_is_set_and_read<AC: AdditionalClaims, GC: GenderClaim>(
    claims: UserInfoClaims<AC, GC>,
    before: Option<&EndUserUsername>,
    preferred_username: Option<EndUserUsername>,
    changed: UserInfoClaims<AC, GC>,
    read: Option<&EndUserUsername>,
)
    requires
        call_ensures(UserInfoClaims::<AC, GC>::preferred_username, (&claims,), before),
        call_ensures(UserInfoClaims::<AC, GC>::set_preferred_username, (claims, preferred_username), changed),
        call_ensures(UserInfoClaims::<AC, GC>::preferred_username, (&changed,), read),
    ensures
        before is Some <==> claims.0.standard_claims.preferred_username is Some,
        before matches Some(value) ==> claims.0.standard_claims.preferred_username == Some(*value),
        read is Some <==> preferred_username is Some,
        read matches Some(value) ==> preferred_username == Some(*value),
        changed.0.issuer == claims.0.issuer,
        changed.0.audiences == claims.0.audiences,
        changed.0.additional_claims == claims.0.additional_claims,
        changed.0.standard_claims.sub == claims.0.standard_claims.sub,
        changed.0.standard_claims.name == claims.0.standard_claims.name,
        changed.0.standard_claims.given_name == claims.0.standard_claims.given_name,
        changed.0.standard_claims.family_name == claims.0.standard_claims.family_name,
        changed.0.standard_claims.middle_name == claims.0.standard_claims.middle_name,
        changed.0.standard_claims.nickname == claims.0.standard_claims.nickname,
        changed.0.standard_claims.profile == claims.0.standard_claims.profile,
        changed.0.standard_claims.picture == claims.0.standard_claims.picture,
        changed.0.standard_claims.website == claims.0.standard_claims.website,
        changed.0.standard_claims.email == claims.0.standard_claims.email,
        changed.0.standard_claims.email_verified == claims.0.standard_claims.email_verified,
        changed.0.standard_claims.gender == claims.0.standard_claims.gender,
        changed.0.standard_claims.birthday == claims.0.standard_claims.birthday,
        changed.0.standard_claims.zoneinfo == claims.0.standard_claims.zoneinfo,
        changed.0.standard_claims.locale == claims.0.standard_claims.locale,
        changed.0.standard_claims.phone_number == claims.0.standard_claims.phone_number,
        changed.0.standard_claims.phone_number_verified == claims.0.standard_claims.phone_number_verified,
        changed.0.standard_claims.address == claims.0.standard_claims.address,
        changed.0.standard_claims.updated_at == claims.0.standard_claims.updated_at,
{
}

/// The `profile` claim that is set is the one that is read, and no other claim changes.
pub proof fn law_profile_is_set_and_read<AC: AdditionalClaims, GC: GenderClaim>(
    claims: UserInfoClaims<AC, GC>,
    before: Option<&LocalizedClaim<EndUserProfileUrl>>,
    profile: Option<LocalizedClaim<EndUserProfileUrl>>,
    changed: UserInfoClaims<AC, GC>,
    read: Option<&LocalizedClaim<EndUserProfileUrl>>,
)
    requires
        call_ensures(UserInfoClaims::<AC, GC>::profile, (&claims,), before),
        call_ensures(UserInfoClaims::<AC, GC>::set_profile, (claims, profile), changed),
        call_ensures(UserInfoClaims::<AC, GC>::profile, (&changed,), read),
    ensures
        before is Some <==> claims.0.standard_claims.profile is Some,
        before matches Some(value) ==> claims.0.standard_claims.profile == Some(*value),
        read is Some <==> profile is Some,
        read matches Some(value) ==> profile == Some(*value),
        changed.0.issuer == claims.0.issuer,
        changed.0.audiences == claims.0.audiences,
        changed.0.additional_claims == claims.0.additional_claims,
        changed.0.standard_claims.sub == claims.0.standard_claims.sub,
        changed.0.standard_claims.name == claims.0.standard_claims.name,
        changed.0.standard_claims.given_name == claims.0.standard_claims.given_name,
        changed.0.standard_claims.family_name == claims.0.standard_claims.family_name,
        changed.0.standard_claims.middle_name == claims.0.standard_claims.middle_name,
        changed.0.standard_claims.nickname == claims.0.standard_claims.nickname,
        changed.0.standard_claims.preferred_username == claims.0.standard_claims.preferred_username,
        changed.0.standard_claims.picture == claims.0.standard_claims.picture,
        changed.0.standard_claims.website == claims.0.standard_claims.website,
        changed.0.standard_claims.email == claims.0.standard_claims.email,
        changed.0.standard_claims.email_verified == claims.0.standard_claims.email_verified,
        changed.0.standard_claims.gender == claims.0.standard_claims.gender,
        changed.0.standard_claims.birthday == claims.0.standard_claims.birthday,
        changed.0.standard_claims.zoneinfo == claims.0.standard_claims.zoneinfo,
        changed.0.standard_claims.locale == claims.0.standard_claims.locale,
        changed.0.standard_claims.phone_number == claims.0.standard_claims.phone_number,
        changed.0.standard_claims.phone_number_verified == claims.0.standard_claims.phone_number_verified,
        changed.0.standard_claims.address == claims.0.standard_claims.address,
        changed.0.standard_claims.updated_at == claims.0.standard_claims.updated_at,
{
}

/// The `picture` claim that is set is the one that is read, and no other claim changes.
pub proof fn law_picture_is_set_and_read<AC: AdditionalClaims, GC: GenderClaim>(
    claims: UserInfoClaims<AC, GC>,
    before: Option<&LocalizedClaim<EndUserPictureUrl>>,
    picture: Option<LocalizedClaim<EndUserPictureUrl>>,
    changed: UserInfoClaims<AC, GC>,
    read: Option<&LocalizedClaim<EndUserPictureUrl>>,
)
    requires
        call_ensures(UserInfoClaims::<AC, GC>::picture, (&claims,), before),
        call_ensures(UserInfoClaims::<AC, GC>::set_picture, (claims, picture), changed),
        call_ensures(UserInfoClaims::<AC, GC>::picture, (&changed,), read),
    ensures
        before is Some <==> claims.0.standard_claims.picture is Some,
        before matches Some(value) ==> claims.0.standard_claims.picture == Some(*value),
        read is Some <==> picture is Some,
        read matches Some(value) ==> picture == Some(*value),
        changed.0.issuer == claims.0.issuer,
        changed.0.audiences == claims.0.audiences,
        changed.0.additional_claims == claims.0.additional_claims,
        changed.0.standard_claims.sub == claims.0.standard_claims.sub,
        changed.0.standard_claims.name == claims.0.standard_claims.name,
        changed.0.standard_claims.given_name == claims.0.standard_claims.given_name,
        changed.0.standard_claims.family_name == claims.0.standard_claims.family_name,
        changed.0.standard_claims.middle_name == claims.0.standard_claims.middle_name,
        changed.0.standard_claims.nickname == claims.0.standard_claims.nickname,
        changed.0.standard_claims.preferred_username == claims.0.standard_claims.preferred_username,
        changed.0.standard_claims.profile == claims.0.standard_claims.profile,
        changed.0.standard_claims.website == claims.0.standard_claims.website,
        changed.0.standard_claims.email == claims.0.standard_claims.email,
        changed.0.standard_claims.email_verified == claims.0.standard_claims.email_verified,
        changed.0.standard_claims.gender == claims.0.standard_claims.gender,
        changed.0.standard_claims.birthday == claims.0.standard_claims.birthday,
        changed.0.standard_claims.zoneinfo == claims.0.standard_claims.zoneinfo,
        changed.0.standard_claims.locale == claims.0.standard_claims.locale,
        changed.0.standard_claims.phone_number == claims.0.standard_claims.phone_number,
        changed.0.standard_claims.phone_number_verified == claims.0.standard_claims.phone_number_verified,
        changed.0.standard_claims.address == claims.0.standard_claims.address,
        changed.0.standard_claims.updated_at == claims.0.standard_claims.updated_at,
{
}

/// The `website` claim that is set is the one that is read, and no other claim changes.
pub proof fn law_website_is_set_and_read<AC: AdditionalClaims, GC: GenderClaim>(
    claims: UserInfoClaims<AC, GC>,
    before: Option<&LocalizedClaim<EndUserWebsiteUrl>>,
    website: Option<LocalizedClaim<EndUserWebsiteUrl>>,
    changed: UserInfoClaims<AC, GC>,
    read: Option<&LocalizedClaim<EndUserWebsiteUrl>>,
)
    requires
        call_ensures(UserInfoClaims::<AC, GC>::website, (&claims,), before),
        call_ensures(UserInfoClaims::<AC, GC>::set_website, (claims, website), changed),
        call_ensures(UserInfoClaims::<AC, GC>::website, (&changed,), read),
    ensures
        before is Some <==> claims.0.standard_claims.website is Some,
        before matches Some(value) ==> claims.0.standard_claims.website == Some(*value),
        read is Some <==> website is Some,
        read matches Some(value) ==> website == Some(*value),
        changed.0.issuer == claims.0.issuer,
        changed.0.audiences == claims.0.audiences,
        changed.0.additional_claims == claims.0.additional_claims,
        changed.0.standard_claims.sub == claims.0.standard_claims.sub,
        changed.0.standard_claims.name == claims.0.standard_claims.name,
        changed.0.standard_claims.given_name == claims.0.standard_claims.given_name,
        changed.0.standard_claims.family_name == claims.0.standard_claims.family_name,
        changed.0.standard_claims.middle_name == claims.0.standard_claims.middle_name,
        changed.0.standard_claims.nickname == claims.0.standard_claims.nickname,
        changed.0.standard_claims.preferred_username == claims.0.standard_claims.preferred_username,
        changed.0.standard_claims.profile == claims.0.standard_claims.profile,
        changed.0.standard_claims.picture == claims.0.standard_claims.picture,
        changed.0.standard_claims.email == claims.0.standard_claims.email,
        changed.0.standard_claims.email_verified == claims.0.standard_claims.email_verified,
        changed.0.standard_claims.gender == claims.0.standard_claims.gender,
        changed.0.standard_claims.birthday == claims.0.standard_claims.birthday,
        changed.0.standard_claims.zoneinfo == claims.0.standard_claims.zoneinfo,
        changed.0.standard_claims.locale == claims.0.standard_claims.locale,
        changed.0.standard_claims.phone_number == claims.0.standard_claims.phone_number,
        changed.0.standard_claims.phone_number_verified == claims.0.standard_claims.phone_number_verified,
        changed.0.standard_claims.address == claims.0.standard_claims.address,
        changed.0.standard_claims.updated_at == claims.0.standard_claims.updated_at,
{
}

/// The `email` claim that is set is the one that is read, and no other claim changes.
pub proof fn law_email_is_set_and_read<AC: AdditionalClaims, GC: GenderClaim>(
    claims: UserInfoClaims<AC, GC>,
    before: Option<&EndUserEmail>,
    email: Option<EndUserEmail>,
    changed: UserInfoClaims<AC, GC>,
    read: Option<&EndUserEmail>,
)
    requires
        call_ensures(UserInfoClaims::<AC, GC>::email, (&claims,), before),
        call_ensures(UserInfoClaims::<AC, GC>::set_email, (claims, email), changed),
        call_ensures(UserInfoClaims::<AC, GC>::email, (&changed,), read),
    ensures
        before is Some <==> claims.0.standard_claims.email is Some,
        before matches Some(value) ==> claims.0.standard_claims.email == Some(*value),
        read is Some <==> email is Some,
        read matches Some(value) ==> email == Some(*value),
        changed.0.issuer == claims.0.issuer,
        changed.0.audiences == claims.0.audiences,
        changed.0.additional_claims == claims.0.additional_claims,
        changed.0.standard_claims.sub == claims.0.standard_claims.sub,
        changed.0.standard_claims.name == claims.0.standard_claims.name,
        changed.0.standard_claims.given_name == claims.0.standard_claims.given_name,
        changed.0.standard_claims.family_name == claims.0.standard_claims.family_name,
        changed.0.standard_claims.middle_name == claims.0.standard_claims.middle_name,
        changed.0.standard_claims.nickname == claims.0.standard_claims.nickname,
        changed.0.standard_claims.preferred_username == claims.0.standard_claims.preferred_username,
        changed.0.standard_claims.profile == claims.0.standard_claims.profile,
        changed.0.standard_claims.picture == claims.0.standard_claims.picture,
        changed.0.standard_claims.website == claims.0.standard_claims.website,
        changed.0.standard_claims.email_verified == claims.0.standard_claims.email_verified,
        changed.0.standard_claims.gender == claims.0.standard_claims.gender,
        changed.0.standard_claims.birthday == claims.0.standard_claims.birthday,
        changed.0.standard_claims.zoneinfo == claims.0.standard_claims.zoneinfo,
        changed.0.standard_claims.locale == claims.0.standard_claims.locale,
        changed.0.standard_claims.phone_number == claims.0.standard_claims.phone_number,
        changed.0.standard_claims.phone_number_verified == claims.0.standard_claims.phone_number_verified,
        changed.0.standard_claims.address == claims.0.standard_claims.address,
        changed.0.standard_claims.updated_at == claims.0.standard_claims.updated_at,
{
}

/// The `email_verified` claim that is set is the one that is read, and no other claim changes.
pub proof fn law_email_verified_is_set_and_read<AC: AdditionalClaims, GC: GenderClaim>(
    claims: UserInfoClaims<AC, GC>,
    before: Option<bool>,
    email_verified: Option<bool>,
    changed: UserInfoClaims<AC, GC>,
    read: Option<bool>,
)
    requires
        call_ensures(UserInfoClaims::<AC, GC>::email_verified, (&claims,), before),
        call_ensures(UserInfoClaims::<AC, GC>::set_email_verified, (claims, email_verified), changed),
        call_ensures(UserInfoClaims::<AC, GC>::email_verified, (&changed,), read),
    ensures
        before == claims.0.standard_claims.email_verified,
        read == email_verified,
        changed.0.issuer == claims.0.issuer,
        changed.0.audiences == claims.0.audiences,
        changed.0.additional_claims == claims.0.additional_claims,
        changed.0.standard_claims.sub == claims.0.standard_claims.sub,
        changed.0.standard_claims.name == claims.0.standard_claims.name,
        changed.0.standard_claims.given_name == claims.0.standard_claims.given_name,
        changed.0.standard_claims.family_name == claims.0.standard_claims.family_name,
        changed.0.standard_claims.middle_name == claims.0.standard_claims.middle_name,
        changed.0.standard_claims.nickname == claims.0.standard_claims.nickname,
        changed.0.standard_claims.preferred_username == claims.0.standard_claims.preferred_username,
        changed.0.standard_claims.profile == claims.0.standard_claims.profile,
        changed.0.standard_claims.picture == claims.0.standard_claims.picture,
        changed.0.standard_claims.website == claims.0.standard_claims.website,
        changed.0.standard_claims.email == claims.0.standard_claims.email,
        changed.0.standard_claims.gender == claims.0.standard_claims.gender,
        changed.0.standard_claims.birthday == claims.0.standard_claims.birthday,
        changed.0.standard_claims.zoneinfo == claims.0.standard_claims.zoneinfo,
        changed.0.standard_claims.locale == claims.0.standard_claims.locale,
        changed.0.standard_claims.phone_number == claims.0.standard_claims.phone_number,
        changed.0.standard_claims.phone_number_verified == claims.0.standard_claims.phone_number_verified,
        changed.0.standard_claims.address == claims.0.standard_claims.address,
        changed.0.standard_claims.updated_at == claims.0.standard_claims.updated_at,
{
}

/// The `gender` claim that is set is the one that is read, and no other claim changes.
pub proof fn law_gender_is_set_and_read<AC: AdditionalClaims, GC: GenderClaim>(
    claims: UserInfoClaims<AC, GC>,
    before: Option<&GC>,
    gender: Option<GC>,
    changed: UserInfoClaims<AC, GC>,
    read: Option<&GC>,
)
    requires
        call_ensures(UserInfoClaims::<AC, GC>::gender, (&claims,), before),
        call_ensures(UserInfoClaims::<AC, GC>::set_gender, (claims, gender), changed),
        call_ensures(UserInfoClaims::<AC, GC>::gender, (&changed,), read),
    ensures
        before is Some <==> claims.0.standard_claims.gender is Some,
        before matches Some(value) ==> claims.0.standard_claims.gender == Some(*value),
        read is Some <==> gender is Some,
        read matches Some(value) ==> gender == Some(*value),
        changed.0.issuer == claims.0.issuer,
        changed.0.audiences == claims.0.audiences,
        changed.0.additional_claims == claims.0.additional_claims,
        changed.0.standard_claims.sub == claims.0.standard_claims.sub,
        changed.0.standard_claims.name == claims.0.standard_claims.name,
        changed.0.standard_claims.given_name == claims.0.standard_claims.given_name,
        changed.0.standard_claims.family_name == claims.0.standard_claims.family_name,
        changed.0.standard_claims.middle_name == claims.0.standard_claims.middle_name,
        changed.0.standard_claims.nickname == claims.0.standard_claims.nickname,
        changed.0.standard_claims.preferred_username == claims.0.standard_claims.preferred_username,
        changed.0.standard_claims.profile == claims.0.standard_claims.profile,
        changed.0.standard_claims.picture == claims.0.standard_claims.picture,
        changed.0.standard_claims.website == claims.0.standard_claims.website,
        changed.0.standard_claims.email == claims.0.standard_claims.email,
        changed.0.standard_claims.email_verified == claims.0.standard_claims.email_verified,
        changed.0.standard_claims.birthday == claims.0.standard_claims.birthday,
        changed.0.standard_claims.zoneinfo == claims.0.standard_claims.zoneinfo,
        changed.0.standard_claims.locale == claims.0.standard_claims.locale,
        changed.0.standard_claims.phone_number == claims.0.standard_claims.phone_number,
        changed.0.standard_claims.phone_number_verified == claims.0.standard_claims.phone_number_verified,
        changed.0.standard_claims.address == claims.0.standard_claims.address,
        changed.0.standard_claims.updated_at == claims.0.standard_claims.updated_at,
{
}

/// The `birthday` claim that is set is the one that is read, and no other claim changes.
pub proof fn law_birthday_is_set_and_read<AC: AdditionalClaims, GC: GenderClaim>(
    claims: UserInfoClaims<AC, GC>,
    before: Option<&EndUserBirthday>,
    birthday: Option<EndUserBirthday>,
    changed: UserInfoClaims<AC, GC>,
    read: Option<&EndUserBirthday>,
)
    requires
        call_ensures(UserInfoClaims::<AC, GC>::birthday, (&claims,), before),
        call_ensures(UserInfoClaims::<AC, GC>::set_birthday, (claims, birthday), changed),
        call_ensures(UserInfoClaims::<AC, GC>::birthday, (&changed,), read),
    ensures
        before is Some <==> claims.0.standard_claims.birthday is Some,
        before matches Some(value) ==> claims.0.standard_claims.birthday == Some(*value),
        read is Some <==> birthday is Some,
        read matches Some(value) ==> birthday == Some(*value),
        changed.0.issuer == claims.0.issuer,
        changed.0.audiences == claims.0.audiences,
        changed.0.additional_claims == claims.0.additional_claims,
        changed.0.standard_claims.sub == claims.0.standard_claims.sub,
        changed.0.standard_claims.name == claims.0.standard_claims.name,
        changed.0.standard_claims.given_name == claims.0.standard_claims.given_name,
        changed.0.standard_claims.family_name == claims.0.standard_claims.family_name,
        changed.0.standard_claims.middle_name == claims.0.standard_claims.middle_name,
        changed.0.standard_claims.nickname == claims.0.standard_claims.nickname,
        changed.0.standard_claims.preferred_username == claims.0.standard_claims.preferred_username,
        changed.0.standard_claims.profile == claims.0.standard_claims.profile,
        changed.0.standard_claims.picture == claims.0.standard_claims.picture,
        changed.0.standard_claims.website == claims.0.standard_claims.website,
        changed.0.standard_claims.email == claims.0.standard_claims.email,
        changed.0.standard_claims.email_verified == claims.0.standard_claims.email_verified,
        changed.0.standard_claims.gender == claims.0.standard_claims.gender,
        changed.0.standard_claims.zoneinfo == claims.0.standard_claims.zoneinfo,
        changed.0.standard_claims.locale == claims.0.standard_claims.locale,
        changed.0.standard_claims.phone_number == claims.0.standard_claims.phone_number,
        changed.0.standard_claims.phone_number_verified == claims.0.standard_claims.phone_number_verified,
        changed.0.standard_claims.address == claims.0.standard_claims.address,
        changed.0.standard_claims.updated_at == claims.0.standard_claims.updated_at,
{
}

/// The `zoneinfo` claim that is set is the one that is read, and no other claim changes.
pub proof fn law_zoneinfo_is_set_and_read<AC: AdditionalClaims, GC: GenderClaim>(
    claims: UserInfoClaims<AC, GC>,
    before: Option<&EndUserTimezone>,
    zoneinfo: Option<EndUserTimezone>,
    changed: UserInfoClaims<AC, GC>,
    read: Option<&EndUserTimezone>,
)
    requires
        call_ensures(UserInfoClaims::<AC, GC>::zoneinfo, (&claims,), before),
        call_ensures(UserInfoClaims::<AC, GC>::set_zoneinfo, (claims, zoneinfo), changed),
        call_ensures(UserInfoClaims::<AC, GC>::zoneinfo, (&changed,), read),
    ensures
        before is Some <==> claims.0.standard_claims.zoneinfo is Some,
        before matches Some(value) ==> claims.0.standard_claims.zoneinfo == Some(*value),
        read is Some <==> zoneinfo is Some,
        read matches Some(value) ==> zoneinfo == Some(*value),
        changed.0.issuer == claims.0.issuer,
        changed.0.audiences == claims.0.audiences,
        changed.0.additional_claims == claims.0.additional_claims,
        changed.0.standard_claims.sub == claims.0.standard_claims.sub,
        changed.0.standard_claims.name == claims.0.standard_claims.name,
        changed.0.standard_claims.given_name == claims.0.standard_claims.given_name,
        changed.0.standard_claims.family_name == claims.0.standard_claims.family_name,
        changed.0.standard_claims.middle_name == claims.0.standard_claims.middle_name,
        changed.0.standard_claims.nickname == claims.0.standard_claims.nickname,
        changed.0.standard_claims.preferred_username == claims.0.standard_claims.preferred_username,
        changed.0.standard_claims.profile == claims.0.standard_claims.profile,
        changed.0.standard_claims.picture == claims.0.standard_claims.picture,
        changed.0.standard_claims.website == claims.0.standard_claims.website,
        changed.0.standard_claims.email == claims.0.standard_claims.email,
        changed.0.standard_claims.email_verified == claims.0.standard_claims.email_verified,
        changed.0.standard_claims.gender == claims.0.standard_claims.gender,
        changed.0.standard_claims.birthday == claims.0.standard_claims.birthday,
        changed.0.standard_claims.locale == claims.0.standard_claims.locale,
        changed.0.standard_claims.phone_number == claims.0.standard_claims.phone_number,
        changed.0.standard_claims.phone_number_verified == claims.0.standard_claims.phone_number_verified,
        changed.0.standard_claims.address == claims.0.standard_claims.address,
        changed.0.standard_claims.updated_at == claims.0.standard_claims.updated_at,
{
}

/// The `locale` claim that is set is the one that is read, and no other claim changes.
pub proof fn law_locale_is_set_and_read<AC: AdditionalClaims, GC: GenderClaim>(
    claims: UserInfoClaims<AC, GC>,
    before: Option<&LanguageTag>,
    locale: Option<LanguageTag>,
    changed: UserInfoClaims<AC, GC>,
    read: Option<&LanguageTag>,
)
    requires
        call_ensures(UserInfoClaims::<AC, GC>::locale, (&claims,), before),
        call_ensures(UserInfoClaims::<AC, GC>::set_locale, (claims, locale), changed),
        call_ensures(UserInfoClaims::<AC, GC>::locale, (&changed,), read),
    ensures
        before is Some <==> claims.0.standard_claims.locale is Some,
        before matches Some(value) ==> claims.0.standard_claims.locale == Some(*value),
        read is Some <==> locale is Some,
        read matches Some(value) ==> locale == Some(*value),
        changed.0.issuer == claims.0.issuer,
        changed.0.audiences == claims.0.audiences,
        changed.0.additional_claims == claims.0.additional_claims,
        changed.0.standard_claims.sub == claims.0.standard_claims.sub,
        changed.0.standard_claims.name == claims.0.standard_claims.name,
        changed.0.standard_claims.given_name == claims.0.standard_claims.given_name,
        changed.0.standard_claims.family_name == claims.0.standard_claims.family_name,
        changed.0.standard_claims.middle_name == claims.0.standard_claims.middle_name,
        changed.0.standard_claims.nickname == claims.0.standard_claims.nickname,
        changed.0.standard_claims.preferred_username == claims.0.standard_claims.preferred_username,
        changed.0.standard_claims.profile == claims.0.standard_claims.profile,
        changed.0.standard_claims.picture == claims.0.standard_claims.picture,
        changed.0.standard_claims.website == claims.0.standard_claims.website,
        changed.0.standard_claims.email == claims.0.standard_claims.email,
        changed.0.standard_claims.email_verified == claims.0.standard_claims.email_verified,
        changed.0.standard_claims.gender == claims.0.standard_claims.gender,
        changed.0.standard_claims.birthday == claims.0.standard_claims.birthday,
        changed.0.standard_claims.zoneinfo == claims.0.standard_claims.zoneinfo,
        changed.0.standard_claims.phone_number == claims.0.standard_claims.phone_number,
        changed.0.standard_claims.phone_number_verified == claims.0.standard_claims.phone_number_verified,
        changed.0.standard_claims.address == claims.0.standard_claims.address,
        changed.0.standard_claims.updated_at == claims.0.standard_claims.updated_at,
{
}

/// The `phone_number` claim that is set is the one that is read, and no other claim changes.
pub proof fn law_phone_number_is_set_and_read<AC: AdditionalClaims, GC: GenderClaim>(
    claims: UserInfoClaims<AC, GC>,
    before: Option<&EndUserPhoneNumber>,
    phone_number: Option<EndUserPhoneNumber>,
    changed: UserInfoClaims<AC, GC>,
    read: Option<&EndUserPhoneNumber>,
)
    requires
        call_ensures(UserInfoClaims::<AC, GC>::phone_number, (&claims,), before),
        call_ensures(UserInfoClaims::<AC, GC>::set_phone_number, (claims, phone_number), changed),
        call_ensures(UserInfoClaims::<AC, GC>::phone_number, (&changed,), read),
    ensures
        before is Some <==> claims.0.standard_claims.phone_number is Some,
        before matches Some(value) ==> claims.0.standard_claims.phone_number == Some(*value),
        read is Some <==> phone_number is Some,
        read matches Some(value) ==> phone_number == Some(*value),
        changed.0.issuer == claims.0.issuer,
        changed.0.audiences == claims.0.audiences,
        changed.0.additional_claims == claims.0.additional_claims,
        changed.0.standard_claims.sub == claims.0.standard_claims.sub,
        changed.0.standard_claims.name == claims.0.standard_claims.name,
        changed.0.standard_claims.given_name == claims.0.standard_claims.given_name,
        changed.0.standard_claims.family_name == claims.0.standard_claims.family_name,
        changed.0.standard_claims.middle_name == claims.0.standard_claims.middle_name,
        changed.0.standard_claims.nickname == claims.0.standard_claims.nickname,
        changed.0.standard_claims.preferred_username == claims.0.standard_claims.preferred_username,
        changed.0.standard_claims.profile == claims.0.standard_claims.profile,
        changed.0.standard_claims.picture == claims.0.standard_claims.picture,
        changed.0.standard_claims.website == claims.0.standard_claims.website,
        changed.0.standard_claims.email == claims.0.standard_claims.email,
        changed.0.standard_claims.email_verified == claims.0.standard_claims.email_verified,
        changed.0.standard_claims.gender == claims.0.standard_claims.gender,
        changed.0.standard_claims.birthday == claims.0.standard_claims.birthday,
        changed.0.standard_claims.zoneinfo == claims.0.standard_claims.zoneinfo,
        changed.0.standard_claims.locale == claims.0.standard_claims.locale,
        changed.0.standard_claims.phone_number_verified == claims.0.standard_claims.phone_number_verified,
        changed.0.standard_claims.address == claims.0.standard_claims.address,
        changed.0.standard_claims.updated_at == claims.0.standard_claims.updated_at,
{
}

/// The `phone_number_verified` claim that is set is the one that is read, and no other claim changes.
pub proof fn law_phone_number_verified_is_set_and_read<AC: AdditionalClaims, GC: GenderClaim>(
    claims: UserInfoClaims<AC, GC>,
    before: Option<bool>,
    phone_number_verified: Option<bool>,
    changed: UserInfoClaims<AC, GC>,
    read: Option<bool>,
)
    requires
        call_ensures(UserInfoClaims::<AC, GC>::phone_number_verified, (&claims,), before),
        call_ensures(UserInfoClaims::<AC, GC>::set_phone_number_verified, (claims, phone_number_verified), changed),
        call_ensures(UserInfoClaims::<AC, GC>::phone_number_verified, (&changed,), read),
    ensures
        before == claims.0.standard_claims.phone_number_verified,
        read == phone_number_verified,
        changed.0.issuer == claims.0.issuer,
        changed.0.audiences == claims.0.audiences,
        changed.0.additional_claims == claims.0.additional_claims,
        changed.0.standard_claims.sub == claims.0.standard_claims.sub,
        changed.0.standard_claims.name == claims.0.standard_claims.name,
        changed.0.standard_claims.given_name == claims.0.standard_claims.given_name,
        changed.0.standard_claims.family_name == claims.0.standard_claims.family_name,
        changed.0.standard_claims.middle_name == claims.0.standard_claims.middle_name,
        changed.0.standard_claims.nickname == claims.0.standard_claims.nickname,
        changed.0.standard_claims.preferred_username == claims.0.standard_claims.preferred_username,
        changed.0.standard_claims.profile == claims.0.standard_claims.profile,
        changed.0.standard_claims.picture == claims.0.standard_claims.picture,
        changed.0.standard_claims.website == claims.0.standard_claims.website,
        changed.0.standard_claims.email == claims.0.standard_claims.email,
        changed.0.standard_claims.email_verified == claims.0.standard_claims.email_verified,
        changed.0.standard_claims.gender == claims.0.standard_claims.gender,
        changed.0.standard_claims.birthday == claims.0.standard_claims.birthday,
        changed.0.standard_claims.zoneinfo == claims.0.standard_claims.zoneinfo,
        changed.0.standard_claims.locale == claims.0.standard_claims.locale,
        changed.0.standard_claims.phone_number == claims.0.standard_claims.phone_number,
        changed.0.standard_claims.address == claims.0.standard_claims.address,
        changed.0.standard_claims.updated_at == claims.0.standard_claims.updated_at,
{
}

/// The `address` claim that is set is the one that is read, and no other claim changes.
pub proof fn law_address_is_set_and_read<AC: AdditionalClaims, GC: GenderClaim>(
    claims: UserInfoClaims<AC, GC>,
    before: Option<&AddressClaim>,
    address: Option<AddressClaim>,
    changed: UserInfoClaims<AC, GC>,
    read: Option<&AddressClaim>,
)
    requires
        call_ensures(UserInfoClaims::<AC, GC>::address, (&claims,), before),
        call_ensures(UserInfoClaims::<AC, GC>::set_address, (claims, address), changed),
        call_ensures(UserInfoClaims::<AC, GC>::address, (&changed,), read),
    ensures
        before is Some <==> claims.0.standard_claims.address is Some,
        before matches Some(value) ==> claims.0.standard_claims.address == Some(*value),
        read is Some <==> address is Some,
        read matches Some(value) ==> address == Some(*value),
        changed.0.issuer == claims.0.issuer,
        changed.0.audiences == claims.0.audiences,
        changed.0.additional_claims == claims.0.additional_claims,
        changed.0.standard_claims.sub == claims.0.standard_claims.sub,
        changed.0.standard_claims.name == claims.0.standard_claims.name,
        changed.0.standard_claims.given_name == claims.0.standard_claims.given_name,
        changed.0.standard_claims.family_name == claims.0.standard_claims.family_name,
        changed.0.standard_claims.middle_name == claims.0.standard_claims.middle_name,
        changed.0.standard_claims.nickname == claims.0.standard_claims.nickname,
        changed.0.standard_claims.preferred_username == claims.0.standard_claims.preferred_username,
        changed.0.standard_claims.profile == claims.0.standard_claims.profile,
        changed.0.standard_claims.picture == claims.0.standard_claims.picture,
        changed.0.standard_claims.website == claims.0.standard_claims.website,
        changed.0.standard_claims.email == claims.0.standard_claims.email,
        changed.0.standard_claims.email_verified == claims.0.standard_claims.email_verified,
        changed.0.standard_claims.gender == claims.0.standard_claims.gender,
        changed.0.standard_claims.birthday == claims.0.standard_claims.birthday,
        changed.0.standard_claims.zoneinfo == claims.0.standard_claims.zoneinfo,
        changed.0.standard_claims.locale == claims.0.standard_claims.locale,
        changed.0.standard_claims.phone_number == claims.0.standard_claims.phone_number,
        changed.0.standard_claims.phone_number_verified == claims.0.standard_claims.phone_number_verified,
        changed.0.standard_claims.updated_at == claims.0.standard_claims.updated_at,
{
}

/// The `updated_at` claim that is set is the one that is read, and no other claim changes.
pub proof fn law_updated_at_is_set_and_read<AC: AdditionalClaims, GC: GenderClaim>(
    claims: UserInfoClaims<AC, GC>,
    before: Option<Timestamp>,
    updated_at: Option<Timestamp>,
    changed: UserInfoClaims<AC, GC>,
    read: Option<Timestamp>,
)
    requires
        call_ensures(UserInfoClaims::<AC, GC>::updated_at, (&claims,), before),
        call_ensures(UserInfoClaims::<AC, GC>::set_updated_at, (claims, updated_at), changed),
        call_ensures(UserInfoClaims::<AC, GC>::updated_at, (&changed,), read),
    ensures
        before == claims.0.standard_claims.updated_at,
        read == updated_at,
        changed.0.issuer == claims.0.issuer,
        changed.0.audiences == claims.0.audiences,
        changed.0.additional_claims == claims.0.additional_claims,
        changed.0.standard_claims.sub == claims.0.standard_claims.sub,
        changed.0.standard_claims.name == claims.0.standard_claims.name,
        changed.0.standard_claims.given_name == claims.0.standard_claims.given_name,
        changed.0.standard_claims.family_name == claims.0.standard_claims.family_name,
        changed.0.standard_claims.middle_name == claims.0.standard_claims.middle_name,
        changed.0.standard_claims.nickname == claims.0.standard_claims.nickname,
        changed.0.standard_claims.preferred_username == claims.0.standard_claims.preferred_username,
        changed.0.standard_claims.profile == claims.0.standard_claims.profile,
        changed.0.standard_claims.picture == claims.0.standard_claims.picture,
        changed.0.standard_claims.website == claims.0.standard_claims.website,
        changed.0.standard_claims.email == claims.0.standard_claims.email,
        changed.0.standard_claims.email_verified == claims.0.standard_claims.email_verified,
        changed.0.standard_claims.gender == claims.0.standard_claims.gender,
        changed.0.standard_claims.birthday == claims.0.standard_claims.birthday,
        changed.0.standard_claims.zoneinfo == claims.0.standard_claims.zoneinfo,
        changed.0.standard_claims.locale == claims.0.standard_claims.locale,
        changed.0.standard_claims.phone_number == claims.0.standard_claims.phone_number,
        changed.0.standard_claims.phone_number_verified == claims.0.standard_claims.phone_number_verified,
        changed.0.standard_claims.address == claims.0.standard_claims.address,
{
}

/// Each option of a request sets what it names, to what it is given, and nothing else; the last
/// call counts.
pub proof fn law_request_options<K>(
    request: UserInfoRequest<K>,
    signed: bool,
    issuer: bool,
    audience: bool,
    with_signed: UserInfoRequest<K>,
    with_issuer: UserInfoRequest<K>,
    with_audience: UserInfoRequest<K>,
)
    requires
        call_ensures(
            UserInfoRequest::<K>::require_signed_response,
            (request, signed),
            with_signed,
        ),
        call_ensures(
            UserInfoRequest::<K>::require_issuer_match,
            (with_signed, issuer),
            with_issuer,
        ),
        call_ensures(
            UserInfoRequest::<K>::require_audience_match,
            (with_issuer, audience),
            with_audience,
        ),
    ensures
        with_audience.url == request.url,
        with_audience.access_token == request.access_token,
        with_audience.require_signed_response == signed,
        with_audience.signed_response_verifier.iss_required == issuer,
        with_audience.signed_response_verifier.aud_match_required == audience,
        with_signed.signed_response_verifier == request.signed_response_verifier,
        with_issuer.signed_response_verifier.aud_match_required
            == request.signed_response_verifier.aud_match_required,
        with_audience.signed_response_verifier.client_id
            == request.signed_response_verifier.client_id,
        with_audience.signed_response_verifier.issuer == request.signed_response_verifier.issuer,
        with_audience.signed_response_verifier.signature_keys
            == request.signed_response_verifier.signature_keys,
        with_audience.signed_response_verifier.expected_subject
            == request.signed_response_verifier.expected_subject,
{
}

/// A new verifier expects what it is given and requires the issuer and the audience to match. Each
/// option sets what it names and nothing else.
pub proof fn law_verifier_options<K>(
    client_id: ClientId,
    issuer: IssuerUrl,
    signature_keys: K,
    expected_subject: Option<SubjectIdentifier>,
    verifier: UserInfoVerifier<K>,
    iss_required: bool,
    aud_required: bool,
    with_issuer: UserInfoVerifier<K>,
    with_audience: UserInfoVerifier<K>,
)
    requires
        call_ensures(
            UserInfoVerifier::<K>::new,
            (client_id, issuer, signature_keys, expected_subject),
            verifier,
        ),
        call_ensures(
            UserInfoVerifier::<K>::require_issuer_match,
            (verifier, iss_required),
            with_issuer,
        ),
        call_ensures(
            UserInfoVerifier::<K>::require_audience_match,
            (with_issuer, aud_required),
            with_audience,
        ),
    ensures
        verifier.client_id == client_id,
        verifier.issuer == issuer,
        verifier.signature_keys == signature_keys,
        verifier.expected_subject == expected_subject,
        verifier.iss_required && verifier.aud_match_required,
        with_issuer.iss_required == iss_required,
        with_issuer.aud_match_required,
        with_audience.iss_required == iss_required,
        with_audience.aud_match_required == aud_required,
        with_audience.client_id == client_id,
        with_audience.issuer == issuer,
        with_audience.signature_keys == signature_keys,
        with_audience.expected_subject == expected_subject,
{
}

/// A text makes a [`UserInfoUrl`] exactly when it parses as a URL. The text is read back as it was given,
/// the URL as the serialization of what the text parses to. A text that does not parse is refused
/// with the reason.
pub proof fn law_user_info_url(
    given: String,
    made: Result<UserInfoUrl, InvalidUrl>,
    url: &String,
    text: &str,
)
    requires
        call_ensures(UserInfoUrl::new, (given,), made),
        made is Ok ==> call_ensures(UserInfoUrl::url, (&made->Ok_0,), url),
        made is Ok ==> call_ensures(UserInfoUrl::as_str, (&made->Ok_0,), text),
    ensures
        made is Ok <==> parsed_url(given@) is Ok,
        made is Ok ==> text@ == given@ && parsed_url(given@) == Ok::<Seq<char>, Seq<char>>(url@),
        made matches Err(error) ==> parsed_url(given@) == Err::<Seq<char>, Seq<char>>(
            error.message@,
        ),
{
}

/// A text makes a [`IssuerUrl`] exactly when it parses as a URL. The text is read back as it was given,
/// the URL as the serialization of what the text parses to. A text that does not parse is refused
/// with the reason.
pub proof fn law_issuer_url(
    given: String,
    made: Result<IssuerUrl, InvalidUrl>,
    url: &String,
    text: &str,
)
    requires
        call_ensures(IssuerUrl::new, (given,), made),
        made is Ok ==> call_ensures(IssuerUrl::url, (&made->Ok_0,), url),
        made is Ok ==> call_ensures(IssuerUrl::as_str, (&made->Ok_0,), text),
    ensures
        made is Ok <==> parsed_url(given@) is Ok,
        made is Ok ==> text@ == given@ && parsed_url(given@) == Ok::<Seq<char>, Seq<char>>(url@),
        made matches Err(error) ==> parsed_url(given@) == Err::<Seq<char>, Seq<char>>(
            error.message@,
        ),
{
}

/// The subject that is set is the one that the claims then have, and no other claim changes.
pub proof fn law_subject_is_set<AC: AdditionalClaims, GC: GenderClaim>(
    claims: &mut UserInfoClaims<AC, GC>,
    subject: SubjectIdentifier,
)
    requires
        call_ensures(UserInfoClaims::<AC, GC>::set_subject, (claims, subject), ()),
    ensures
        final(claims).0.standard_claims.sub == subject,
        final(claims).0.issuer == old(claims).0.issuer,
        final(claims).0.audiences == old(claims).0.audiences,
        final(claims).0.additional_claims == old(claims).0.additional_claims,
        final(claims).0.standard_claims.name == old(claims).0.standard_claims.name,
        final(claims).0.standard_claims.given_name == old(claims).0.standard_claims.given_name,
        final(claims).0.standard_claims.family_name == old(claims).0.standard_claims.family_name,
        final(claims).0.standard_claims.middle_name == old(claims).0.standard_claims.middle_name,
        final(claims).0.standard_claims.nickname == old(claims).0.standard_claims.nickname,
        final(claims).0.standard_claims.preferred_username == old(claims).0.standard_claims.preferred_username,
        final(claims).0.standard_claims.profile == old(claims).0.standard_claims.profile,
        final(claims).0.standard_claims.picture == old(claims).0.standard_claims.picture,
        final(claims).0.standard_claims.website == old(claims).0.standard_claims.website,
        final(claims).0.standard_claims.email == old(claims).0.standard_claims.email,
        final(claims).0.standard_claims.email_verified == old(claims).0.standard_claims.email_verified,
        final(claims).0.standard_claims.gender == old(claims).0.standard_claims.gender,
        final(claims).0.standard_claims.birthday == old(claims).0.standard_claims.birthday,
        final(claims).0.standard_claims.zoneinfo == old(claims).0.standard_claims.zoneinfo,
        final(claims).0.standard_claims.locale == old(claims).0.standard_claims.locale,
        final(claims).0.standard_claims.phone_number == old(claims).0.standard_claims.phone_number,
        final(claims).0.standard_claims.phone_number_verified == old(claims).0.standard_claims.phone_number_verified,
        final(claims).0.standard_claims.address == old(claims).0.standard_claims.address,
        final(claims).0.standard_claims.updated_at == old(claims).0.standard_claims.updated_at,
{
}

/// What is written through the mutable reference to the additional claims is what the claims then
/// have, and no other claim changes.
pub proof fn law_additional_claims_are_changed<AC: AdditionalClaims, GC: GenderClaim>(
    claims: &mut UserInfoClaims<AC, GC>,
    additional: &mut AC,
)
    requires
        call_ensures(UserInfoClaims::<AC, GC>::additional_claims_mut, (claims,), additional),
    ensures
        *old(additional) == old(claims).0.additional_claims,
        final(claims).0.additional_claims == *final(additional),
        final(claims).0.issuer == old(claims).0.issuer,
        final(claims).0.audiences == old(claims).0.audiences,
        final(claims).0.standard_claims == old(claims).0.standard_claims,
{
}

/// The description of a missing endpoint.
pub proof fn law_no_endpoint_description(error: NoUserInfoEndpoint, text: String)
    requires
        call_ensures(NoUserInfoEndpoint::display, (&error,), text),
    ensures
        text@ == "No user info endpoint specified"@,
{
}

} // verus!
