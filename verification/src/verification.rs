//! Verification of user info claims.
use crate::claims::{AudiencesClaim, IssuerClaim, UserInfoClaimsImpl};
use crate::errors::{
    mismatch, mismatch_message, with_error_view, ClaimsVerificationError,
    ClaimsVerificationErrorView, SignatureVerificationError,
};
use crate::jwt::{may_verify, JsonWebKey, JsonWebToken};
use crate::text::{enclose, enclosed};
use crate::types::{AdditionalClaims, Audience, ClientId, GenderClaim, SubjectIdentifier};
use crate::urls::IssuerUrl;
use vstd::prelude::*;
use vstd::string::*;

verus! {

/// Whether claims about `found` are about the subject that is expected, if one is.
pub open spec fn is_expected_subject(
    expected: Option<&SubjectIdentifier>,
    found: SubjectIdentifier,
) -> bool {
    match expected {
        Some(subject) => subject.0@ == found.0@,
        None => true,
    }
}

/// Why claims about `found` are not accepted where `expected` is expected, if they are not.
pub open spec fn subject_error(
    expected: Option<&SubjectIdentifier>,
    found: SubjectIdentifier,
) -> Option<ClaimsVerificationErrorView> {
    if is_expected_subject(expected, found) {
        None
    } else {
        Some(
            ClaimsVerificationErrorView::InvalidSubject(
                mismatch_message(expected->Some_0.0@, found.0@),
            ),
        )
    }
}

/// Checks that claims about `found` are about the subject that is expected, if one is.
pub(crate) fn check_subject(
    expected: Option<&SubjectIdentifier>,
    found: &SubjectIdentifier,
) -> (checked: Result<(), ClaimsVerificationError>)
    ensures
        with_error_view(checked) == match subject_error(expected, *found) {
            Some(error) => Err(error),
            None => Ok(()),
        },
{
    match expected {
        Some(subject) => if subject.0 == found.0 {
            Ok(())
        } else {
            Err(
                ClaimsVerificationError::InvalidSubject(
                    mismatch(subject.0.as_str(), found.0.as_str()),
                ),
            )
        },
        None => Ok(()),
    }
}

/// Whether `client` is among the audiences.
pub open spec fn is_audience(audiences: Seq<Audience>, client: Seq<char>) -> bool {
    exists|i: int| 0 <= i < audiences.len() && (#[trigger] audiences[i]).0@ == client
}

/// The first audience other than `client`, if there is one.
pub open spec fn first_other_audience(audiences: Seq<Audience>, client: Seq<char>) -> Option<
    Seq<char>,
>
    decreases audiences.len(),
{
    if audiences.len() == 0 {
        None
    } else if audiences[0].0@ != client {
        Some(audiences[0].0@)
    } else {
        first_other_audience(audiences.drop_first(), client)
    }
}

/// The audiences in backticks, separated by commas.
pub open spec fn listed_audiences(audiences: Seq<Audience>) -> Seq<char>
    decreases audiences.len(),
{
    if audiences.len() == 0 {
        Seq::empty()
    } else {
        let before = listed_audiences(audiences.drop_last());
        let separator = if audiences.len() == 1 {
            ""@
        } else {
            ", "@
        };
        before + separator + enclosed("`"@, audiences.last().0@, "`"@)
    }
}

/// Lists the audiences.
fn list_audiences(audiences: &Vec<Audience>) -> (text: String)
    ensures
        text@ == listed_audiences(audiences@),
{
    let mut text = String::new();
    let mut i: usize = 0;
    while i < audiences.len()
        invariant
            i <= audiences.len(),
            text@ == listed_audiences(audiences@.take(i as int)),
        decreases audiences.len() - i,
    {
        let separator = if i == 0 {
            ""
        } else {
            ", "
        };
        text.append(separator);
        text.append(enclose("`", audiences[i].0.as_str(), "`").as_str());
        assert(audiences@.take(i + 1).drop_last() =~= audiences@.take(i as int));
        i += 1;
    }
    assert(audiences@.take(i as int) =~= audiences@);
    text
}

/// Looks for `client` among the audiences.
fn contains_audience(audiences: &Vec<Audience>, client: &String) -> (found: bool)
    ensures
        found == is_audience(audiences@, client@),
{
    let mut i: usize = 0;
    while i < audiences.len()
        invariant
            i <= audiences.len(),
            forall|k: int| 0 <= k < i ==> (#[trigger] audiences@[k]).0@ != client@,
        decreases audiences.len() - i,
    {
        if audiences[i].0 == *client {
            return true;
        }
        i += 1;
    }
    false
}

/// Looks for an audience other than `client`.
fn find_other_audience<'a>(audiences: &'a Vec<Audience>, client: &String) -> (found: Option<
    &'a Audience,
>)
    ensures
        match found {
            Some(audience) => first_other_audience(audiences@, client@) == Some(audience.0@),
            None => first_other_audience(audiences@, client@) is None,
        },
{
    let mut i: usize = 0;
    assert(audiences@.skip(0) =~= audiences@);
    while i < audiences.len()
        invariant
            i <= audiences.len(),
            first_other_audience(audiences@, client@) == first_other_audience(
                audiences@.skip(i as int),
                client@,
            ),
        decreases audiences.len() - i,
    {
        if !(audiences[i].0 == *client) {
            return Some(&audiences[i]);
        }
        assert(audiences@.skip(i as int).drop_first() =~= audiences@.skip(i + 1));
        i += 1;
    }
    None
}

/// Verifier of user info claims: what a client expects of them.
pub struct UserInfoVerifier<K> {
    /// This client, for which the claims of a signed response are meant.
    pub client_id: ClientId,
    /// The provider, which issues the claims of a signed response.
    pub issuer: IssuerUrl,
    /// The keys of the provider.
    pub signature_keys: K,
    /// The end user whom the claims are about, if known.
    pub expected_subject: Option<SubjectIdentifier>,
    /// Whether the issuer of a signed response has to match.
    pub iss_required: bool,
    /// Whether the audience of a signed response has to match.
    pub aud_match_required: bool,
}

impl<K> UserInfoVerifier<K> {
    /// Initializes a verifier that requires the issuer and the audience of a signed response to
    /// match.
    pub fn new(
        client_id: ClientId,
        issuer: IssuerUrl,
        signature_keys: K,
        expected_subject: Option<SubjectIdentifier>,
    ) -> (verifier: Self)
        ensures
            verifier == (UserInfoVerifier {
                client_id,
                issuer,
                signature_keys,
                expected_subject,
                iss_required: true,
                aud_match_required: true,
            }),
    {
        UserInfoVerifier {
            client_id,
            issuer,
            signature_keys,
            expected_subject,
            iss_required: true,
            aud_match_required: true,
        }
    }

    /// The end user whom the claims have to be about, if known.
    pub open spec fn subject(&self) -> Option<&SubjectIdentifier> {
        match &self.expected_subject {
            Some(subject) => Some(subject),
            None => None,
        }
    }

    /// Returns the end user whom the claims have to be about, if known.
    pub fn expected_subject(&self) -> (subject: Option<&SubjectIdentifier>)
        ensures
            subject == self.subject(),
    {
        self.expected_subject.as_ref()
    }

    /// Specifies whether to require the issuer of a signed response to match the expected issuer.
    pub fn require_issuer_match(self, iss_required: bool) -> (verifier: Self)
        ensures
            verifier == (UserInfoVerifier { iss_required, ..self }),
    {
        UserInfoVerifier { iss_required, ..self }
    }

    /// Specifies whether to require the audience of a signed response to match this client.
    pub fn require_audience_match(self, aud_required: bool) -> (verifier: Self)
        ensures
            verifier == (UserInfoVerifier { aud_match_required: aud_required, ..self }),
    {
        UserInfoVerifier { aud_match_required: aud_required, ..self }
    }

    /// Why claims with this issuer are not accepted, if they are not.
    pub open spec fn issuer_error(&self, issuer: Option<IssuerUrl>) -> Option<
        ClaimsVerificationErrorView,
    > {
        if !self.iss_required {
            None
        } else {
            match issuer {
                Some(found) => if found.text() == self.issuer.text() {
                    None
                } else {
                    Some(
                        ClaimsVerificationErrorView::InvalidIssuer(
                            mismatch_message(self.issuer.text(), found.text()),
                        ),
                    )
                },
                None => Some(
                    ClaimsVerificationErrorView::InvalidIssuer("missing issuer claim"@),
                ),
            }
        }
    }

    /// Why claims with these audiences are not accepted, if they are not. This client has to be
    /// an audience, and the only one.
    pub open spec fn audience_error(&self, audiences: Option<Vec<Audience>>) -> Option<
        ClaimsVerificationErrorView,
    > {
        if !self.aud_match_required {
            None
        } else {
            match audiences {
                Some(found) => if !is_audience(found@, self.client_id.0@) {
                    Some(
                        ClaimsVerificationErrorView::InvalidAudience(
                            enclosed(
                                "must contain `"@,
                                self.client_id.0@,
                                "` (found audiences: "@,
                            ) + listed_audiences(found@) + ")"@,
                        ),
                    )
                } else {
                    match first_other_audience(found@, self.client_id.0@) {
                        Some(other) => Some(
                            ClaimsVerificationErrorView::InvalidAudience(
                                enclosed("`"@, other, "` is not a trusted audience"@),
                            ),
                        ),
                        None => None,
                    }
                },
                None => Some(
                    ClaimsVerificationErrorView::InvalidAudience("missing audiences claim"@),
                ),
            }
        }
    }

    /// Checks the issuer of claims.
    pub fn check_issuer<C: IssuerClaim>(&self, claims: &C) -> (checked: Result<
        (),
        ClaimsVerificationError,
    >)
        ensures
            with_error_view(checked) == match self.issuer_error(claims.iss()) {
                Some(error) => Err(error),
                None => Ok(()),
            },
    {
        if !self.iss_required {
            return Ok(());
        }
        match claims.issuer() {
            Some(found) => if *found == self.issuer {
                Ok(())
            } else {
                Err(
                    ClaimsVerificationError::InvalidIssuer(
                        mismatch(self.issuer.as_str(), found.as_str()),
                    ),
                )
            },
            None => Err(
                ClaimsVerificationError::InvalidIssuer(String::from_str("missing issuer claim")),
            ),
        }
    }

    /// Checks the audiences of claims.
    pub fn check_audiences<C: AudiencesClaim>(&self, claims: &C) -> (checked: Result<
        (),
        ClaimsVerificationError,
    >)
        ensures
            with_error_view(checked) == match self.audience_error(claims.aud()) {
                Some(error) => Err(error),
                None => Ok(()),
            },
    {
        if !self.aud_match_required {
            return Ok(());
        }
        match claims.audiences() {
            Some(found) => if !contains_audience(found, &self.client_id.0) {
                let mut text = enclose(
                    "must contain `",
                    self.client_id.0.as_str(),
                    "` (found audiences: ",
                );
                text.append(list_audiences(found).as_str());
                text.append(")");
                Err(ClaimsVerificationError::InvalidAudience(text))
            } else {
                match find_other_audience(found, &self.client_id.0) {
                    Some(other) => Err(
                        ClaimsVerificationError::InvalidAudience(
                            enclose("`", other.0.as_str(), "` is not a trusted audience"),
                        ),
                    ),
                    None => Ok(()),
                }
            },
            None => Err(
                ClaimsVerificationError::InvalidAudience(
                    String::from_str("missing audiences claim"),
                ),
            ),
        }
    }

    /// Why a token is not accepted whatever its signature, if it is not.
    pub open spec fn token_error<JS, AC: AdditionalClaims, GC: GenderClaim>(
        &self,
        token: JsonWebToken<JS, UserInfoClaimsImpl<AC, GC>>,
    ) -> Option<ClaimsVerificationErrorView> {
        if self.issuer_error(token.payload.issuer) is Some {
            self.issuer_error(token.payload.issuer)
        } else if self.audience_error(token.payload.audiences) is Some {
            self.audience_error(token.payload.audiences)
        } else if token.alg is None {
            Some(ClaimsVerificationErrorView::NoSignature)
        } else {
            None
        }
    }

    /// The claims of a token, given the keys' answer about its signature.
    pub open spec fn verified<JS, AC: AdditionalClaims, GC: GenderClaim>(
        &self,
        token: JsonWebToken<JS, UserInfoClaimsImpl<AC, GC>>,
        signature: Result<(), SignatureVerificationError>,
    ) -> Result<UserInfoClaimsImpl<AC, GC>, ClaimsVerificationErrorView> {
        match self.token_error(token) {
            Some(error) => Err(error),
            None => match signature {
                Err(error) => Err(ClaimsVerificationErrorView::SignatureVerification(error)),
                Ok(_) => match subject_error(
                    self.subject(),
                    token.payload.standard_claims.sub,
                ) {
                    Some(error) => Err(error),
                    None => Ok(token.payload),
                },
            },
        }
    }

    /// Whether `outcome` may come of the verification of `token`. The keys are asked about the
    /// signature of a token that is not rejected without it.
    pub open spec fn may_verify_token<JS, AC: AdditionalClaims, GC: GenderClaim>(
        &self,
        token: JsonWebToken<JS, UserInfoClaimsImpl<AC, GC>>,
        outcome: Result<UserInfoClaimsImpl<AC, GC>, ClaimsVerificationErrorView>,
    ) -> bool where K: JsonWebKey<JS> {
        match self.token_error(token) {
            Some(error) => outcome == Err::<
                UserInfoClaimsImpl<AC, GC>,
                ClaimsVerificationErrorView,
            >(error),
            None => exists|signature: Result<(), SignatureVerificationError>| #[trigger]
                may_verify(
                    &self.signature_keys,
                    &token.alg->Some_0,
                    token.signing_input@,
                    token.signature@,
                    signature,
                ) && outcome == self.verified(token, signature),
        }
    }

    /// Checks what a token says, its signature aside.
    fn check_token<JS, AC: AdditionalClaims, GC: GenderClaim>(
        &self,
        token: &JsonWebToken<JS, UserInfoClaimsImpl<AC, GC>>,
    ) -> (checked: Result<(), ClaimsVerificationError>)
        ensures
            with_error_view(checked) == match self.token_error(*token) {
                Some(error) => Err(error),
                None => Ok(()),
            },
    {
        match self.check_issuer(&token.payload) {
            Err(error) => Err(error),
            Ok(_) => match self.check_audiences(&token.payload) {
                Err(error) => Err(error),
                Ok(_) => if token.alg.is_none() {
                    Err(ClaimsVerificationError::NoSignature)
                } else {
                    Ok(())
                },
            },
        }
    }

    /// Returns the claims of a token that passed the checks that leave its signature aside.
    fn signed_claims<JS, AC: AdditionalClaims, GC: GenderClaim>(
        &self,
        token: JsonWebToken<JS, UserInfoClaimsImpl<AC, GC>>,
        signature: Result<(), SignatureVerificationError>,
    ) -> (claims: Result<UserInfoClaimsImpl<AC, GC>, ClaimsVerificationError>)
        requires
            self.token_error(token) is None,
        ensures
            with_error_view(claims) == self.verified(token, signature),
    {
        match signature {
            Err(error) => Err(ClaimsVerificationError::SignatureVerification(error)),
            Ok(_) => match check_subject(
                self.expected_subject(),
                &token.payload.standard_claims.sub,
            ) {
                Err(error) => Err(error),
                Ok(_) => Ok(token.payload),
            },
        }
    }

    /// Returns the claims of a token, given the keys' answer about its signature.
    pub fn verified_with<JS, AC: AdditionalClaims, GC: GenderClaim>(
        &self,
        token: JsonWebToken<JS, UserInfoClaimsImpl<AC, GC>>,
        signature: Result<(), SignatureVerificationError>,
    ) -> (claims: Result<UserInfoClaimsImpl<AC, GC>, ClaimsVerificationError>)
        ensures
            with_error_view(claims) == self.verified(token, signature),
    {
        match self.check_token(&token) {
            Err(error) => Err(error),
            Ok(_) => self.signed_claims(token, signature),
        }
    }

    /// Verifies a token and returns its claims.
    pub fn verified_claims<JS, AC: AdditionalClaims, GC: GenderClaim>(
        &self,
        token: JsonWebToken<JS, UserInfoClaimsImpl<AC, GC>>,
    ) -> (claims: Result<UserInfoClaimsImpl<AC, GC>, ClaimsVerificationError>) where
        K: JsonWebKey<JS>,

        ensures
            self.may_verify_token(token, with_error_view(claims)),
    {
        match self.check_token(&token) {
            Err(error) => Err(error),
            Ok(_) => match &token.alg {
                None => Err(ClaimsVerificationError::NoSignature),
                Some(alg) => {
                    let signature = self.signature_keys.verify_signature(
                        alg,
                        token.signing_input.as_str().as_bytes(),
                        token.signature.as_slice(),
                    );
                    assert(may_verify(
                        &self.signature_keys,
                        &token.alg->Some_0,
                        token.signing_input@,
                        token.signature@,
                        signature,
                    ));
                    self.signed_claims(token, signature)
                },
            },
        }
    }
}

} // verus!
