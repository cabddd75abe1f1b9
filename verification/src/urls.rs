//! The URLs of a provider: its user info endpoint and its identity as an issuer.
use url::Url;
use vstd::prelude::*;

verus! {

/// What parsing `text` as an absolute URL gives: the serialization of the URL, or the message
/// that says why `text` is none.
pub uninterp spec fn parsed_url(text: Seq<char>) -> Result<Seq<char>, Seq<char>>;

/// The characters of the outcome of parsing a URL.
pub open spec fn outcome_view(outcome: Result<String, String>) -> Result<Seq<char>, Seq<char>> {
    match outcome {
        Ok(serialization) => Ok(serialization@),
        Err(message) => Err(message@),
    }
}

/// `Url::parse` of the `url` crate. The URL is handed out as its serialization, the error as its
/// `Display` text.
///
/// Trusted: the outcome depends on the text alone. Which texts are URLs, and how each is
/// normalized, is left to the `url` crate.
#[verifier::external_body]
fn parse_url(text: &str) -> (outcome: Result<String, String>)
    ensures
        outcome_view(outcome) == parsed_url(text@),
{
    match Url::parse(text) {
        Ok(url) => Ok(String::from(url)),
        Err(error) => Err(error.to_string()),
    }
}

/// A text that is not an absolute URL.
#[derive(Clone, Debug, PartialEq, Eq)]
pub struct InvalidUrl {
    /// Why the text is no URL.
    pub message: String,
}

/// URL for a provider's user info endpoint.
///
/// The text is kept as it was given, beside the URL that it denotes.
#[derive(Debug)]
pub struct UserInfoUrl {
    serialization: String,
    text: String,
}

impl UserInfoUrl {
    #[verifier::type_invariant]
    spec fn well_formed(self) -> bool {
        parsed_url(self.text@) == Ok::<Seq<char>, Seq<char>>(self.serialization@)
    }

    /// The text that the URL was made from.
    pub closed spec fn text(self) -> Seq<char> {
        self.text@
    }

    /// The serialization of the parsed URL.
    pub closed spec fn serialization(self) -> Seq<char> {
        self.serialization@
    }

    /// Creates a user info URL from its text.
    pub fn new(url: String) -> (outcome: Result<UserInfoUrl, InvalidUrl>)
        ensures
            match outcome {
                Ok(made) => {
                    &&& made.text() == url@
                    &&& parsed_url(url@) == Ok::<Seq<char>, Seq<char>>(made.serialization())
                },
                Err(error) => parsed_url(url@) == Err::<Seq<char>, Seq<char>>(error.message@),
            },
    {
        match parse_url(url.as_str()) {
            Ok(serialization) => Ok(UserInfoUrl { serialization, text: url }),
            Err(message) => Err(InvalidUrl { message }),
        }
    }

    /// Returns the parsed URL, in its serialized form.
    pub fn url(&self) -> (url: &String)
        ensures
            url@ == self.serialization(),
            parsed_url(self.text()) == Ok::<Seq<char>, Seq<char>>(url@),
    {
        proof {
            use_type_invariant(self);
        }
        &self.serialization
    }

    /// Returns the text that the URL was made from.
    pub fn as_str(&self) -> (text: &str)
        ensures
            text@ == self.text(),
    {
        self.text.as_str()
    }
}

impl Clone for UserInfoUrl {
    fn clone(&self) -> (copy: Self)
        ensures
            copy == *self,
    {
        proof {
            use_type_invariant(self);
        }
        UserInfoUrl { serialization: self.serialization.clone(), text: self.text.clone() }
    }
}

/// URL that identifies a provider as the issuer of claims.
///
/// The text is kept as it was given, beside the URL that it denotes. Two of these URLs are equal
/// when their texts are, character for character.
#[derive(Debug)]
pub struct IssuerUrl {
    serialization: String,
    text: String,
}

impl IssuerUrl {
    #[verifier::type_invariant]
    spec fn well_formed(self) -> bool {
        parsed_url(self.text@) == Ok::<Seq<char>, Seq<char>>(self.serialization@)
    }

    /// The text that the URL was made from.
    pub closed spec fn text(self) -> Seq<char> {
        self.text@
    }

    /// The serialization of the parsed URL.
    pub closed spec fn serialization(self) -> Seq<char> {
        self.serialization@
    }

    /// Creates an issuer URL from its text.
    pub fn new(url: String) -> (outcome: Result<IssuerUrl, InvalidUrl>)
        ensures
            match outcome {
                Ok(made) => {
                    &&& made.text() == url@
                    &&& parsed_url(url@) == Ok::<Seq<char>, Seq<char>>(made.serialization())
                },
                Err(error) => parsed_url(url@) == Err::<Seq<char>, Seq<char>>(error.message@),
            },
    {
        match parse_url(url.as_str()) {
            Ok(serialization) => Ok(IssuerUrl { serialization, text: url }),
            Err(message) => Err(InvalidUrl { message }),
        }
    }

    /// Returns the parsed URL, in its serialized form.
    pub fn url(&self) -> (url: &String)
        ensures
            url@ == self.serialization(),
            parsed_url(self.text()) == Ok::<Seq<char>, Seq<char>>(url@),
    {
        proof {
            use_type_invariant(self);
        }
        &self.serialization
    }

    /// Returns the text that the URL was made from.
    pub fn as_str(&self) -> (text: &str)
        ensures
            text@ == self.text(),
    {
        self.text.as_str()
    }
}

impl Clone for IssuerUrl {
    fn clone(&self) -> (copy: Self)
        ensures
            copy == *self,
    {
        proof {
            use_type_invariant(self);
        }
        IssuerUrl { serialization: self.serialization.clone(), text: self.text.clone() }
    }
}

impl PartialEq for IssuerUrl {
    fn eq(&self, other: &Self) -> (same: bool) {
        self.text == other.text
    }
}

impl vstd::std_specs::cmp::PartialEqSpecImpl for IssuerUrl {
    open spec fn obeys_eq_spec() -> bool {
        true
    }

    open spec fn eq_spec(&self, other: &Self) -> bool {
        self.text() == other.text()
    }
}

impl Eq for IssuerUrl {

}

} // verus!
