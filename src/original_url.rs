use vstd::prelude::*;

verus! {

#[verifier::external_type_specification]
#[verifier::external_body]
pub struct ExParseError(url::ParseError);

/// The serialization that the URL parser gives for `input`, or `None` where
/// `input` is not a valid absolute URL.
pub uninterp spec fn parsed_url(input: Seq<char>) -> Option<Seq<char>>;

/// Relies on `url::Url::parse`, which accepts `input` or reports why not, and
/// on `From<Url> for String`, which hands back the parsed URL's serialization.
#[verifier::external_body]
fn parse_url(input: &str) -> (r: Result<String, url::ParseError>)
    ensures
        match r {
            Ok(u) => parsed_url(input@) == Some(u@),
            Err(_) => parsed_url(input@) is None,
        },
{
    url::Url::parse(input).map(String::from)
}

/// A validated absolute URL, kept in the normalized form the parser gives.
#[derive(Debug)]
pub struct OriginalUrl {
    url: String,
}

/// Why a string was not accepted as a URL.
#[derive(Debug, Clone, Copy)]
pub enum UrlError {
    ParseError(url::ParseError),
}

/// `u` is what the parser makes of some input.
pub open spec fn is_parsed_url(u: Seq<char>) -> bool {
    exists|input: Seq<char>| #[trigger] parsed_url(input) == Some(u)
}

impl View for OriginalUrl {
    type V = Seq<char>;

    closed spec fn view(&self) -> Seq<char> {
        self.url@
    }
}

impl OriginalUrl {
    #[verifier::type_invariant]
    spec fn inv(self) -> bool {
        is_parsed_url(self.url@)
    }

    /// Parses `input` as an absolute URL; fails with `ParseError` exactly
    /// when the parser refuses it.
    pub fn new(input: &str) -> (r: Result<OriginalUrl, UrlError>)
        ensures
            match r {
                Ok(u) => parsed_url(input@) == Some(u@),
                Err(UrlError::ParseError(_)) => parsed_url(input@) is None,
            },
    {
        match parse_url(input) {
            Ok(url) => Ok(OriginalUrl { url }),
            Err(e) => Err(UrlError::ParseError(e)),
        }
    }

    /// The URL's normalized text.
    pub fn as_str(&self) -> (r: &str)
        ensures
            r@ == self@,
            is_parsed_url(r@),
    {
        proof {
            use_type_invariant(self);
        }
        self.url.as_str()
    }

    /// The URL's normalized text, as an owned string.
    pub fn to_string(&self) -> (r: String)
        ensures
            r@ == self@,
    {
        self.url.clone()
    }
}

impl Clone for OriginalUrl {
    fn clone(&self) -> (r: Self)
        ensures
            r@ == self@,
    {
        proof {
            use_type_invariant(self);
        }
        OriginalUrl { url: self.url.clone() }
    }
}

} // verus!
