use vstd::prelude::*;

use crate::short_code::ShortCode;

verus! {

/// The body of a request to shorten a URL.
#[derive(Debug, Clone, PartialEq, Eq)]
pub struct ShortenUrlPayload {
    pub url: String,
}

/// The body of the answer to a shortening request: the path under which the
/// code resolves.
#[derive(Debug, Clone, PartialEq, Eq)]
pub struct ShortenUrlResponse {
    pub shortened_url: String,
}

/// The path prefix under which codes resolve.
pub open spec fn api_prefix() -> Seq<char> {
    seq!['/', 'a', 'p', 'i', '/']
}

impl ShortenUrlResponse {
    /// The answer for a stored code: `/api/<code>`.
    pub fn for_code(code: &ShortCode) -> (r: ShortenUrlResponse)
        ensures
            r.shortened_url@ == api_prefix() + code@,
    {
        let mut path = String::from_str("/api/");
        proof {
            reveal_strlit("/api/");
        }
        assert(path@ =~= api_prefix());
        path.append(code.as_str());
        ShortenUrlResponse { shortened_url: path }
    }
}

} // verus!
