use vstd::prelude::*;

use crate::original_url::OriginalUrl;
use crate::short_code::ShortCode;

verus! {

/// A record pairing a validated URL with the code that leads to it.
#[derive(Debug)]
pub struct ShortenedUrl {
    pub original_url: OriginalUrl,
    pub short_code: ShortCode,
}

/// What a record holds, as text.
pub struct ShortenedUrlView {
    pub original_url: Seq<char>,
    pub short_code: Seq<char>,
}

impl View for ShortenedUrl {
    type V = ShortenedUrlView;

    open spec fn view(&self) -> ShortenedUrlView {
        ShortenedUrlView { original_url: self.original_url@, short_code: self.short_code@ }
    }
}

impl ShortenedUrl {
    pub fn new(original_url: OriginalUrl, short_code: ShortCode) -> (r: ShortenedUrl)
        ensures
            r.original_url@ == original_url@,
            r.short_code@ == short_code@,
    {
        ShortenedUrl { original_url, short_code }
    }

    /// The record as `url:code`.
    pub fn to_string(&self) -> (r: String)
        ensures
            r@ == self.original_url@ + seq![':'] + self.short_code@,
    {
        let mut s = self.original_url.to_string();
        s.append(":");
        proof {
            reveal_strlit(":");
        }
        s.append(self.short_code.as_str());
        s
    }
}

impl Clone for ShortenedUrl {
    fn clone(&self) -> (r: Self)
        ensures
            r@ == self@,
    {
        ShortenedUrl { original_url: self.original_url.clone(), short_code: self.short_code.clone() }
    }
}

} // verus!
