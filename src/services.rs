use vstd::prelude::*;

use crate::original_url::{parsed_url, OriginalUrl, UrlError};
use crate::ports::{
    create_exact, create_outcome, lookup_exact, lookup_outcome, CreateUrlError, GetByCodeError, Records,
    ShortenedUrlRepository,
};
use crate::short_code::{ShortCode, ShortCodeError};
use crate::shortened_url::{ShortenedUrl, ShortenedUrlView};

verus! {

/// The length of a generated code.
pub const DEFAULT_SHORTCODE_LENGTH: usize = 8;

/// A character of the URL-safe alphabet codes are drawn from.
pub open spec fn is_url_safe_char(c: char) -> bool {
    ||| c == '_'
    ||| c == '-'
    ||| ('0' <= c && c <= '9')
    ||| ('a' <= c && c <= 'z')
    ||| ('A' <= c && c <= 'Z')
}

/// A code as the generator makes them.
pub open spec fn is_generated_code(code: Seq<char>) -> bool {
    &&& code.len() == DEFAULT_SHORTCODE_LENGTH
    &&& forall|i: int| 0 <= i < code.len() ==> is_url_safe_char(#[trigger] code[i])
}

/// Relies on `nanoid::format` with nanoid's default, cryptographically seeded
/// random source and its `SAFE` alphabet: it returns `size` characters, each
/// from that alphabet. It never returns for a size of zero, and `8 * size`
/// must fit in a `usize`.
#[verifier::external_body]
fn random_code(size: usize) -> (r: String)
    requires
        0 < size <= 1024,
    ensures
        r@.len() == size,
        forall|i: int| 0 <= i < r@.len() ==> is_url_safe_char(#[trigger] r@[i]),
{
    nanoid::format(nanoid::rngs::default, &nanoid::alphabet::SAFE, size)
}

/// Why shortening or resolving failed.
#[derive(Debug)]
pub enum ServiceError {
    /// The input is not a valid URL.
    InvalidUrl(UrlError),
    /// The code is empty.
    InvalidCode(ShortCodeError),
    /// The backend did not store the record.
    Create(CreateUrlError),
    /// The backend returned no record.
    Lookup(GetByCodeError),
}

/// What building a record from a raw URL and a raw code gives: the URL is
/// checked first, then the code.
pub open spec fn record_outcome(
    url: Seq<char>,
    code: Seq<char>,
    r: Result<ShortenedUrl, ServiceError>,
) -> bool {
    match r {
        Ok(s) => parsed_url(url) == Some(s.original_url@) && code.len() > 0 && s.short_code@
            == code,
        Err(ServiceError::InvalidUrl(_)) => parsed_url(url) is None,
        Err(ServiceError::InvalidCode(e)) => {
            &&& parsed_url(url) is Some
            &&& code.len() == 0
            &&& e == ShortCodeError::NoEmptyString
        },
        Err(_) => false,
    }
}

/// What shortening `url` under `code` may do to a backend's records.
pub open spec fn shorten_outcome(
    before: Records,
    after: Records,
    url: Seq<char>,
    code: Seq<char>,
    r: Result<ShortenedUrl, ServiceError>,
) -> bool {
    match parsed_url(url) {
        None => r matches Err(ServiceError::InvalidUrl(_)) && after == before,
        Some(u) => if code.len() == 0 {
            r matches Err(ServiceError::InvalidCode(e)) && e == ShortCodeError::NoEmptyString
                && after == before
        } else {
            let record = ShortenedUrlView { original_url: u, short_code: code };
            match r {
                Ok(s) => create_outcome(before, after, record, Ok(s)),
                Err(ServiceError::Create(e)) => create_outcome(before, after, record, Err(e)),
                Err(_) => false,
            }
        },
    }
}

/// What resolving `code` against `records` may give.
pub open spec fn resolve_outcome(
    records: Records,
    code: Seq<char>,
    r: Result<ShortenedUrl, ServiceError>,
) -> bool {
    if code.len() == 0 {
        r matches Err(ServiceError::InvalidCode(e)) && e == ShortCodeError::NoEmptyString
    } else {
        match r {
            Ok(s) => lookup_outcome(records, code, Ok(s)),
            Err(ServiceError::Lookup(e)) => lookup_outcome(records, code, Err(e)),
            Err(_) => false,
        }
    }
}

/// What shortening `url` under `code` does on a backend that fails only on a
/// taken code: it succeeds exactly when the URL and the code are valid and
/// the code is new, and a taken code gives `AlreadyExists`.
pub open spec fn shorten_exact(
    before: Records,
    after: Records,
    url: Seq<char>,
    code: Seq<char>,
    r: Result<ShortenedUrl, ServiceError>,
) -> bool {
    &&& shorten_outcome(before, after, url, code, r)
    &&& match parsed_url(url) {
        None => true,
        Some(u) => code.len() == 0 || {
            let record = ShortenedUrlView { original_url: u, short_code: code };
            match r {
                Ok(s) => create_exact(before, after, record, Ok(s)),
                Err(ServiceError::Create(e)) => create_exact(before, after, record, Err(e)),
                Err(_) => false,
            }
        },
    }
}

/// What resolving `code` gives on a backend that fails only on a missing
/// code: the stored record, or `NotFound`.
pub open spec fn resolve_exact(
    records: Records,
    code: Seq<char>,
    r: Result<ShortenedUrl, ServiceError>,
) -> bool {
    &&& resolve_outcome(records, code, r)
    &&& (code.len() == 0 || match r {
        Ok(s) => lookup_exact(records, code, Ok(s)),
        Err(ServiceError::Lookup(e)) => lookup_exact(records, code, Err(e)),
        Err(_) => false,
    })
}

/// Two shortenings under one code: once the first has stored its record, the
/// second fails and the record of the first stays stored as it was.
pub proof fn lemma_same_code_twice(
    m0: Records,
    m1: Records,
    m2: Records,
    url1: Seq<char>,
    url2: Seq<char>,
    code: Seq<char>,
    r1: Result<ShortenedUrl, ServiceError>,
    r2: Result<ShortenedUrl, ServiceError>,
)
    requires
        shorten_outcome(m0, m1, url1, code, r1),
        r1 is Ok,
        shorten_outcome(m1, m2, url2, code, r2),
    ensures
        r2 is Err,
        m2 == m1,
        m2.contains_key(code),
        m2[code] == r1->Ok_0@,
        (shorten_exact(m1, m2, url2, code, r2) && parsed_url(url2) is Some) ==> (r2 matches Err(
            ServiceError::Create(e),
        ) && e is AlreadyExists),
{
}

/// A URL shortened under a code resolves under that code to the record that
/// was stored, whose URL is the parser's form of the input; the lookup may
/// fail only through the backend, never with `NotFound`, and on a backend
/// that fails only on a missing code it succeeds.
pub proof fn lemma_shorten_then_resolve(
    m0: Records,
    m1: Records,
    url: Seq<char>,
    code: Seq<char>,
    r1: Result<ShortenedUrl, ServiceError>,
    r2: Result<ShortenedUrl, ServiceError>,
)
    requires
        shorten_outcome(m0, m1, url, code, r1),
        r1 is Ok,
        resolve_outcome(m1, code, r2),
    ensures
        r2 matches Ok(t) ==> (t@ == r1->Ok_0@ && parsed_url(url) == Some(t.original_url@)),
        !(r2 matches Err(ServiceError::Lookup(e)) && e is NotFound),
        r2 is Ok || r2 is Err && r2->Err_0 is Lookup,
        resolve_exact(m1, code, r2) ==> r2 is Ok,
{
}

/// Resolving one code twice with no write between gives agreeing results:
/// when both find a record it is the same one, and once one reports
/// `NotFound` the other finds none; an empty code is refused both times. On
/// a backend that fails only on a missing code the two results are the same:
/// the same record, or `NotFound` both times.
pub proof fn lemma_resolve_repeatable(
    records: Records,
    code: Seq<char>,
    r1: Result<ShortenedUrl, ServiceError>,
    r2: Result<ShortenedUrl, ServiceError>,
)
    requires
        resolve_outcome(records, code, r1),
        resolve_outcome(records, code, r2),
    ensures
        r1 matches Ok(a) ==> (r2 matches Ok(b) ==> a@ == b@),
        (r1 matches Err(ServiceError::Lookup(e)) && e is NotFound) ==> !(r2 is Ok),
        code.len() == 0 ==> r1 == r2,
        (resolve_exact(records, code, r1) && resolve_exact(records, code, r2)) ==> match (r1, r2) {
            (Ok(a), Ok(b)) => a@ == b@,
            (Err(a), Err(b)) => a == b,
            _ => false,
        },
{
}

/// Validates a raw URL and a raw code and pairs them into a record.
pub fn new_record(url: &str, code: String) -> (r: Result<ShortenedUrl, ServiceError>)
    ensures
        record_outcome(url@, code@, r),
{
    let original_url = match OriginalUrl::new(url) {
        Ok(u) => u,
        Err(e) => return Err(ServiceError::InvalidUrl(e)),
    };
    let short_code = match ShortCode::new(code) {
        Ok(c) => c,
        Err(e) => return Err(ServiceError::InvalidCode(e)),
    };
    Ok(ShortenedUrl::new(original_url, short_code))
}

/// Validates a raw URL and pairs it with a freshly generated code, ready to
/// be stored by a backend.
pub fn generate_record(url: &str) -> (r: Result<ShortenedUrl, ServiceError>)
    ensures
        exists|code: Seq<char>| #[trigger] is_generated_code(code) && record_outcome(url@, code, r),
{
    let code = random_code(DEFAULT_SHORTCODE_LENGTH);
    let ghost generated = code@;
    let r = new_record(url, code);
    assert(is_generated_code(generated));
    r
}

/// Shortens and resolves URLs over one storage backend.
pub struct Service<T: ShortenedUrlRepository> {
    repo: T,
}

impl<T: ShortenedUrlRepository> Service<T> {
    /// The records of the backend.
    pub closed spec fn records(&self) -> Records {
        self.repo.records()
    }

    /// The backend fails only on a taken or a missing code.
    pub closed spec fn fails_only_on_conflict(&self) -> bool {
        self.repo.fails_only_on_conflict()
    }

    pub fn new(repo: T) -> (r: Service<T>)
        ensures
            r.records() == repo.records(),
            r.fails_only_on_conflict() == repo.fails_only_on_conflict(),
    {
        Service { repo }
    }

    /// Shortens `url` under the given code: validates both, then stores the
    /// record. A taken code is an error; nothing is retried.
    pub fn shorten_url_with_code(&mut self, url: &str, code: String) -> (r: Result<
        ShortenedUrl,
        ServiceError,
    >)
        ensures
            shorten_outcome(old(self).records(), final(self).records(), url@, code@, r),
            final(self).fails_only_on_conflict() == old(self).fails_only_on_conflict(),
            old(self).fails_only_on_conflict() ==> shorten_exact(
                old(self).records(),
                final(self).records(),
                url@,
                code@,
                r,
            ),
    {
        let ghost code_view = code@;
        let record = match new_record(url, code) {
            Ok(s) => s,
            Err(e) => return Err(e),
        };
        assert(record@ == ShortenedUrlView {
            original_url: parsed_url(url@)->Some_0,
            short_code: code_view,
        });
        match self.repo.create(&record) {
            Ok(s) => Ok(s),
            Err(e) => Err(ServiceError::Create(e)),
        }
    }

    /// Shortens `url` under a freshly generated code of eight URL-safe
    /// characters. A collision with a stored code is reported, not retried.
    pub fn shorten_url(&mut self, url: &str) -> (r: Result<ShortenedUrl, ServiceError>)
        ensures
            final(self).fails_only_on_conflict() == old(self).fails_only_on_conflict(),
            exists|code: Seq<char>| #[trigger]
                is_generated_code(code) && shorten_outcome(
                    old(self).records(),
                    final(self).records(),
                    url@,
                    code,
                    r,
                ) && (old(self).fails_only_on_conflict() ==> shorten_exact(
                    old(self).records(),
                    final(self).records(),
                    url@,
                    code,
                    r,
                )),
    {
        let code = random_code(DEFAULT_SHORTCODE_LENGTH);
        let ghost generated = code@;
        let r = self.shorten_url_with_code(url, code);
        assert(is_generated_code(generated));
        r
    }

    /// Looks up the record stored under `code`.
    pub fn get_by_code(&self, code: String) -> (r: Result<ShortenedUrl, ServiceError>)
        ensures
            resolve_outcome(self.records(), code@, r),
            self.fails_only_on_conflict() ==> resolve_exact(self.records(), code@, r),
    {
        let short_code = match ShortCode::new(code) {
            Ok(c) => c,
            Err(e) => return Err(ServiceError::InvalidCode(e)),
        };
        match self.repo.get_by_code(&short_code) {
            Ok(s) => Ok(s),
            Err(e) => Err(ServiceError::Lookup(e)),
        }
    }
}

} // verus!
