use vstd::prelude::*;

use crate::original_url::{parsed_url, OriginalUrl};
use crate::ports::{CreateUrlError, GetByCodeError};
use crate::short_code::ShortCode;
use crate::shortened_url::ShortenedUrl;

verus! {

/// How the relational backend classified a failed statement.
#[derive(Debug, Clone, Copy, PartialEq, Eq, Structural)]
pub enum BackendFailure {
    /// The statement broke a unique constraint.
    UniqueViolation,
    /// A query that should return one row returned none.
    RowNotFound,
    /// Anything else.
    Other,
}

/// How the backend classifies an error; it depends on the error alone.
pub uninterp spec fn failure_kind_of(e: sqlx::Error) -> BackendFailure;

/// Relies on `sqlx::Error`'s variants: `RowNotFound`, and `Database` with
/// `DatabaseError::is_unique_violation`, which reports a unique or primary
/// key violation.
#[verifier::external_body]
fn failure_kind(e: &sqlx::Error) -> (r: BackendFailure)
    ensures
        r == failure_kind_of(*e),
{
    match e {
        sqlx::Error::Database(d) if d.is_unique_violation() => BackendFailure::UniqueViolation,
        sqlx::Error::RowNotFound => BackendFailure::RowNotFound,
        _ => BackendFailure::Other,
    }
}

impl CreateUrlError {
    /// An insert that broke the unique constraint on the code means the code
    /// is taken; any other failure passes through.
    pub fn from_failure(kind: BackendFailure, e: sqlx::Error) -> (r: CreateUrlError)
        ensures
            kind == BackendFailure::UniqueViolation ==> r is AlreadyExists,
            kind != BackendFailure::UniqueViolation ==> r == CreateUrlError::DBError(e),
    {
        match kind {
            BackendFailure::UniqueViolation => CreateUrlError::AlreadyExists,
            _ => CreateUrlError::DBError(e),
        }
    }

    /// Maps a failed insert onto the storage errors.
    pub fn from_backend(e: sqlx::Error) -> (r: CreateUrlError)
        ensures
            failure_kind_of(e) == BackendFailure::UniqueViolation ==> r is AlreadyExists,
            failure_kind_of(e) != BackendFailure::UniqueViolation ==> r == CreateUrlError::DBError(
                e,
            ),
    {
        let kind = failure_kind(&e);
        CreateUrlError::from_failure(kind, e)
    }
}

impl GetByCodeError {
    /// A keyed select that found no row means no record is stored; any other
    /// failure passes through.
    pub fn from_failure(kind: BackendFailure, e: sqlx::Error) -> (r: GetByCodeError)
        ensures
            kind == BackendFailure::RowNotFound ==> r is NotFound,
            kind != BackendFailure::RowNotFound ==> r == GetByCodeError::DBError(e),
    {
        match kind {
            BackendFailure::RowNotFound => GetByCodeError::NotFound,
            _ => GetByCodeError::DBError(e),
        }
    }

    /// Maps a failed select onto the storage errors.
    pub fn from_backend(e: sqlx::Error) -> (r: GetByCodeError)
        ensures
            failure_kind_of(e) == BackendFailure::RowNotFound ==> r is NotFound,
            failure_kind_of(e) != BackendFailure::RowNotFound ==> r == GetByCodeError::DBError(e),
    {
        let kind = failure_kind(&e);
        GetByCodeError::from_failure(kind, e)
    }
}

/// Rebuilds a record from a stored row; a row that does not hold a valid URL
/// and a non-empty code is reported as `InvalidRecord`.
pub fn record_from_row(original_url: &str, short_code: String) -> (r: Result<
    ShortenedUrl,
    GetByCodeError,
>)
    ensures
        match r {
            Ok(s) => {
                &&& parsed_url(original_url@) == Some(s.original_url@)
                &&& short_code@.len() > 0
                &&& s.short_code@ == short_code@
            },
            Err(e) => e is InvalidRecord && (parsed_url(original_url@) is None || short_code@.len()
                == 0),
        },
{
    let url = match OriginalUrl::new(original_url) {
        Ok(u) => u,
        Err(_) => return Err(GetByCodeError::InvalidRecord),
    };
    let code = match ShortCode::new(short_code) {
        Ok(c) => c,
        Err(_) => return Err(GetByCodeError::InvalidRecord),
    };
    Ok(ShortenedUrl::new(url, code))
}

/// The outcome of inserting `shortened_url` as a row: the record itself when
/// the insert went through, else the mapped failure.
pub fn create_result(shortened_url: &ShortenedUrl, inserted: Result<(), sqlx::Error>) -> (r: Result<
    ShortenedUrl,
    CreateUrlError,
>)
    ensures
        match inserted {
            Ok(()) => r matches Ok(s) && s@ == shortened_url@,
            Err(e) => r matches Err(c) && (failure_kind_of(e) == BackendFailure::UniqueViolation
                ==> c is AlreadyExists) && (failure_kind_of(e) != BackendFailure::UniqueViolation
                ==> c == CreateUrlError::DBError(e)),
        },
{
    match inserted {
        Ok(()) => Ok(shortened_url.clone()),
        Err(e) => Err(CreateUrlError::from_backend(e)),
    }
}

/// The outcome of selecting the row stored under a code, given as its
/// `(original_url, short_code)` columns.
pub fn get_result(fetched: Result<(String, String), sqlx::Error>) -> (r: Result<
    ShortenedUrl,
    GetByCodeError,
>)
    ensures
        match fetched {
            Ok((u, c)) => match r {
                Ok(s) => parsed_url(u@) == Some(s.original_url@) && s.short_code@ == c@
                    && c@.len() > 0,
                Err(e) => e is InvalidRecord && (parsed_url(u@) is None || c@.len() == 0),
            },
            Err(e) => r matches Err(g) && (failure_kind_of(e) == BackendFailure::RowNotFound
                ==> g is NotFound) && (failure_kind_of(e) != BackendFailure::RowNotFound ==> g
                == GetByCodeError::DBError(e)),
        },
{
    match fetched {
        Ok((u, c)) => record_from_row(u.as_str(), c),
        Err(e) => Err(GetByCodeError::from_backend(e)),
    }
}

} // verus!
