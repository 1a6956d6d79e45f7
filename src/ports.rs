use vstd::prelude::*;

use crate::short_code::ShortCode;
use crate::shortened_url::{ShortenedUrl, ShortenedUrlView};

verus! {

#[verifier::external_type_specification]
#[verifier::external_body]
pub struct ExSqlxError(sqlx::Error);

/// Why a record could not be stored.
#[derive(Debug)]
pub enum CreateUrlError {
    /// The storage medium failed.
    DBError(sqlx::Error),
    /// A record with the same code is already stored.
    AlreadyExists,
    /// The lock guarding a shared backend could not be taken.
    LockError,
}

/// Why no record was returned for a code.
#[derive(Debug)]
pub enum GetByCodeError {
    /// The storage medium failed.
    DBError(sqlx::Error),
    /// No record is stored under the code.
    NotFound,
    /// The stored row does not hold a valid URL and code.
    InvalidRecord,
}

/// Stored records, keyed by their code.
pub type Records = Map<Seq<char>, ShortenedUrlView>;

/// The records after an insertion that keeps whatever is already stored
/// under the same code.
pub open spec fn insert_new(records: Records, record: ShortenedUrlView) -> Records {
    if records.contains_key(record.short_code) {
        records
    } else {
        records.insert(record.short_code, record)
    }
}

/// What any backend's `create` may do: insert a record under a new code, refuse
/// a taken code, or fail and change nothing.
pub open spec fn create_outcome(
    before: Records,
    after: Records,
    record: ShortenedUrlView,
    r: Result<ShortenedUrl, CreateUrlError>,
) -> bool {
    match r {
        Ok(s) => {
            &&& !before.contains_key(record.short_code)
            &&& after == before.insert(record.short_code, record)
            &&& s@ == record
        },
        Err(CreateUrlError::AlreadyExists) => before.contains_key(record.short_code) && after
            == before,
        Err(_) => after == before,
    }
}

/// `create` on a backend that cannot fail otherwise: it succeeds exactly
/// when the code is new, and refuses a taken one with `AlreadyExists`.
pub open spec fn create_exact(
    before: Records,
    after: Records,
    record: ShortenedUrlView,
    r: Result<ShortenedUrl, CreateUrlError>,
) -> bool {
    &&& create_outcome(before, after, record, r)
    &&& after == insert_new(before, record)
    &&& (r is Ok <==> !before.contains_key(record.short_code))
    &&& (r matches Err(e) ==> e is AlreadyExists)
}

/// What any backend's `get_by_code` may return: the record stored under
/// `code`, `NotFound` when there is none, or a failure of the medium.
pub open spec fn lookup_outcome(
    records: Records,
    code: Seq<char>,
    r: Result<ShortenedUrl, GetByCodeError>,
) -> bool {
    match r {
        Ok(s) => records.contains_key(code) && s@ == records[code],
        Err(GetByCodeError::NotFound) => !records.contains_key(code),
        Err(_) => true,
    }
}

/// `get_by_code` on a backend that cannot fail otherwise.
pub open spec fn lookup_exact(
    records: Records,
    code: Seq<char>,
    r: Result<ShortenedUrl, GetByCodeError>,
) -> bool {
    &&& lookup_outcome(records, code, r)
    &&& (r is Ok <==> records.contains_key(code))
    &&& (r matches Err(e) ==> e is NotFound)
}

/// `states[i]` to `states[i + 1]` is a `create` of `records[i]` with result
/// `results[i]`, one after another, on a backend that refuses only taken
/// codes. Creates made at once under a lock run in some such order.
pub open spec fn create_run(
    states: Seq<Records>,
    records: Seq<ShortenedUrlView>,
    results: Seq<Result<ShortenedUrl, CreateUrlError>>,
) -> bool {
    &&& states.len() == records.len() + 1
    &&& results.len() == records.len()
    &&& forall|i: int|
        0 <= i < records.len() ==> create_exact(states[i], states[i + 1], records[i], #[trigger] results[i])
}

proof fn lemma_distinct_codes_prefix(
    states: Seq<Records>,
    records: Seq<ShortenedUrlView>,
    results: Seq<Result<ShortenedUrl, CreateUrlError>>,
    k: int,
)
    requires
        create_run(states, records, results),
        0 <= k <= records.len(),
        forall|i: int, j: int|
            0 <= i < j < records.len() ==> records[i].short_code != records[j].short_code,
        forall|i: int|
            0 <= i < records.len() ==> !states[0].contains_key(#[trigger] records[i].short_code),
    ensures
        forall|i: int| 0 <= i < k ==> (#[trigger] results[i]) is Ok,
        forall|i: int|
            0 <= i < k ==> states[k].contains_key(#[trigger] records[i].short_code)
                && states[k][records[i].short_code] == records[i],
        forall|i: int|
            k <= i < records.len() ==> !states[k].contains_key(#[trigger] records[i].short_code),
    decreases k,
{
    if k > 0 {
        lemma_distinct_codes_prefix(states, records, results, k - 1);
        let r = results[k - 1];
        assert(create_exact(states[k - 1], states[k], records[k - 1], r));
        assert forall|i: int| 0 <= i < k implies states[k].contains_key(
            #[trigger] records[i].short_code,
        ) && states[k][records[i].short_code] == records[i] by {
            if i < k - 1 {
                assert(records[i].short_code != records[k - 1].short_code);
            }
        }
        assert forall|i: int| k <= i < records.len() implies !states[k].contains_key(
            #[trigger] records[i].short_code,
        ) by {
            assert(records[k - 1].short_code != records[i].short_code);
        }
    }
}

/// Creates of records under distinct codes that are not yet stored all
/// succeed, and afterwards every record is stored under its code.
pub proof fn lemma_distinct_codes_all_stored(
    states: Seq<Records>,
    records: Seq<ShortenedUrlView>,
    results: Seq<Result<ShortenedUrl, CreateUrlError>>,
)
    requires
        create_run(states, records, results),
        forall|i: int, j: int|
            0 <= i < j < records.len() ==> records[i].short_code != records[j].short_code,
        forall|i: int|
            0 <= i < records.len() ==> !states[0].contains_key(#[trigger] records[i].short_code),
    ensures
        forall|i: int| 0 <= i < results.len() ==> (#[trigger] results[i]) is Ok,
        forall|i: int|
            0 <= i < records.len() ==> states.last().contains_key(#[trigger] records[i].short_code)
                && states.last()[records[i].short_code] == records[i],
{
    lemma_distinct_codes_prefix(states, records, results, records.len() as int);
}

proof fn lemma_same_code_prefix(
    states: Seq<Records>,
    records: Seq<ShortenedUrlView>,
    results: Seq<Result<ShortenedUrl, CreateUrlError>>,
    code: Seq<char>,
    k: int,
)
    requires
        create_run(states, records, results),
        1 <= k <= records.len(),
        forall|i: int| 0 <= i < records.len() ==> (#[trigger] records[i]).short_code == code,
        !states[0].contains_key(code),
    ensures
        results[0] is Ok,
        forall|i: int| 1 <= i < k ==> ((#[trigger] results[i]) matches Err(e) && e is AlreadyExists),
        states[k].contains_key(code) && states[k][code] == records[0],
    decreases k,
{
    assert(create_exact(states[0], states[1], records[0], results[0]));
    if k > 1 {
        lemma_same_code_prefix(states, records, results, code, k - 1);
        assert(create_exact(states[k - 1], states[k], records[k - 1], results[k - 1]));
    }
}

/// Creates of records that all share one code not yet stored: the first
/// succeeds, every later one fails with `AlreadyExists`, and the first
/// record stays stored.
pub proof fn lemma_same_code_single_winner(
    states: Seq<Records>,
    records: Seq<ShortenedUrlView>,
    results: Seq<Result<ShortenedUrl, CreateUrlError>>,
    code: Seq<char>,
)
    requires
        create_run(states, records, results),
        records.len() > 0,
        forall|i: int| 0 <= i < records.len() ==> (#[trigger] records[i]).short_code == code,
        !states[0].contains_key(code),
    ensures
        results[0] is Ok,
        forall|i: int|
            1 <= i < results.len() ==> ((#[trigger] results[i]) matches Err(e) && e is AlreadyExists),
        states.last().contains_key(code) && states.last()[code] == records[0],
{
    lemma_same_code_prefix(states, records, results, code, records.len() as int);
}

/// A `create` under a code that is already stored fails, on any backend, and
/// leaves the stored record as it was; on a backend that refuses only taken
/// codes the failure is `AlreadyExists`.
pub proof fn lemma_taken_code_kept(
    before: Records,
    after: Records,
    record: ShortenedUrlView,
    r: Result<ShortenedUrl, CreateUrlError>,
)
    requires
        before.contains_key(record.short_code),
        create_outcome(before, after, record, r),
    ensures
        r is Err,
        after == before,
        create_exact(before, after, record, r) ==> (r matches Err(e) && e is AlreadyExists),
{
}

/// Two lookups of one code with no write between them agree: both find the
/// same record, or neither finds one; on a backend that fails otherwise
/// never, they give the same result.
pub proof fn lemma_lookup_repeatable(
    records: Records,
    code: Seq<char>,
    r1: Result<ShortenedUrl, GetByCodeError>,
    r2: Result<ShortenedUrl, GetByCodeError>,
)
    requires
        lookup_outcome(records, code, r1),
        lookup_outcome(records, code, r2),
    ensures
        r1 matches Ok(a) ==> (r2 matches Ok(b) ==> a@ == b@),
        (r1 matches Err(e) && e is NotFound) ==> !(r2 is Ok),
        (lookup_exact(records, code, r1) && lookup_exact(records, code, r2)) ==> match (r1, r2) {
            (Ok(a), Ok(b)) => a@ == b@,
            (Err(a), Err(b)) => a is NotFound && b is NotFound,
            _ => false,
        },
{
}

/// A storage backend for shortened URLs: `create` stores a record under a
/// code that is not yet taken, atomically with the check; `get_by_code`
/// reads one and changes nothing.
pub trait ShortenedUrlRepository {
    /// The records the backend holds.
    spec fn records(&self) -> Records;

    /// The backend fails only on a taken code (`create`) or a missing one
    /// (`get_by_code`), never through its medium.
    spec fn fails_only_on_conflict(&self) -> bool;

    fn create(&mut self, shortened_url: &ShortenedUrl) -> (r: Result<ShortenedUrl, CreateUrlError>)
        ensures
            create_outcome(old(self).records(), final(self).records(), shortened_url@, r),
            final(self).fails_only_on_conflict() == old(self).fails_only_on_conflict(),
            old(self).fails_only_on_conflict() ==> create_exact(
                old(self).records(),
                final(self).records(),
                shortened_url@,
                r,
            ),
    ;

    fn get_by_code(&self, code: &ShortCode) -> (r: Result<ShortenedUrl, GetByCodeError>)
        ensures
            lookup_outcome(self.records(), code@, r),
            self.fails_only_on_conflict() ==> lookup_exact(self.records(), code@, r),
    ;
}

} // verus!
