use vstd::hash_map::StringHashMap;
use vstd::prelude::*;

use crate::ports::{
    create_exact, insert_new, lookup_exact, CreateUrlError, GetByCodeError, Records,
    ShortenedUrlRepository,
};
use crate::short_code::ShortCode;
use crate::shortened_url::ShortenedUrl;

verus! {

/// A backend that keeps every record in a map in memory, keyed by code.
///
/// It never fails but for a taken code on `create` and a missing one on
/// `get_by_code`. Sharing it between threads is the caller's business: it
/// takes `&mut self` to store, so a lock around it makes each `create`
/// atomic with its check.
pub struct InMemoryStorage {
    store: StringHashMap<ShortenedUrl>,
}

impl InMemoryStorage {
    /// An empty store.
    pub fn new() -> (r: InMemoryStorage)
        ensures
            r.records() == Records::empty(),
            r.fails_only_on_conflict(),
    {
        let r = InMemoryStorage { store: StringHashMap::new() };
        assert(r.records() =~= Records::empty());
        r
    }

    fn add(&mut self, shortened_url: &ShortenedUrl) -> (r: Result<(), CreateUrlError>)
        ensures
            final(self).records() == insert_new(old(self).records(), shortened_url@),
            r is Ok <==> !old(self).records().contains_key(shortened_url@.short_code),
            r matches Err(e) ==> e is AlreadyExists,
    {
        let code = shortened_url.short_code.as_str();
        if self.store.contains_key(code) {
            return Err(CreateUrlError::AlreadyExists);
        }
        let key = shortened_url.short_code.to_string();
        let value = shortened_url.clone();
        self.store.insert(key, value);
        assert(self.records() =~= old(self).records().insert(
            shortened_url@.short_code,
            shortened_url@,
        ));
        Ok(())
    }

    fn get(&self, code: &ShortCode) -> (r: Option<ShortenedUrl>)
        ensures
            match r {
                Some(s) => self.records().contains_key(code@) && s@ == self.records()[code@],
                None => !self.records().contains_key(code@),
            },
    {
        match self.store.get(code.as_str()) {
            Some(s) => Some(s.clone()),
            None => None,
        }
    }
}

impl Default for InMemoryStorage {
    fn default() -> (r: InMemoryStorage)
        ensures
            r.records() == Records::empty(),
            r.fails_only_on_conflict(),
    {
        InMemoryStorage::new()
    }
}

impl ShortenedUrlRepository for InMemoryStorage {
    closed spec fn records(&self) -> Records {
        self.store@.map_values(|s: ShortenedUrl| s@)
    }

    open spec fn fails_only_on_conflict(&self) -> bool {
        true
    }

    fn create(&mut self, shortened_url: &ShortenedUrl) -> (r: Result<ShortenedUrl, CreateUrlError>)
        ensures
            create_exact(old(self).records(), final(self).records(), shortened_url@, r),
    {
        match self.add(shortened_url) {
            Ok(()) => Ok(shortened_url.clone()),
            Err(e) => Err(e),
        }
    }

    fn get_by_code(&self, code: &ShortCode) -> (r: Result<ShortenedUrl, GetByCodeError>)
        ensures
            lookup_exact(self.records(), code@, r),
    {
        match self.get(code) {
            Some(s) => Ok(s),
            None => Err(GetByCodeError::NotFound),
        }
    }
}

} // verus!
