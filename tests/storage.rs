use urlkurztacean::in_memory::InMemoryStorage;
use urlkurztacean::original_url::OriginalUrl;
use urlkurztacean::ports::{CreateUrlError, GetByCodeError, ShortenedUrlRepository};
use urlkurztacean::short_code::ShortCode;
use urlkurztacean::shortened_url::ShortenedUrl;

fn record(url: &str, code: &str) -> ShortenedUrl {
    ShortenedUrl::new(
        OriginalUrl::new(url).unwrap(),
        ShortCode::new(code.to_string()).unwrap(),
    )
}

fn code(s: &str) -> ShortCode {
    ShortCode::new(s.to_string()).unwrap()
}

#[test]
fn create_then_get_returns_record() {
    let mut store = InMemoryStorage::new();
    let created = store.create(&record("https://example.com/path", "abc")).unwrap();
    assert_eq!(created.short_code.as_str(), "abc");
    let got = store.get_by_code(&code("abc")).unwrap();
    assert_eq!(got.original_url.as_str(), "https://example.com/path");
    assert_eq!(got.short_code.as_str(), "abc");
}

#[test]
fn get_on_empty_store_is_not_found() {
    let store = InMemoryStorage::new();
    assert!(matches!(store.get_by_code(&code("nonexistent-code")), Err(GetByCodeError::NotFound)));
}

#[test]
fn distinct_codes_all_stored() {
    let mut store = InMemoryStorage::new();
    let n = 50;
    for i in 0..n {
        let url = format!("https://example.com/{i}");
        assert!(store.create(&record(&url, &format!("code{i}"))).is_ok());
    }
    for i in 0..n {
        let got = store.get_by_code(&code(&format!("code{i}"))).unwrap();
        assert_eq!(got.original_url.to_string(), format!("https://example.com/{i}"));
    }
}

#[test]
fn same_code_has_single_winner() {
    let mut store = InMemoryStorage::new();
    let n = 20;
    let mut ok = 0;
    let mut taken = 0;
    for i in 0..n {
        let url = format!("https://example.com/{i}");
        match store.create(&record(&url, "same")) {
            Ok(_) => ok += 1,
            Err(CreateUrlError::AlreadyExists) => taken += 1,
            Err(e) => panic!("unexpected {e:?}"),
        }
    }
    assert_eq!(ok, 1);
    assert_eq!(taken, n - 1);
    let got = store.get_by_code(&code("same")).unwrap();
    assert_eq!(got.original_url.as_str(), "https://example.com/0");
}

#[test]
fn lookup_is_repeatable() {
    let mut store = InMemoryStorage::new();
    store.create(&record("https://example.com/a", "a1")).unwrap();
    let first = store.get_by_code(&code("a1")).unwrap();
    let second = store.get_by_code(&code("a1")).unwrap();
    assert_eq!(first.to_string(), second.to_string());
    assert!(matches!(store.get_by_code(&code("zz")), Err(GetByCodeError::NotFound)));
    assert!(matches!(store.get_by_code(&code("zz")), Err(GetByCodeError::NotFound)));
}

#[test]
fn default_store_is_empty() {
    let store = InMemoryStorage::default();
    assert!(matches!(store.get_by_code(&code("a")), Err(GetByCodeError::NotFound)));
}
