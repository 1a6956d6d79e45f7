use std::sync::{Arc, RwLock};

use urlkurztacean::in_memory::InMemoryStorage;
use urlkurztacean::original_url::OriginalUrl;
use urlkurztacean::ports::{CreateUrlError, ShortenedUrlRepository};
use urlkurztacean::short_code::ShortCode;
use urlkurztacean::shortened_url::ShortenedUrl;

fn record(url: &str, code: &str) -> ShortenedUrl {
    ShortenedUrl::new(
        OriginalUrl::new(url).unwrap(),
        ShortCode::new(code.to_string()).unwrap(),
    )
}

fn runtime() -> tokio::runtime::Runtime {
    tokio::runtime::Builder::new_multi_thread()
        .worker_threads(4)
        .build()
        .unwrap()
}

#[test]
fn concurrent_creates_with_distinct_codes_all_succeed() {
    let store = Arc::new(RwLock::new(InMemoryStorage::new()));
    let n = 64;
    let rt = runtime();
    let results = rt.block_on(async {
        let mut handles = Vec::new();
        for i in 0..n {
            let store = store.clone();
            handles.push(tokio::spawn(async move {
                let r = record(&format!("https://example.com/{i}"), &format!("c{i}"));
                store.write().unwrap().create(&r).is_ok()
            }));
        }
        let mut oks = Vec::new();
        for h in handles {
            oks.push(h.await.unwrap());
        }
        oks
    });
    assert!(results.iter().all(|ok| *ok));
    let guard = store.read().unwrap();
    for i in 0..n {
        let code = ShortCode::new(format!("c{i}")).unwrap();
        let got = guard.get_by_code(&code).unwrap();
        assert_eq!(got.original_url.to_string(), format!("https://example.com/{i}"));
    }
}

#[test]
fn concurrent_creates_with_one_code_have_one_winner() {
    let store = Arc::new(RwLock::new(InMemoryStorage::new()));
    let n = 64;
    let rt = runtime();
    let results = rt.block_on(async {
        let mut handles = Vec::new();
        for i in 0..n {
            let store = store.clone();
            handles.push(tokio::spawn(async move {
                let r = record(&format!("https://example.com/{i}"), "shared");
                store.write().unwrap().create(&r)
            }));
        }
        let mut rs = Vec::new();
        for h in handles {
            rs.push(h.await.unwrap());
        }
        rs
    });
    let wins = results.iter().filter(|r| r.is_ok()).count();
    let taken = results
        .iter()
        .filter(|r| matches!(r, Err(CreateUrlError::AlreadyExists)))
        .count();
    assert_eq!(wins, 1);
    assert_eq!(taken, n - 1);
}
