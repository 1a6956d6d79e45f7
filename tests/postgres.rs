use urlkurztacean::original_url::OriginalUrl;
use urlkurztacean::ports::{CreateUrlError, GetByCodeError};
use urlkurztacean::postgres::{create_result, get_result, record_from_row, BackendFailure};
use urlkurztacean::short_code::ShortCode;
use urlkurztacean::shortened_url::ShortenedUrl;

#[test]
fn unique_violation_means_already_exists() {
    let e = CreateUrlError::from_failure(BackendFailure::UniqueViolation, sqlx::Error::PoolClosed);
    assert!(matches!(e, CreateUrlError::AlreadyExists));
    let e = CreateUrlError::from_failure(BackendFailure::Other, sqlx::Error::PoolClosed);
    assert!(matches!(e, CreateUrlError::DBError(sqlx::Error::PoolClosed)));
    let e = CreateUrlError::from_failure(BackendFailure::RowNotFound, sqlx::Error::RowNotFound);
    assert!(matches!(e, CreateUrlError::DBError(sqlx::Error::RowNotFound)));
}

#[test]
fn other_insert_failures_pass_through() {
    let e = CreateUrlError::from_backend(sqlx::Error::Protocol("broken".to_string()));
    assert!(matches!(e, CreateUrlError::DBError(sqlx::Error::Protocol(_))));
}

#[test]
fn missing_row_means_not_found() {
    assert!(matches!(GetByCodeError::from_backend(sqlx::Error::RowNotFound), GetByCodeError::NotFound));
    assert!(matches!(
        GetByCodeError::from_backend(sqlx::Error::PoolTimedOut),
        GetByCodeError::DBError(sqlx::Error::PoolTimedOut)
    ));
    assert!(matches!(
        GetByCodeError::from_failure(BackendFailure::UniqueViolation, sqlx::Error::PoolClosed),
        GetByCodeError::DBError(sqlx::Error::PoolClosed)
    ));
}

#[test]
fn insert_result_gives_record_back() {
    let s = ShortenedUrl::new(
        OriginalUrl::new("https://example.com/path").unwrap(),
        ShortCode::new("abc".to_string()).unwrap(),
    );
    let r = create_result(&s, Ok(())).unwrap();
    assert_eq!(r.to_string(), "https://example.com/path:abc");
    assert!(matches!(create_result(&s, Err(sqlx::Error::PoolClosed)), Err(CreateUrlError::DBError(_))));
}

#[test]
fn rows_rebuild_records() {
    let r = record_from_row("https://example.com", "abc".to_string()).unwrap();
    assert_eq!(r.to_string(), "https://example.com/:abc");
    assert!(matches!(record_from_row("nope", "abc".to_string()), Err(GetByCodeError::InvalidRecord)));
    assert!(matches!(
        record_from_row("https://example.com", String::new()),
        Err(GetByCodeError::InvalidRecord)
    ));
}

#[test]
fn select_result_maps_rows_and_failures() {
    let ok = get_result(Ok(("https://example.com/p".to_string(), "k1".to_string()))).unwrap();
    assert_eq!(ok.original_url.as_str(), "https://example.com/p");
    assert_eq!(ok.short_code.as_str(), "k1");
    assert!(matches!(get_result(Err(sqlx::Error::RowNotFound)), Err(GetByCodeError::NotFound)));
    assert!(matches!(get_result(Err(sqlx::Error::WorkerCrashed)), Err(GetByCodeError::DBError(_))));
}
