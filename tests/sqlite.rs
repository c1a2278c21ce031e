use chrono::Utc;
use rusty_soap::cache::sqlite::{SQLiteCache, StoredRequest, MEMORY_LOCATION};
use rusty_soap::cache::utils::{Timestamp, VersionCacheBase};
use rusty_soap::exceptions::RustySoapError;

const DB_LOCATION: &str = ".test.db";
const URL: &str = "http://tests.python-zeep.org/example.wsdl";

fn now() -> Timestamp {
    let t = Utc::now();
    Timestamp::new(t.timestamp(), t.timestamp_subsec_nanos())
}

/// The row that storing `content` now writes.
fn stored(c: &SQLiteCache, content: &str) -> StoredRequest {
    StoredRequest { created: now(), url: URL.to_owned(), content: c.stored_payload(content) }
}

#[test]
fn cache() {
    let path = &format!("{:}{:}", DB_LOCATION, "1");
    let c = SQLiteCache::new(path, None);
    assert!(c.needs_file());
    let row = stored(&c, "content");
    let res = c.read(Some(row)).unwrap().unwrap();
    assert_eq!(res, "content");
}

#[test]
fn cache_memory() {
    let path = "sqlite::memory:";
    let c = SQLiteCache::new(path, None);
    assert!(!c.needs_file());
    assert_eq!(c.location(), MEMORY_LOCATION);
    let row = stored(&c, "content");
    let res = c.read(Some(row)).unwrap().unwrap();
    assert_eq!(res, "content");
}

#[test]
fn no_records() {
    let path = &format!("{:}{:}", DB_LOCATION, "2");
    let c = SQLiteCache::new(path, None);
    let res = c.read(None).unwrap();
    assert_eq!(res, None);
}

#[test]
fn has_expired() {
    let path = &format!("{:}{:}", DB_LOCATION, "3");
    let c = SQLiteCache::new(path, Some(7200));
    let row = stored(&c, "content");
    // read once the entry is past its timeout
    let late = Timestamp::new(row.created.secs + 7201, row.created.nanos);
    let res = c.read_at(Some(row), late).unwrap();
    assert_eq!(res, None);
}

#[test]
fn has_not_expired() {
    let path = &format!("{:}{:}", DB_LOCATION, "4");
    let c = SQLiteCache::new(path, Some(7200));
    let row = stored(&c, "content");
    let soon = Timestamp::new(row.created.secs + 7200, row.created.nanos);
    let res = c.read_at(Some(row), soon).unwrap().unwrap();
    assert_eq!(res, "content");
}

#[test]
fn payload_is_tagged_base64() {
    let c = SQLiteCache::new(":memory:", None);
    assert_eq!(c.stored_payload("content"), "$ZEEP:1$Y29udGVudA==");
}

#[test]
fn other_version_row_is_a_miss() {
    let c = SQLiteCache::new(MEMORY_LOCATION, None);
    let older = VersionCacheBase::new("0".to_owned());
    let row = StoredRequest {
        created: now(),
        url: URL.to_owned(),
        content: older.encode_data("content"),
    };
    assert_eq!(c.read(Some(row)).unwrap(), None);
}

#[test]
fn corrupt_row_is_a_decode_error() {
    let c = SQLiteCache::new(MEMORY_LOCATION, None);
    let row = StoredRequest { created: now(), url: URL.to_owned(), content: "$ZEEP:1$@@@".to_owned() };
    match c.read(Some(row)) {
        Err(RustySoapError::Base64Error(_)) => {}
        other => panic!("expected a base64 error, got {:?}", other),
    }
}

#[test]
fn non_text_row_is_a_conversion_error() {
    let c = SQLiteCache::new(MEMORY_LOCATION, None);
    // "/w==" is the single byte 0xFF, which is not UTF-8
    let row = StoredRequest { created: now(), url: URL.to_owned(), content: "$ZEEP:1$/w==".to_owned() };
    match c.read(Some(row)) {
        Err(RustySoapError::UTF8ConversionError(_)) => {}
        other => panic!("expected a conversion error, got {:?}", other),
    }
}

#[test]
fn stale_row_is_not_decoded() {
    let c = SQLiteCache::new(MEMORY_LOCATION, Some(10));
    let row = StoredRequest {
        created: Timestamp::new(0, 0),
        url: URL.to_owned(),
        content: "$ZEEP:1$@@@".to_owned(),
    };
    assert_eq!(c.read_at(Some(row), Timestamp::new(11, 0)).unwrap(), None);
}
