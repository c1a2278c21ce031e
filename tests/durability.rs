use chrono::{DateTime, Utc};
use rusty_soap::cache::sqlite::{
    SQLiteCache, StoredRequest, CREATE_TABLE, DELETE_URL, INSERT_ROW, SELECT_URL,
};
use rusty_soap::cache::utils::Timestamp;
use sqlx::{Connection, Row, SqliteConnection};

const URL: &str = "http://tests.python-zeep.org/example.wsdl";

async fn open(cache: &SQLiteCache) -> SqliteConnection {
    if cache.needs_file() {
        tokio::fs::OpenOptions::new()
            .create(true)
            .write(true)
            .open(cache.location())
            .await
            .unwrap();
    }
    let mut conn = SqliteConnection::connect(cache.location()).await.unwrap();
    sqlx::query(CREATE_TABLE).execute(&mut conn).await.unwrap();
    conn
}

async fn add(conn: &mut SqliteConnection, cache: &SQLiteCache, url: &str, content: &str) {
    let data = cache.stored_payload(content);
    sqlx::query(DELETE_URL).bind(url).execute(&mut *conn).await.unwrap();
    sqlx::query(INSERT_ROW)
        .bind(Utc::now())
        .bind(url)
        .bind(data)
        .execute(&mut *conn)
        .await
        .unwrap();
}

async fn get(conn: &mut SqliteConnection, cache: &SQLiteCache, url: &str) -> Option<String> {
    let found = sqlx::query(SELECT_URL).bind(url).fetch_optional(&mut *conn).await.unwrap();
    let row = found.map(|row| {
        let created: DateTime<Utc> = row.try_get("created").unwrap();
        StoredRequest {
            created: Timestamp::new(created.timestamp(), created.timestamp_subsec_nanos()),
            url: row.try_get("url").unwrap(),
            content: row.try_get("content").unwrap(),
        }
    });
    cache.read(row).unwrap()
}

async fn count(conn: &mut SqliteConnection, url: &str) -> i64 {
    let row = sqlx::query("SELECT COUNT(*) AS n FROM request WHERE url = ?")
        .bind(url)
        .fetch_one(&mut *conn)
        .await
        .unwrap();
    row.try_get("n").unwrap()
}

#[test]
fn reopened_store_keeps_entries_and_upserts() {
    let path = "/tmp/rusty_soap_durability_test.db";
    let rt = tokio::runtime::Runtime::new().unwrap();
    rt.block_on(async {
        tokio::fs::remove_file(path).await.ok();
        let cache = SQLiteCache::new(path, None);

        let mut conn = open(&cache).await;
        assert_eq!(get(&mut conn, &cache, URL).await, None);
        add(&mut conn, &cache, URL, "first").await;
        add(&mut conn, &cache, URL, "content").await;
        conn.close().await.unwrap();

        let mut conn = open(&cache).await;
        assert_eq!(get(&mut conn, &cache, URL).await, Some("content".to_owned()));
        assert_eq!(count(&mut conn, URL).await, 1);
        assert_eq!(get(&mut conn, &cache, "http://host/other.xsd").await, None);
        conn.close().await.unwrap();

        tokio::fs::remove_file(path).await.ok();
    });
}

#[test]
fn in_memory_store_round_trip() {
    let rt = tokio::runtime::Runtime::new().unwrap();
    rt.block_on(async {
        let cache = SQLiteCache::new("sqlite::memory:", None);
        let mut conn = open(&cache).await;
        add(&mut conn, &cache, URL, "content").await;
        assert_eq!(get(&mut conn, &cache, URL).await, Some("content".to_owned()));
    });
}
