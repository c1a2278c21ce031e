//! The persistent backend's logic: one table `request(created, url, content)`
//! whose `content` column holds versioned payloads. Running the statements is
//! left to the caller; this module decides what to store and what a stored
//! row yields.
use vstd::prelude::*;
use vstd::string::*;
use vstd::utf8::{
    decode_utf8, encode_utf8, encode_utf8_decode_utf8, encode_utf8_valid_utf8, valid_utf8,
};

use crate::cache::utils::{
    base64_len, current_time, decoded_payload, encoded_payload, expired_at, fits_in_memory,
    is_base64_char, is_expired_at, version_tag, Timestamp, VersionCacheBase,
};
use crate::exceptions::RustySoapError;

verus! {

/// The location that names a store held in memory rather than in a file.
pub const MEMORY_LOCATION: &'static str = "sqlite::memory:";

/// The codec version of payloads in the persistent store.
pub const CODEC_VERSION: &'static str = "1";

/// The statement that creates the table, where it does not exist yet.
pub const CREATE_TABLE: &'static str = "CREATE TABLE IF NOT EXISTS request (created timestamp, url text, content text)";

/// The statement that removes every row of a key.
pub const DELETE_URL: &'static str = "DELETE FROM request WHERE url = ?";

/// The statement that stores a row.
pub const INSERT_ROW: &'static str = "INSERT INTO request (created, url, content) VALUES (?1, ?2, ?3)";

/// The statement that fetches the row of a key.
pub const SELECT_URL: &'static str = "SELECT created, content, url FROM request WHERE url = ?";

/// Relies on `core::str::from_utf8`: it accepts exactly the valid UTF-8 byte
/// sequences, and then reads them as text.
pub assume_specification[ core::str::from_utf8 ](v: &[u8]) -> (r: Result<
    &str,
    core::str::Utf8Error,
>)
    ensures
        r is Ok <==> valid_utf8(v@),
        r matches Ok(s) ==> s@ == decode_utf8(v@),
;

/// A row of the table, as read back.
pub struct StoredRequest {
    pub created: Timestamp,
    pub url: String,
    pub content: String,
}

/// What reading a row comes to.
pub enum ReadOutcome {
    /// No row, a stale row, or a payload of another codec version.
    Miss,
    /// The text stored.
    Hit(Seq<char>),
    /// The payload's body is not valid base64.
    BadPayload,
    /// The decoded bytes are not UTF-8 text.
    BadText,
}

/// What a read at `now` yields for `row`, under `timeout` and codec `version`.
pub open spec fn read_outcome(
    row: Option<StoredRequest>,
    timeout: Option<i64>,
    version: Seq<char>,
    now: Timestamp,
) -> ReadOutcome {
    match row {
        None => ReadOutcome::Miss,
        Some(e) => if expired_at(e.created, timeout, now) {
            ReadOutcome::Miss
        } else {
            match decoded_payload(e.content@, version) {
                None => ReadOutcome::Miss,
                Some(None) => ReadOutcome::BadPayload,
                Some(Some(bytes)) => if valid_utf8(bytes) {
                    ReadOutcome::Hit(decode_utf8(bytes))
                } else {
                    ReadOutcome::BadText
                },
            }
        },
    }
}

/// Whether a read result is what `outcome` says.
pub open spec fn answers(r: Result<Option<String>, RustySoapError>, outcome: ReadOutcome) -> bool {
    match outcome {
        ReadOutcome::Miss => r matches Ok(None),
        ReadOutcome::Hit(text) => r matches Ok(Some(s)) && s@ == text,
        ReadOutcome::BadPayload => r matches Err(RustySoapError::Base64Error(_)),
        ReadOutcome::BadText => r matches Err(RustySoapError::UTF8ConversionError(_)),
    }
}

/// Whether a row's payload is small enough to decode.
pub open spec fn row_fits(row: Option<StoredRequest>) -> bool {
    row matches Some(e) ==> fits_in_memory(encode_utf8(e.content@).len() as int)
}

/// The persistent backend's configuration: where the store lives, the
/// timeout, and the codec of its payloads.
pub struct SQLiteCache {
    version_cache_base: VersionCacheBase,
    path: String,
    timeout: Option<i64>,
}

impl SQLiteCache {
    pub closed spec fn path(&self) -> Seq<char> {
        self.path@
    }

    /// The timeout, in seconds; `None` for no expiry.
    pub closed spec fn timeout(&self) -> Option<i64> {
        self.timeout
    }

    /// The codec version of the payloads.
    pub closed spec fn version(&self) -> Seq<char> {
        self.version_cache_base.version()
    }

    pub fn new(path: &str, timeout: Option<i64>) -> (r: Self)
        ensures
            r.path() == path@,
            r.timeout() == timeout,
            r.version() == CODEC_VERSION@,
    {
        let version_cache_base = VersionCacheBase::new(String::from_str(CODEC_VERSION));
        SQLiteCache { version_cache_base, path: path.to_owned(), timeout }
    }

    /// Where the store lives.
    pub fn location(&self) -> (r: &str)
        ensures
            r@ == self.path(),
    {
        self.path.as_str()
    }

    /// Whether the store lives in a file, which must exist before a
    /// connection is opened: every location but the in-memory one.
    pub fn needs_file(&self) -> (r: bool)
        ensures
            r == (self.path() != MEMORY_LOCATION@),
    {
        let memory = String::from_str(MEMORY_LOCATION);
        !(self.path == memory)
    }

    /// The payload to store for `content`.
    pub fn stored_payload(&self, content: &str) -> (r: String)
        requires
            fits_in_memory(content.spec_bytes().len() as int),
        ensures
            r@ == encoded_payload(content@, self.version()),
            decoded_payload(r@, self.version()) == Some(Some(encode_utf8(content@))),
            r@.len() == version_tag(self.version()).len() + base64_len(
                encode_utf8(content@).len() as int,
            ),
            forall|i: int|
                version_tag(self.version()).len() <= i < r@.len() ==> is_base64_char(
                    #[trigger] r@[i],
                ),
            encode_utf8(r@).len() == encode_utf8(version_tag(self.version())).len() + base64_len(
                encode_utf8(content@).len() as int,
            ),
    {
        self.version_cache_base.encode_data(content)
    }

    /// What the row fetched for a key yields at `now`: nothing for no row, a
    /// stale row or a payload of another codec version; an error for a
    /// corrupt payload; else the text stored.
    pub fn read_at(&self, row: Option<StoredRequest>, now: Timestamp) -> (r: Result<
        Option<String>,
        RustySoapError,
    >)
        requires
            row_fits(row),
        ensures
            answers(r, read_outcome(row, self.timeout(), self.version(), now)),
    {
        match row {
            None => Ok(None),
            Some(e) => {
                if is_expired_at(&e.created, self.timeout, &now) {
                    return Ok(None);
                }
                match self.version_cache_base.decode_data(e.content.as_str()) {
                    None => Ok(None),
                    Some(Err(err)) => Err(err),
                    Some(Ok(bytes)) => match core::str::from_utf8(bytes.as_slice()) {
                        Ok(text) => Ok(Some(text.to_owned())),
                        Err(err) => Err(RustySoapError::UTF8ConversionError(err)),
                    },
                }
            },
        }
    }

    /// What the row fetched for a key yields, judged against the wall clock.
    pub fn read(&self, row: Option<StoredRequest>) -> (r: Result<Option<String>, RustySoapError>)
        requires
            row_fits(row),
        ensures
            exists|now: Timestamp| answers(r, read_outcome(row, self.timeout(), self.version(), now)),
            row is None ==> r matches Ok(None),
    {
        let now = current_time();
        self.read_at(row, now)
    }
}

/// A row that holds the payload written for `content` reads back as that
/// content, unless it is stale at the read; with no timeout it always does.
pub proof fn lemma_stored_row_reads_back(
    cache: SQLiteCache,
    row: StoredRequest,
    content: Seq<char>,
    now: Timestamp,
)
    requires
        row.content@ == encoded_payload(content, cache.version()),
        decoded_payload(row.content@, cache.version()) == Some(Some(encode_utf8(content))),
    ensures
        read_outcome(Some(row), cache.timeout(), cache.version(), now) == if expired_at(
            row.created,
            cache.timeout(),
            now,
        ) {
            ReadOutcome::Miss
        } else {
            ReadOutcome::Hit(content)
        },
        cache.timeout() is None ==> read_outcome(Some(row), cache.timeout(), cache.version(), now)
            == ReadOutcome::Hit(content),
{
    encode_utf8_valid_utf8(content);
    encode_utf8_decode_utf8(content);
}

/// A read with no row for the key is a miss, never an error.
pub proof fn lemma_missing_row_misses(cache: SQLiteCache, now: Timestamp)
    ensures
        read_outcome(None, cache.timeout(), cache.version(), now) == ReadOutcome::Miss,
{
}

} // verus!
