//! The expiry policy and the versioned payload codec shared by every backend.
use vstd::prelude::*;
use vstd::string::*;
use vstd::utf8::{encode_scalar, encode_utf8, is_ascii_chars, is_ascii_chars_encode_utf8};

use crate::exceptions::RustySoapError;

verus! {

/// Nanoseconds in one second.
pub const NANOS_PER_SEC: i128 = 1_000_000_000;

/// A point in time, in UTC: whole seconds since the Unix epoch and the
/// nanoseconds past that second.
#[derive(Clone, Copy, Debug, PartialEq, Eq, Structural)]
pub struct Timestamp {
    pub secs: i64,
    pub nanos: u32,
}

impl Timestamp {
    /// The instant as a count of nanoseconds since the Unix epoch.
    pub open spec fn total_nanos(self) -> int {
        self.secs * 1_000_000_000 + self.nanos
    }

    pub fn new(secs: i64, nanos: u32) -> (r: Timestamp)
        ensures
            r.secs == secs,
            r.nanos == nanos,
    {
        Timestamp { secs, nanos }
    }
}

/// The text held by an optional string.
pub open spec fn text_of(o: Option<String>) -> Option<Seq<char>> {
    match o {
        Some(s) => Some(s@),
        None => None,
    }
}

/// Whether an entry created at `created` is stale at `now` under `timeout`
/// (in seconds): never without a timeout, else once `now` is past
/// `created + timeout`.
pub open spec fn expired_at(created: Timestamp, timeout: Option<i64>, now: Timestamp) -> bool {
    match timeout {
        None => false,
        Some(t) => now.total_nanos() > created.total_nanos() + t * 1_000_000_000,
    }
}

/// Relies on chrono's `Utc::now`, and on `DateTime::timestamp` and
/// `DateTime::timestamp_subsec_nanos` to read it as seconds and nanoseconds.
/// `Utc::now` measures the system time since the Unix epoch (it panics on a
/// clock set before it) and keeps that duration's sub-second nanoseconds, so
/// the value is never before the epoch and its nanoseconds stay under one
/// second. Nothing else is promised: it is the wall clock.
#[verifier::external_body]
pub(crate) fn current_time() -> (r: Timestamp)
    ensures
        r.secs >= 0,
        r.nanos < 1_000_000_000,
{
    let now = chrono::Utc::now();
    Timestamp { secs: now.timestamp(), nanos: now.timestamp_subsec_nanos() }
}

/// Decides expiry against an explicitly given "now".
pub fn is_expired_at(value: &Timestamp, timeout: Option<i64>, now: &Timestamp) -> (r: bool)
    ensures
        r == expired_at(*value, timeout, *now),
{
    match timeout {
        None => false,
        Some(t) => {
            let now_total: i128 = now.secs as i128 * NANOS_PER_SEC + now.nanos as i128;
            let deadline: i128 = value.secs as i128 * NANOS_PER_SEC + value.nanos as i128
                + t as i128 * NANOS_PER_SEC;
            now_total > deadline
        },
    }
}

/// Whether `value` is stale under `timeout`, judged against the wall clock
/// read at the time of the call.
pub fn is_expired(value: &Timestamp, timeout: Option<i64>) -> (r: bool)
    ensures
        timeout is None ==> !r,
        exists|now: Timestamp|
            now.secs >= 0 && now.nanos < 1_000_000_000 && r == expired_at(*value, timeout, now),
{
    let now = current_time();
    is_expired_at(value, timeout, &now)
}


/// What base64 encoding (standard alphabet, with padding) makes of `b`.
pub uninterp spec fn base64_of(b: Seq<u8>) -> Seq<char>;

/// What base64 decoding (standard alphabet) makes of `s`: `None` where `s` is
/// not valid base64.
pub uninterp spec fn base64_decoded(s: Seq<char>) -> Option<Seq<u8>>;

/// The length of the padded base64 text of `n` bytes: four characters for
/// each group of three bytes, the last group padded.
pub open spec fn base64_len(n: int) -> int {
    4 * ((n + 2) / 3)
}

/// The characters of the standard base64 alphabet, padding included.
pub open spec fn is_base64_char(c: char) -> bool {
    ('A' <= c <= 'Z') || ('a' <= c <= 'z') || ('0' <= c <= '9') || c == '+' || c == '/'
        || c == '='
}

/// The largest byte length that a string or buffer of this library may have.
pub open spec fn fits_in_memory(n: int) -> bool {
    n <= isize::MAX
}

/// Relies on `base64::encode`: the standard alphabet with padding, which
/// decodes back to the input. It panics only where the encoded length would
/// overflow `usize`.
#[verifier::external_body]
fn base64_encode(bytes: &[u8]) -> (r: String)
    requires
        fits_in_memory(bytes@.len() as int),
    ensures
        r@ == base64_of(bytes@),
        r@.len() == base64_len(bytes@.len() as int),
        base64_decoded(r@) == Some(bytes@),
        forall|i: int| 0 <= i < r@.len() ==> is_base64_char(#[trigger] r@[i]),
{
    base64::encode(bytes)
}

/// Relies on `base64::decode`: the bytes that `text` encodes, or the error
/// found. It panics only where the input length plus three overflows `usize`.
#[verifier::external_body]
fn base64_decode(text: &str) -> (r: Result<Vec<u8>, base64::DecodeError>)
    requires
        fits_in_memory(text.spec_bytes().len() as int),
    ensures
        r is Ok <==> base64_decoded(text@) is Some,
        r matches Ok(v) ==> base64_decoded(text@) == Some(v@),
{
    base64::decode(text)
}

/// The tag that marks a payload written by codec version `version`.
pub open spec fn version_tag(version: Seq<char>) -> Seq<char> {
    seq!['$', 'Z', 'E', 'E', 'P', ':'] + version + seq!['$']
}

/// The payload that stores the text `content` under codec version `version`:
/// the tag, then the base64 of the text's UTF-8 bytes.
pub open spec fn encoded_payload(content: Seq<char>, version: Seq<char>) -> Seq<char> {
    version_tag(version) + base64_of(encode_utf8(content))
}

/// What a payload holds for codec version `version`: `None` where it does not
/// start with that version's tag; else `Some` of the decoded bytes, or
/// `Some(None)` where what follows the tag is not valid base64.
pub open spec fn decoded_payload(payload: Seq<char>, version: Seq<char>) -> Option<Option<Seq<u8>>> {
    let tag = version_tag(version);
    if tag.len() <= payload.len() && payload.subrange(0, tag.len() as int) == tag {
        Some(base64_decoded(payload.subrange(tag.len() as int, payload.len() as int)))
    } else {
        None
    }
}

/// The UTF-8 encoding of a concatenation is the concatenation of the encodings.
pub proof fn lemma_encode_utf8_concat(a: Seq<char>, b: Seq<char>)
    ensures
        encode_utf8(a + b) == encode_utf8(a) + encode_utf8(b),
    decreases a.len(),
{
    if a.len() == 0 {
        assert(a + b =~= b);
        assert(encode_utf8(a) =~= Seq::<u8>::empty());
        assert(encode_utf8(a) + encode_utf8(b) =~= encode_utf8(b));
    } else {
        lemma_encode_utf8_concat(a.drop_first(), b);
        assert((a + b).drop_first() =~= a.drop_first() + b);
        assert((a + b)[0] == a[0]);
        assert(encode_utf8(a + b) =~= encode_scalar(a[0] as u32) + encode_utf8(a.drop_first() + b));
        assert(encode_utf8(a) =~= encode_scalar(a[0] as u32) + encode_utf8(a.drop_first()));
        assert(encode_utf8(a + b) =~= encode_utf8(a) + encode_utf8(b));
    }
}

/// Whether a version text is free of the tag's delimiter `$`.
pub open spec fn free_of_delimiter(version: Seq<char>) -> bool {
    forall|i: int| 0 <= i < version.len() ==> version[i] != '$'
}

/// A payload tagged for one version, with a base64 body, is never taken for a
/// payload of another version.
proof fn lemma_other_version_misses(v1: Seq<char>, v2: Seq<char>, body: Seq<char>)
    requires
        v1 != v2,
        free_of_delimiter(v1),
        forall|i: int| 0 <= i < body.len() ==> is_base64_char(#[trigger] body[i]),
    ensures
        decoded_payload(version_tag(v1) + body, v2) is None,
{
    let p = version_tag(v1) + body;
    let t2 = version_tag(v2);
    if t2.len() <= p.len() && p.subrange(0, t2.len() as int) == t2 {
        if v2.len() == v1.len() {
            assert forall|j: int| 0 <= j < v1.len() implies v1[j] == v2[j] by {
                assert(p[6 + j] == v1[j]);
                assert(t2[6 + j] == v2[j]);
                assert(p.subrange(0, t2.len() as int)[6 + j] == p[6 + j]);
            }
            assert(v1 =~= v2);
        } else if v2.len() < v1.len() {
            let j = v2.len() as int;
            assert(p[6 + j] == v1[j]);
            assert(t2[6 + j] == '$');
            assert(p.subrange(0, t2.len() as int)[6 + j] == p[6 + j]);
        } else {
            let j = v2.len() as int;
            let k = j - v1.len() - 1;
            assert(p[6 + j] == body[k]);
            assert(t2[6 + j] == '$');
            assert(p.subrange(0, t2.len() as int)[6 + j] == p[6 + j]);
        }
    }
}

/// Whether `s` begins with `prefix`.
fn starts_with(s: &str, prefix: &str) -> (r: bool)
    ensures
        r == (prefix@.len() <= s@.len() && s@.subrange(0, prefix@.len() as int) == prefix@),
{
    let n = s.unicode_len();
    let k = prefix.unicode_len();
    if k > n {
        return false;
    }
    let mut i: usize = 0;
    while i < k
        invariant
            k == prefix@.len(),
            n == s@.len(),
            k <= n,
            i <= k,
            forall|j: int| 0 <= j < i ==> s@[j] == prefix@[j],
        decreases k - i,
    {
        if s.get_char(i) != prefix.get_char(i) {
            assert(s@.subrange(0, k as int)[i as int] != prefix@[i as int]);
            return false;
        }
        i = i + 1;
    }
    assert(s@.subrange(0, k as int) =~= prefix@);
    true
}

/// The versioned codec: payloads carry a tag naming the version that wrote
/// them, so that a payload of another version is never misread.
pub struct VersionCacheBase {
    version: String,
}

impl VersionCacheBase {
    /// The codec version, as text.
    pub closed spec fn version(&self) -> Seq<char> {
        self.version@
    }

    pub fn new(version: String) -> (r: Self)
        ensures
            r.version() == version@,
    {
        Self { version }
    }

    /// The tag that prefixes every payload of this codec version.
    pub fn version_string(&self) -> (r: String)
        ensures
            r@ == version_tag(self.version()),
    {
        let mut prefix = String::from_str("$ZEEP:");
        prefix.append(self.version.as_str());
        prefix.append("$");
        proof {
            reveal_strlit("$ZEEP:");
            reveal_strlit("$");
        }
        assert(prefix@ =~= version_tag(self.version()));
        prefix
    }

    /// Encodes text as a payload of this codec version.
    pub fn encode_data(&self, data: &str) -> (r: String)
        requires
            fits_in_memory(data.spec_bytes().len() as int),
        ensures
            r@ == encoded_payload(data@, self.version()),
            decoded_payload(r@, self.version()) == Some(Some(encode_utf8(data@))),
            r@.len() == version_tag(self.version()).len() + base64_len(
                encode_utf8(data@).len() as int,
            ),
            forall|i: int|
                version_tag(self.version()).len() <= i < r@.len() ==> is_base64_char(
                    #[trigger] r@[i],
                ),
            encode_utf8(r@).len() == encode_utf8(version_tag(self.version())).len() + base64_len(
                encode_utf8(data@).len() as int,
            ),
            forall|other: Seq<char>|
                other != self.version() && free_of_delimiter(self.version())
                    ==> (#[trigger] decoded_payload(r@, other)) is None,
    {
        let encoded = base64_encode(data.as_bytes());
        let mut payload = self.version_string();
        payload.append(encoded.as_str());
        proof {
            let tag = version_tag(self.version());
            assert(payload@.subrange(0, tag.len() as int) =~= tag);
            assert(payload@.subrange(tag.len() as int, payload@.len() as int) =~= encoded@);
            assert(payload@ =~= tag + encoded@);
            lemma_encode_utf8_concat(tag, encoded@);
            assert(is_ascii_chars(encoded@));
            is_ascii_chars_encode_utf8(encoded@);
            assert forall|other: Seq<char>|
                other != self.version() && free_of_delimiter(self.version())
                    implies (#[trigger] decoded_payload(payload@, other)) is None by {
                lemma_other_version_misses(self.version(), other, encoded@);
            }
        }
        payload
    }

    /// Decodes a payload: `None` where it was not written by this codec
    /// version, an error where its body is not valid base64, else the bytes
    /// it holds.
    pub fn decode_data(&self, data: &str) -> (r: Option<Result<Vec<u8>, RustySoapError>>)
        requires
            fits_in_memory(data.spec_bytes().len() as int),
        ensures
            match r {
                None => decoded_payload(data@, self.version()) is None,
                Some(Ok(v)) => decoded_payload(data@, self.version()) == Some(Some(v@)),
                Some(Err(e)) => decoded_payload(data@, self.version()) == Some(None::<Seq<u8>>)
                    && e is Base64Error,
            },
    {
        let tag = self.version_string();
        if starts_with(data, tag.as_str()) {
            let n = data.unicode_len();
            let k = tag.as_str().unicode_len();
            let rest = data.substring_char(k, n);
            proof {
                assert(data@ =~= data@.subrange(0, k as int) + rest@);
                lemma_encode_utf8_concat(data@.subrange(0, k as int), rest@);
            }
            match base64_decode(rest) {
                Ok(v) => Some(Ok(v)),
                Err(e) => Some(Err(RustySoapError::Base64Error(e))),
            }
        } else {
            None
        }
    }
}

} // verus!
