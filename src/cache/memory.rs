//! The in-memory backend: one table of entries, shared by every handle that
//! is given it, and handles that add to it and read from it under their own
//! timeout.
use vstd::prelude::*;

use crate::cache::utils::{current_time, expired_at, is_expired_at, text_of, Timestamp};

verus! {

/// The default timeout of an in-memory handle, in seconds.
pub const DEFAULT_TIMEOUT: i64 = 36000;

/// What a table holds: for each key, when it was written and its content.
pub type TableContents = Map<Seq<char>, (Timestamp, Seq<char>)>;

/// The table after `content` is written under `url` at `at`: any earlier entry
/// for `url` is replaced.
pub open spec fn table_after_add(
    table: TableContents,
    url: Seq<char>,
    at: Timestamp,
    content: Seq<char>,
) -> TableContents {
    table.insert(url, (at, content))
}

/// What a read of `url` at `now` returns under `timeout`: the content, where an
/// entry exists and is not stale.
pub open spec fn live_content(
    table: TableContents,
    url: Seq<char>,
    timeout: Option<i64>,
    now: Timestamp,
) -> Option<Seq<char>> {
    if table.contains_key(url) && !expired_at(table[url].0, timeout, now) {
        Some(table[url].1)
    } else {
        None
    }
}

struct MemoryEntry {
    url: String,
    created: Timestamp,
    content: String,
}

/// The table of cached documents, keyed by URL, one entry per key.
pub struct MemoryTable {
    entries: Vec<MemoryEntry>,
    contents: Ghost<TableContents>,
}

impl View for MemoryTable {
    type V = TableContents;

    closed spec fn view(&self) -> TableContents {
        self.contents@
    }
}

impl MemoryTable {
    /// The entries hold each key once, and are exactly what the view says.
    pub closed spec fn wf(&self) -> bool {
        &&& forall|i: int, j: int|
            0 <= i < j < self.entries@.len() ==> self.entries@[i].url@
                != self.entries@[j].url@
        &&& forall|i: int|
            0 <= i < self.entries@.len() ==> {
                let e = #[trigger] self.entries@[i];
                &&& self.contents@.contains_key(e.url@)
                &&& self.contents@[e.url@] == (e.created, e.content@)
            }
        &&& forall|k: Seq<char>|
            #[trigger] self.contents@.contains_key(k) ==> exists|i: int|
                0 <= i < self.entries@.len() && (#[trigger] self.entries@[i]).url@ == k
    }

    pub fn new() -> (r: MemoryTable)
        ensures
            r.wf(),
            r@ == TableContents::empty(),
    {
        MemoryTable { entries: Vec::new(), contents: Ghost(Map::empty()) }
    }

    /// The position of the entry for `url`, if there is one.
    fn find(&self, url: &str) -> (r: Option<usize>)
        requires
            self.wf(),
        ensures
            match r {
                Some(i) => i < self.entries@.len() && self.entries@[i as int].url@ == url@,
                None => !self@.contains_key(url@),
            },
    {
        let key = url.to_owned();
        let mut i: usize = 0;
        while i < self.entries.len()
            invariant
                self.wf(),
                key@ == url@,
                i <= self.entries@.len(),
                forall|j: int| 0 <= j < i ==> self.entries@[j].url@ != url@,
            decreases self.entries@.len() - i,
        {
            if self.entries[i].url == key {
                return Some(i);
            }
            i = i + 1;
        }
        None
    }

    /// Writes `content` under `url`, as of `created`, replacing any entry for
    /// `url`.
    pub fn insert(&mut self, url: &str, created: Timestamp, content: &str)
        requires
            old(self).wf(),
        ensures
            final(self).wf(),
            final(self)@ == table_after_add(old(self)@, url@, created, content@),
    {
        let entry = MemoryEntry { url: url.to_owned(), created, content: content.to_owned() };
        let ghost old_entries = self.entries@;
        let ghost new_contents = self@.insert(url@, (created, content@));
        match self.find(url) {
            Some(i) => {
                self.entries.set(i, entry);
                self.contents = Ghost(new_contents);
                assert forall|k: Seq<char>| #[trigger] new_contents.contains_key(k) implies exists|
                    j: int,
                |
                    0 <= j < self.entries@.len() && (#[trigger] self.entries@[j]).url@ == k by {
                    if k == url@ {
                        assert(self.entries@[i as int].url@ == k);
                    } else {
                        let j = choose|j: int|
                            0 <= j < old_entries.len() && (#[trigger] old_entries[j]).url@ == k;
                        assert(self.entries@[j].url@ == k);
                    }
                }
            },
            None => {
                self.entries.push(entry);
                self.contents = Ghost(new_contents);
                assert forall|k: Seq<char>| #[trigger] new_contents.contains_key(k) implies exists|
                    j: int,
                |
                    0 <= j < self.entries@.len() && (#[trigger] self.entries@[j]).url@ == k by {
                    if k == url@ {
                        assert(self.entries@[old_entries.len() as int].url@ == k);
                    } else {
                        let j = choose|j: int|
                            0 <= j < old_entries.len() && (#[trigger] old_entries[j]).url@ == k;
                        assert(self.entries@[j].url@ == k);
                    }
                }
            },
        }
    }

    /// The entry for `url`: when it was written, and its content.
    pub fn lookup(&self, url: &str) -> (r: Option<(Timestamp, String)>)
        requires
            self.wf(),
        ensures
            match r {
                Some((at, content)) => self@.contains_key(url@) && self@[url@] == (at, content@),
                None => !self@.contains_key(url@),
            },
    {
        match self.find(url) {
            Some(i) => {
                let e = &self.entries[i];
                Some((e.created, e.content.clone()))
            },
            None => None,
        }
    }
}

/// A handle on an in-memory table. It holds only its timeout: every handle
/// given the same table sees the same entries.
pub struct InMemoryCache {
    timeout: Option<i64>,
}

impl InMemoryCache {
    /// The handle's timeout, in seconds; `None` for no expiry.
    pub closed spec fn timeout(&self) -> Option<i64> {
        self.timeout
    }

    /// A handle with the default timeout.
    pub fn new() -> (r: Self)
        ensures
            r.timeout() == Some(DEFAULT_TIMEOUT),
    {
        InMemoryCache { timeout: Some(DEFAULT_TIMEOUT) }
    }

    /// A handle with the given timeout.
    pub fn with_timeout(timeout: Option<i64>) -> (r: Self)
        ensures
            r.timeout() == timeout,
    {
        InMemoryCache { timeout }
    }

    /// Stores `content` under `url` as written at `now`.
    pub fn add_at(&self, table: &mut MemoryTable, url: &str, content: &str, now: Timestamp)
        requires
            old(table).wf(),
        ensures
            final(table).wf(),
            final(table)@ == table_after_add(old(table)@, url@, now, content@),
    {
        table.insert(url, now, content);
    }

    /// Stores `content` under `url`, stamped with the wall clock.
    pub fn add(&self, table: &mut MemoryTable, url: &str, content: &str)
        requires
            old(table).wf(),
        ensures
            final(table).wf(),
            exists|at: Timestamp| final(table)@ == table_after_add(old(table)@, url@, at, content@),
    {
        let now = current_time();
        self.add_at(table, url, content, now);
    }

    /// Reads `url` as of `now`: the content if an entry exists and is not
    /// stale under this handle's timeout.
    pub fn get_at(&self, table: &MemoryTable, url: &str, now: Timestamp) -> (r: Option<String>)
        requires
            table.wf(),
        ensures
            text_of(r) == live_content(table@, url@, self.timeout(), now),
    {
        match table.lookup(url) {
            Some((created, content)) => {
                if is_expired_at(&created, self.timeout, &now) {
                    None
                } else {
                    Some(content)
                }
            },
            None => None,
        }
    }

    /// Reads `url` against the wall clock.
    pub fn get(&self, table: &MemoryTable, url: &str) -> (r: Option<String>)
        requires
            table.wf(),
        ensures
            exists|now: Timestamp| text_of(r) == live_content(table@, url@, self.timeout(), now),
    {
        let now = current_time();
        self.get_at(table, url, now)
    }
}

/// A write through one handle is seen by a read through any other handle on
/// the same table, whatever that handle's timeout, as long as the entry is not
/// stale under it.
pub proof fn lemma_handles_share_table(
    writer: InMemoryCache,
    reader: InMemoryCache,
    table: TableContents,
    url: Seq<char>,
    content: Seq<char>,
    written_at: Timestamp,
    now: Timestamp,
)
    ensures
        live_content(table_after_add(table, url, written_at, content), url, reader.timeout(), now)
            == if expired_at(written_at, reader.timeout(), now) {
            None
        } else {
            Some(content)
        },
        reader.timeout() is None ==> live_content(
            table_after_add(table, url, written_at, content),
            url,
            reader.timeout(),
            now,
        ) == Some(content),
{
}

/// Two writes under one key leave one entry: the later write, as if the
/// earlier one had not happened.
pub proof fn lemma_add_replaces(
    table: TableContents,
    url: Seq<char>,
    first_at: Timestamp,
    first: Seq<char>,
    second_at: Timestamp,
    second: Seq<char>,
)
    ensures
        table_after_add(table_after_add(table, url, first_at, first), url, second_at, second)
            == table_after_add(table, url, second_at, second),
        table_after_add(table_after_add(table, url, first_at, first), url, second_at, second)[url]
            == (second_at, second),
{
    assert(table_after_add(table_after_add(table, url, first_at, first), url, second_at, second)
        =~= table_after_add(table, url, second_at, second));
}

/// A read of a key that was never written returns nothing.
pub proof fn lemma_unknown_key_misses(
    table: TableContents,
    url: Seq<char>,
    timeout: Option<i64>,
    now: Timestamp,
)
    requires
        !table.contains_key(url),
    ensures
        live_content(table, url, timeout, now) is None,
{
}

} // verus!
