//! Session storage in memory.
//!
//! [`MemoryStore`] is the records themselves, a value with one owner. Its
//! contracts say exactly what it holds after each write and what each read
//! finds.
//!
//! [`MemoryBackend`] is a handle on a store behind a lock: every handle that
//! a maker hands out reads and writes the same records. Each of its
//! operations takes the lock, does the store's operation, and gives the lock
//! back. What it finds depends on what the other handles did in between, so
//! its own contracts say only what holds whatever they did.

use crate::backend::{Backend, ConfigError, NewBackend};
use crate::error::SessionError;
use crate::handle::share;
use crate::identifier::{hex_text, random_identifier, SessionIdentifier, IDENTIFIER_BYTES};
use std::sync::Arc;
use vstd::rwlock::{RwLock, RwLockPredicate};
use vstd::prelude::*;
use vstd::slice::slice_to_vec;

verus! {

/// One stored session: its identifier's text and its payload.
struct Record {
    key: String,
    content: Vec<u8>,
}

/// The payload of the first record stored under `key`, if there is one.
spec fn lookup(records: Seq<Record>, key: Seq<char>) -> Option<Seq<u8>>
    decreases records.len(),
{
    if records.len() == 0 {
        None
    } else if records[0].key@ == key {
        Some(records[0].content@)
    } else {
        lookup(records.drop_first(), key)
    }
}

/// The records as a map from identifier text to payload.
spec fn map_of(records: Seq<Record>) -> Map<Seq<char>, Seq<u8>> {
    Map::new(
        |key: Seq<char>| lookup(records, key) is Some,
        |key: Seq<char>| lookup(records, key)->0,
    )
}

/// A record that no earlier record shadows is the one that is found.
proof fn lemma_lookup_first(records: Seq<Record>, key: Seq<char>, i: int)
    requires
        0 <= i < records.len(),
        records[i].key@ == key,
        forall|j: int| 0 <= j < i ==> (#[trigger] records[j]).key@ != key,
    ensures
        lookup(records, key) == Some(records[i].content@),
    decreases i,
{
    if i > 0 {
        let rest = records.drop_first();
        assert(records[0].key@ != key);
        assert forall|j: int| 0 <= j < i - 1 implies (#[trigger] rest[j]).key@ != key by {
            assert(records[j + 1].key@ != key);
        }
        lemma_lookup_first(rest, key, i - 1);
    }
}

/// Where no record has the key, nothing is found.
proof fn lemma_lookup_absent(records: Seq<Record>, key: Seq<char>)
    requires
        forall|j: int| 0 <= j < records.len() ==> (#[trigger] records[j]).key@ != key,
    ensures
        lookup(records, key) is None,
    decreases records.len(),
{
    if records.len() > 0 {
        let rest = records.drop_first();
        assert(records[0].key@ != key);
        assert forall|j: int| 0 <= j < rest.len() implies (#[trigger] rest[j]).key@ != key by {
            assert(records[j + 1].key@ != key);
        }
        lemma_lookup_absent(rest, key);
    }
}

/// Replacing the first record under a key by another record with that key
/// changes what is found under that key, and nothing else.
proof fn lemma_lookup_replaced(records: Seq<Record>, i: int, record: Record, key: Seq<char>)
    requires
        0 <= i < records.len(),
        records[i].key@ == record.key@,
        forall|j: int| 0 <= j < i ==> (#[trigger] records[j]).key@ != record.key@,
    ensures
        lookup(records.update(i, record), key) == if key == record.key@ {
            Some(record.content@)
        } else {
            lookup(records, key)
        },
    decreases i,
{
    let after = records.update(i, record);
    if i == 0 {
        assert(after.drop_first() =~= records.drop_first());
    } else {
        let rest = records.drop_first();
        assert(records[0].key@ != record.key@);
        assert(after[0] == records[0]);
        assert forall|j: int| 0 <= j < i - 1 implies (#[trigger] rest[j]).key@
            != record.key@ by {
            assert(records[j + 1].key@ != record.key@);
        }
        assert(after.drop_first() =~= rest.update(i - 1, record));
        lemma_lookup_replaced(rest, i - 1, record, key);
    }
}

/// A record added at the end is found under its key where no other record
/// has that key, and changes nothing under any other key.
proof fn lemma_lookup_pushed(records: Seq<Record>, record: Record, key: Seq<char>)
    ensures
        lookup(records.push(record), key) == if lookup(records, key) is Some {
            lookup(records, key)
        } else if key == record.key@ {
            Some(record.content@)
        } else {
            None
        },
    decreases records.len(),
{
    let after = records.push(record);
    if records.len() == 0 {
        assert(after.drop_first() =~= records);
    } else {
        assert(after[0] == records[0]);
        assert(after.drop_first() =~= records.drop_first().push(record));
        lemma_lookup_pushed(records.drop_first(), record, key);
    }
}

/// The records of a session store: a map from identifier to payload, with
/// nothing expiring and nothing failing. Whoever owns the value is the only
/// one to read and write it.
///
/// A store can serve as the backend of one request at a time: the request
/// gives it back when it ends, and a request that fails before its handlers
/// run lets go of it. Records that are to outlive any one request belong
/// behind a [`MemoryBackend`].
pub struct MemoryStore {
    records: Vec<Record>,
}

impl View for MemoryStore {
    type V = Map<Seq<char>, Seq<u8>>;

    closed spec fn view(&self) -> Map<Seq<char>, Seq<u8>> {
        map_of(self.records@)
    }
}

impl MemoryStore {
    /// An empty store.
    pub fn new() -> (r: Self)
        ensures
            r@ == Map::<Seq<char>, Seq<u8>>::empty(),
    {
        let r = MemoryStore { records: Vec::new() };
        assert(r@ =~= Map::<Seq<char>, Seq<u8>>::empty());
        r
    }

    /// Index of the first record stored under `key`, if there is one.
    fn find(&self, key: &String) -> (r: Option<usize>)
        ensures
            match r {
                Some(i) => i < self.records@.len() && self.records@[i as int].key@ == key@
                    && forall|j: int| 0 <= j < i ==> (#[trigger] self.records@[j]).key@ != key@,
                None => forall|j: int|
                    0 <= j < self.records@.len() ==> (#[trigger] self.records@[j]).key@ != key@,
            },
    {
        let mut i: usize = 0;
        while i < self.records.len()
            invariant
                i <= self.records@.len(),
                forall|j: int| 0 <= j < i ==> (#[trigger] self.records@[j]).key@ != key@,
            decreases self.records@.len() - i,
        {
            if self.records[i].key == *key {
                return Some(i);
            }
            i += 1;
        }
        None
    }

    /// Whether a session is stored under `identifier`.
    pub fn contains(&self, identifier: &SessionIdentifier) -> (r: bool)
        ensures
            r == self@.contains_key(identifier@),
    {
        match self.find(identifier.as_string()) {
            Some(i) => {
                proof {
                    lemma_lookup_first(self.records@, identifier@, i as int);
                }
                true
            },
            None => {
                proof {
                    lemma_lookup_absent(self.records@, identifier@);
                }
                false
            },
        }
    }
}

impl Default for MemoryStore {
    fn default() -> (r: Self)
        ensures
            r@ == Map::<Seq<char>, Seq<u8>>::empty(),
    {
        MemoryStore::new()
    }
}

impl Backend for MemoryStore {
    /// Identifiers are the hexadecimal texts of `IDENTIFIER_BYTES` random
    /// bytes.
    open spec fn mints(&self, identifier: Seq<char>) -> bool {
        exists|bytes: Seq<u8>|
            #[trigger] bytes.len() == IDENTIFIER_BYTES && identifier == hex_text(bytes)
    }

    /// Reading never fails: it yields the stored payload, or `None` where
    /// nothing is stored under the identifier.
    open spec fn reads(
        &self,
        identifier: Seq<char>,
        outcome: Result<Option<Vec<u8>>, SessionError>,
    ) -> bool {
        match outcome {
            Ok(Some(content)) => self@.contains_key(identifier) && self@[identifier] == content@,
            Ok(None) => !self@.contains_key(identifier),
            Err(_) => false,
        }
    }

    /// Storing never fails: afterwards the identifier maps to the new
    /// payload and every other record is as it was.
    open spec fn persists(
        &self,
        identifier: Seq<char>,
        content: Seq<u8>,
        after: Self,
        stored: bool,
    ) -> bool {
        stored && after@ == self@.insert(identifier, content)
    }

    fn random_identifier(&self) -> (r: SessionIdentifier) {
        random_identifier()
    }

    fn read_session(&self, identifier: SessionIdentifier) -> (r: Result<
        Option<Vec<u8>>,
        SessionError,
    >) {
        match self.find(identifier.as_string()) {
            Some(i) => {
                proof {
                    lemma_lookup_first(self.records@, identifier@, i as int);
                }
                let content = self.records[i].content.clone();
                assert(content@ =~= self.records@[i as int].content@);
                Ok(Some(content))
            },
            None => {
                proof {
                    lemma_lookup_absent(self.records@, identifier@);
                }
                Ok(None)
            },
        }
    }

    fn persist_session(&mut self, identifier: SessionIdentifier, content: &[u8]) -> (r: Result<
        (),
        SessionError,
    >) {
        let ghost before = self.records@;
        let record = Record { key: identifier.into_string(), content: slice_to_vec(content) };
        let ghost stored = record;
        match self.find(&record.key) {
            Some(i) => {
                self.records.set(i, record);
                assert(self@ =~= old(self)@.insert(identifier@, content@)) by {
                    assert forall|key: Seq<char>|
                        lookup(self.records@, key) == if key == identifier@ {
                            Some(content@)
                        } else {
                            lookup(before, key)
                        } by {
                        lemma_lookup_replaced(before, i as int, stored, key);
                    }
                }
            },
            None => {
                self.records.push(record);
                assert(self@ =~= old(self)@.insert(identifier@, content@)) by {
                    lemma_lookup_absent(before, identifier@);
                    assert forall|key: Seq<char>|
                        lookup(self.records@, key) == if key == identifier@ {
                            Some(content@)
                        } else {
                            lookup(before, key)
                        } by {
                        lemma_lookup_pushed(before, stored, key);
                    }
                }
            },
        }
        Ok(())
    }
}

/// What the lock of a [`MemoryBackend`] asks of the store that it guards:
/// nothing, every store will do.
pub struct AnyStore;

impl RwLockPredicate<MemoryStore> for AnyStore {
    open spec fn inv(self, store: MemoryStore) -> bool {
        true
    }
}

/// A handle on a store in memory that any number of handles share.
///
/// A handle is made with [`MemoryBackend::new`] on a store of its own, or by
/// [`NewBackend::new_backend`] on the store of the handle that is asked.
/// What one handle stores, every handle on the same store reads, until one
/// of them stores something else under the same identifier.
pub struct MemoryBackend {
    storage: Arc<RwLock<MemoryStore, AnyStore>>,
}

impl MemoryBackend {
    /// Whether this handle and `other` are handles on the same store.
    pub closed spec fn shares_with(&self, other: Self) -> bool {
        self.storage == other.storage
    }

    /// A handle on a new store, which holds no record. No contract can say
    /// so: what a shared store holds is not a property of one handle.
    pub fn new() -> Self {
        MemoryBackend { storage: Arc::new(RwLock::new(MemoryStore::new(), Ghost(AnyStore))) }
    }

    /// Another handle on the same store.
    pub fn handle(&self) -> (r: Self)
        ensures
            r.shares_with(*self),
    {
        MemoryBackend { storage: share(&self.storage) }
    }
}

impl Default for MemoryBackend {
    fn default() -> Self {
        MemoryBackend::new()
    }
}

impl Backend for MemoryBackend {
    /// Identifiers are the hexadecimal texts of `IDENTIFIER_BYTES` random
    /// bytes.
    open spec fn mints(&self, identifier: Seq<char>) -> bool {
        exists|bytes: Seq<u8>|
            #[trigger] bytes.len() == IDENTIFIER_BYTES && identifier == hex_text(bytes)
    }

    /// Reading never fails. What is found is what was last stored under the
    /// identifier through any handle on the store, which this handle alone
    /// cannot know.
    open spec fn reads(
        &self,
        identifier: Seq<char>,
        outcome: Result<Option<Vec<u8>>, SessionError>,
    ) -> bool {
        outcome is Ok
    }

    /// Storing never fails, and leaves the handle on the store that it was
    /// on.
    open spec fn persists(
        &self,
        identifier: Seq<char>,
        content: Seq<u8>,
        after: Self,
        stored: bool,
    ) -> bool {
        stored && after.shares_with(*self)
    }

    fn random_identifier(&self) -> (r: SessionIdentifier) {
        random_identifier()
    }

    fn read_session(&self, identifier: SessionIdentifier) -> (r: Result<
        Option<Vec<u8>>,
        SessionError,
    >) {
        let guard = self.storage.acquire_read();
        let found = guard.borrow().read_session(identifier);
        guard.release_read();
        found
    }

    fn persist_session(&mut self, identifier: SessionIdentifier, content: &[u8]) -> (r: Result<
        (),
        SessionError,
    >) {
        let (mut store, guard) = self.storage.acquire_write();
        let stored = store.persist_session(identifier, content);
        guard.release_write(store);
        stored
    }
}

impl NewBackend for MemoryBackend {
    type Instance = MemoryBackend;

    /// Making an instance never fails; the instance is a handle on the
    /// store of this handle.
    open spec fn makes(&self, outcome: Result<MemoryBackend, ConfigError>) -> bool {
        outcome matches Ok(instance) && instance.shares_with(*self)
    }

    fn new_backend(&self) -> (r: Result<MemoryBackend, ConfigError>) {
        Ok(self.handle())
    }
}

} // verus!
