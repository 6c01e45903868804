//! The store of open documents, keyed by path.
//!
//! The store is a concurrent hash map. Each operation below is one atomic
//! step of that map: a reader sees the entry as it was before the step or as
//! it is after it.

use crate::document::Document;
use papaya::HashMap;
use rustc_hash::FxBuildHasher;
use vstd::prelude::*;

verus! {

/// `papaya::HashMap`, a concurrent hash map. Nothing is known of a value of
/// it but what the functions below say of [`stored_documents`].
#[verifier::external_type_specification]
#[verifier::external_body]
#[verifier::reject_recursive_types(K)]
#[verifier::reject_recursive_types(V)]
#[verifier::reject_recursive_types(S)]
pub struct ExConcurrentMap<K, V, S>(HashMap<K, V, S>);

/// `rustc_hash::FxBuildHasher`, the hasher the maps are built with.
#[verifier::external_type_specification]
#[verifier::external_body]
pub struct ExFxBuildHasher(FxBuildHasher);

/// The concurrent map that holds the documents.
pub type DocumentMap = HashMap<String, Document, FxBuildHasher>;

/// The entries that a map of documents holds: each path with its document.
pub uninterp spec fn stored_documents(map: DocumentMap) -> Map<
    Seq<char>,
    Document,
>;

/// The store's content when nothing is open.
pub open spec fn no_documents() -> Map<Seq<char>, Document> {
    Map::empty()
}

/// `papaya::HashMap::with_hasher`: a map without entries.
#[verifier::external_body]
fn map_new() -> (r: DocumentMap)
    ensures
        stored_documents(r) == no_documents(),
{
    HashMap::with_hasher(FxBuildHasher)
}

/// `papaya::HashMap::len`: the number of entries.
#[verifier::external_body]
fn map_len(map: &DocumentMap) -> (r: usize)
    ensures
        r == stored_documents(*map).dom().len(),
{
    map.len()
}

/// `papaya::HashMapRef::get` under a fresh pin: a copy of the document stored
/// for the path, if there is one.
#[verifier::external_body]
fn map_get(map: &DocumentMap, path: &str) -> (r: Option<Document>)
    ensures
        r == (if stored_documents(*map).contains_key(path@) {
            Some(stored_documents(*map)[path@])
        } else {
            None
        }),
{
    map.pin().get(path).cloned()
}

/// `papaya::HashMapRef::insert` under a fresh pin: stores the document for the
/// path, whatever was there, and hands back a copy of what it replaced.
#[verifier::external_body]
fn map_insert(map: &mut DocumentMap, path: String, document: Document) -> (r: Option<Document>)
    ensures
        stored_documents(*final(map)) == stored_documents(*old(map)).insert(path@, document),
        r == (if stored_documents(*old(map)).contains_key(path@) {
            Some(stored_documents(*old(map))[path@])
        } else {
            None
        }),
{
    map.pin().insert(path, document).cloned()
}

/// `papaya::HashMapRef::update` under a fresh pin, with [`Document::raised_copy`]
/// as the update: an entry for the path is replaced by itself with the given
/// claims merged in; without an entry nothing changes.
#[verifier::external_body]
fn map_raise(map: &mut DocumentMap, path: String, scanner: bool, version: i32)
    ensures
        stored_documents(*final(map)) == (if stored_documents(*old(map)).contains_key(path@) {
            stored_documents(*old(map)).insert(
                path@,
                stored_documents(*old(map))[path@].spec_raised(scanner, version),
            )
        } else {
            stored_documents(*old(map))
        }),
{
    map.pin().update(path, |document| document.raised_copy(scanner, version));
}

/// `papaya::HashMapRef::remove` under a fresh pin: the path has no entry
/// afterwards, and every other entry is as before.
#[verifier::external_body]
fn map_remove(map: &mut DocumentMap, path: &str)
    ensures
        stored_documents(*final(map)) == stored_documents(*old(map)).remove(path@),
{
    map.pin().remove(path);
}

/// `papaya::HashMapRef::keys` under a fresh pin, each key copied: every path
/// that has an entry, once, in no particular order.
#[verifier::external_body]
fn map_paths(map: &DocumentMap) -> (r: Vec<String>)
    ensures
        forall|i: int| 0 <= i < r@.len() ==> stored_documents(*map).contains_key(#[trigger] r@[i]@),
        forall|p: Seq<char>| #[trigger]
            stored_documents(*map).contains_key(p) ==> exists|i: int| 0 <= i < r@.len() && r@[i]@ == p,
        forall|i: int, j: int| 0 <= i < j < r@.len() ==> r@[i]@ != r@[j]@,
{
    map.pin().keys().cloned().collect()
}

/// The documents that are open, by path.
pub struct DocumentStore {
    map: DocumentMap,
}

impl View for DocumentStore {
    type V = Map<Seq<char>, Document>;

    closed spec fn view(&self) -> Map<Seq<char>, Document> {
        stored_documents(self.map)
    }
}

/// What a lookup of `path` in `documents` yields.
pub open spec fn lookup(documents: Map<Seq<char>, Document>, path: Seq<char>) -> Option<Document> {
    if documents.contains_key(path) {
        Some(documents[path])
    } else {
        None
    }
}

/// The store after `document` has been opened at `path`: it is stored merged
/// with the entry it replaces, so that neither the scanner's claim nor the later
/// version is lost.
pub open spec fn opened(
    documents: Map<Seq<char>, Document>,
    path: Seq<char>,
    document: Document,
) -> Map<Seq<char>, Document> {
    documents.insert(path, document.spec_over(lookup(documents, path)))
}

impl DocumentStore {
    /// A store without documents.
    pub fn new() -> (r: DocumentStore)
        ensures
            r@ == no_documents(),
    {
        DocumentStore { map: map_new() }
    }

    /// The number of documents.
    pub fn len(&self) -> (r: usize)
        ensures
            r == self@.dom().len(),
    {
        map_len(&self.map)
    }

    /// A snapshot of the document at `path`.
    pub fn get(&self, path: &str) -> (r: Option<Document>)
        ensures
            r == lookup(self@, path@),
    {
        map_get(&self.map, path)
    }

    /// Replaces the document at `path` unconditionally and returns the one
    /// that was there.
    pub fn insert(&mut self, path: String, document: Document) -> (r: Option<Document>)
        ensures
            final(self)@ == old(self)@.insert(path@, document),
            r == lookup(old(self)@, path@),
    {
        map_insert(&mut self.map, path, document)
    }

    /// Merges the given claims into the document at `path`, if there is one.
    pub fn raise(&mut self, path: String, scanner: bool, version: i32)
        ensures
            final(self)@ == (match lookup(old(self)@, path@) {
                Some(d) => old(self)@.insert(path@, d.spec_raised(scanner, version)),
                None => old(self)@,
            }),
    {
        map_raise(&mut self.map, path, scanner, version)
    }

    /// Removes the document at `path`; nothing happens if there is none.
    pub fn remove(&mut self, path: &str)
        ensures
            final(self)@ == old(self)@.remove(path@),
    {
        map_remove(&mut self.map, path)
    }

    /// The paths of all documents, each once, in no particular order.
    pub fn paths(&self) -> (r: Vec<String>)
        ensures
            forall|i: int| 0 <= i < r@.len() ==> self@.contains_key(#[trigger] r@[i]@),
            forall|p: Seq<char>| #[trigger]
                self@.contains_key(p) ==> exists|i: int| 0 <= i < r@.len() && r@[i]@ == p,
            forall|i: int, j: int| 0 <= i < j < r@.len() ==> r@[i]@ != r@[j]@,
    {
        map_paths(&self.map)
    }

    /// Stores a document that was prepared against a snapshot of the store
    /// which may be out of date by now. The document replaces the entry at
    /// `path`; if the entry it replaced asks more than the document grants
    /// (it was scanner-opened, or at a later version), a second step merges
    /// those claims into the stored entry. Whatever the snapshot was, the
    /// stored document is `document` merged with the entry it replaced.
    pub fn insert_reconciled(&mut self, path: String, document: Document)
        ensures
            final(self)@ == opened(old(self)@, path@, document),
    {
        let scanner = document.opened_by_scanner;
        let version = document.version;
        let ghost stored = document;
        let key = path.clone();
        match self.insert(path, document) {
            Some(existing) => {
                if (existing.opened_by_scanner && !scanner) || existing.version > version {
                    self.raise(key, existing.opened_by_scanner, existing.version);
                    assert(self@ =~= opened(old(self)@, path@, stored));
                } else {
                    assert(stored.spec_raised(existing.opened_by_scanner, existing.version) == stored);
                }
            },
            None => {},
        }
    }

    /// Opens `document` at `path`: takes a snapshot of the entry there, merges
    /// its claims into the document, and stores the result as
    /// [`DocumentStore::insert_reconciled`] does.
    pub fn open(&mut self, path: String, document: Document)
        ensures
            final(self)@ == opened(old(self)@, path@, document),
    {
        let document = match self.get(path.as_str()) {
            Some(existing) => document.raised(existing.opened_by_scanner, existing.version),
            None => document,
        };
        self.insert_reconciled(path, document);
        assert(self@ =~= opened(old(self)@, path@, document));
    }
}

} // verus!
