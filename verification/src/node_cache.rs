//! The parse-acceleration cache: for some paths, a helper that lets a
//! reparse of the document reuse what an earlier parse built.
//!
//! Only writers consult the cache, and they hold it for one lookup at a time:
//! a helper is taken out before a parse and put back after it, never held
//! across it.

use biome_rowan::NodeCache;
use vstd::prelude::*;

verus! {

/// `biome_rowan::NodeCache`, the nodes and tokens that a parse built, kept
/// for the next one to share. Nothing is known of a value of it.
#[verifier::external_type_specification]
#[verifier::external_body]
pub struct ExNodeCache(NodeCache);

/// `NodeCache::default`: a helper that has seen no parse yet.
#[verifier::external_body]
pub(crate) fn fresh_node_cache() -> NodeCache {
    NodeCache::default()
}

/// One helper with the path it belongs to.
pub struct CacheEntry {
    pub path: String,
    pub cache: NodeCache,
}

/// The helpers that are kept, at most one per path.
pub struct NodeCaches {
    entries: Vec<CacheEntry>,
}

/// Whether `entries[i]` is the entry for `path`.
pub open spec fn entry_at(entries: Seq<CacheEntry>, path: Seq<char>, i: int) -> bool {
    0 <= i < entries.len() && entries[i].path@ == path
}

/// No two entries share a path.
pub open spec fn distinct_paths(entries: Seq<CacheEntry>) -> bool {
    forall|i: int, j: int|
        0 <= i < entries.len() && 0 <= j < entries.len() && i != j ==> #[trigger] entries[i].path@
            != #[trigger] entries[j].path@
}

/// The helpers by path.
pub open spec fn by_path(entries: Seq<CacheEntry>) -> Map<Seq<char>, NodeCache> {
    Map::new(
        |path: Seq<char>| exists|i: int| entry_at(entries, path, i),
        |path: Seq<char>| entries[choose|i: int| entry_at(entries, path, i)].cache,
    )
}

proof fn lemma_by_path_at(entries: Seq<CacheEntry>, i: int)
    requires
        distinct_paths(entries),
        0 <= i < entries.len(),
    ensures
        by_path(entries).contains_key(entries[i].path@),
        by_path(entries)[entries[i].path@] == entries[i].cache,
{
    let path = entries[i].path@;
    assert(entry_at(entries, path, i));
    let k = choose|k: int| entry_at(entries, path, k);
    assert(k == i);
}

proof fn lemma_by_path_push(entries: Seq<CacheEntry>, entry: CacheEntry)
    requires
        distinct_paths(entries),
        !by_path(entries).contains_key(entry.path@),
    ensures
        distinct_paths(entries.push(entry)),
        by_path(entries.push(entry)) == by_path(entries).insert(entry.path@, entry.cache),
{
    let after = entries.push(entry);
    assert forall|i: int, j: int| 0 <= i < after.len() && 0 <= j < after.len() && i != j implies after[i].path@
        != after[j].path@ by {
        if i < entries.len() && j == entries.len() {
            assert(entry_at(entries, after[i].path@, i));
        }
        if j < entries.len() && i == entries.len() {
            assert(entry_at(entries, after[j].path@, j));
        }
    }
    let want = by_path(entries).insert(entry.path@, entry.cache);
    assert forall|path: Seq<char>| by_path(after).contains_key(path) <==> want.contains_key(path) by {
        if by_path(after).contains_key(path) {
            let i = choose|i: int| entry_at(after, path, i);
            if i < entries.len() {
                assert(entry_at(entries, path, i));
            }
        }
        if want.contains_key(path) {
            if path == entry.path@ {
                assert(entry_at(after, path, entries.len() as int));
            } else {
                let i = choose|i: int| entry_at(entries, path, i);
                assert(entry_at(after, path, i));
            }
        }
    }
    assert forall|path: Seq<char>| by_path(after).contains_key(path) implies by_path(after)[path]
        == want[path] by {
        let i = choose|i: int| entry_at(after, path, i);
        lemma_by_path_at(after, i);
        if i < entries.len() {
            lemma_by_path_at(entries, i);
        }
    }
    assert(by_path(after) =~= want);
}

proof fn lemma_by_path_remove(entries: Seq<CacheEntry>, i: int)
    requires
        distinct_paths(entries),
        0 <= i < entries.len(),
    ensures
        distinct_paths(entries.remove(i)),
        by_path(entries.remove(i)) == by_path(entries).remove(entries[i].path@),
{
    let after = entries.remove(i);
    let gone = entries[i].path@;
    assert forall|a: int, b: int| 0 <= a < after.len() && 0 <= b < after.len() && a != b implies after[a].path@
        != after[b].path@ by {
        let a0 = if a < i {
            a
        } else {
            a + 1
        };
        let b0 = if b < i {
            b
        } else {
            b + 1
        };
        assert(after[a] == entries[a0] && after[b] == entries[b0]);
    }
    let want = by_path(entries).remove(gone);
    assert forall|path: Seq<char>| by_path(after).contains_key(path) <==> want.contains_key(path) by {
        if by_path(after).contains_key(path) {
            let a = choose|a: int| entry_at(after, path, a);
            let a0 = if a < i {
                a
            } else {
                a + 1
            };
            assert(after[a] == entries[a0]);
            assert(entry_at(entries, path, a0));
        }
        if want.contains_key(path) {
            let k = choose|k: int| entry_at(entries, path, k);
            let k1 = if k < i {
                k
            } else {
                k - 1
            };
            assert(after[k1] == entries[k]);
            assert(entry_at(after, path, k1));
        }
    }
    assert forall|path: Seq<char>| by_path(after).contains_key(path) implies by_path(after)[path]
        == want[path] by {
        let a = choose|a: int| entry_at(after, path, a);
        let a0 = if a < i {
            a
        } else {
            a + 1
        };
        assert(after[a] == entries[a0]);
        lemma_by_path_at(after, a);
        lemma_by_path_at(entries, a0);
    }
    assert(by_path(after) =~= want);
}

impl View for NodeCaches {
    type V = Map<Seq<char>, NodeCache>;

    closed spec fn view(&self) -> Map<Seq<char>, NodeCache> {
        by_path(self.entries@)
    }
}

impl NodeCaches {
    /// At most one helper is kept per path.
    pub closed spec fn wf(&self) -> bool {
        distinct_paths(self.entries@)
    }

    /// A cache without helpers.
    pub fn new() -> (r: NodeCaches)
        ensures
            r.wf(),
            r@.dom() == Set::<Seq<char>>::empty(),
    {
        let r = NodeCaches { entries: Vec::new() };
        assert(r@.dom() =~= Set::<Seq<char>>::empty());
        r
    }

    fn find(&self, path: &str) -> (r: Option<usize>)
        requires
            self.wf(),
        ensures
            match r {
                Some(i) => entry_at(self.entries@, path@, i as int),
                None => !self@.contains_key(path@),
            },
    {
        let mut i: usize = 0;
        while i < self.entries.len()
            invariant
                i <= self.entries@.len(),
                forall|j: int| 0 <= j < i ==> !entry_at(self.entries@, path@, j),
            decreases self.entries@.len() - i,
        {
            if crate::file_source::str_equal(self.entries[i].path.as_str(), path) {
                return Some(i);
            }
            i += 1;
        }
        None
    }

    /// Whether a helper is kept for `path`.
    pub fn contains(&self, path: &str) -> (r: bool)
        requires
            self.wf(),
        ensures
            r == self@.contains_key(path@),
    {
        match self.find(path) {
            Some(i) => {
                proof {
                    lemma_by_path_at(self.entries@, i as int);
                }
                true
            },
            None => false,
        }
    }

    /// Takes the helper for `path` out of the cache, if one is kept.
    pub fn remove(&mut self, path: &str) -> (r: Option<NodeCache>)
        requires
            old(self).wf(),
        ensures
            final(self).wf(),
            final(self)@ == old(self)@.remove(path@),
            r == (if old(self)@.contains_key(path@) {
                Some(old(self)@[path@])
            } else {
                None
            }),
    {
        match self.find(path) {
            Some(i) => {
                proof {
                    lemma_by_path_at(self.entries@, i as int);
                    lemma_by_path_remove(self.entries@, i as int);
                }
                let entry = self.entries.remove(i);
                Some(entry.cache)
            },
            None => {
                assert(self@.remove(path@) =~= self@);
                None
            },
        }
    }

    /// Keeps `cache` as the helper for `path`, in place of any earlier one.
    pub fn insert(&mut self, path: String, cache: NodeCache)
        requires
            old(self).wf(),
        ensures
            final(self).wf(),
            final(self)@ == old(self)@.insert(path@, cache),
    {
        let _ = self.remove(path.as_str());
        proof {
            lemma_by_path_push(self.entries@, CacheEntry { path, cache });
            assert(old(self)@.remove(path@).insert(path@, cache) =~= old(self)@.insert(path@, cache));
        }
        self.entries.push(CacheEntry { path, cache });
    }
}

} // verus!
