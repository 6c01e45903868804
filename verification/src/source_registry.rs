//! The registry that interns file-source descriptors.
//!
//! A descriptor is registered once and keeps its index for as long as the
//! registry lives: entries are only ever appended. Documents store the index
//! instead of the descriptor.

use crate::file_source::{lemma_code_injective, DocumentFileSource, FILE_SOURCE_COUNT};
use append_only_vec::AppendOnlyVec;
use vstd::prelude::*;

verus! {

/// `append_only_vec::AppendOnlyVec`, a vector that only grows. Nothing is
/// known of a value of it but what the functions below say of
/// [`registered`].
#[verifier::external_type_specification]
#[verifier::external_body]
#[verifier::reject_recursive_types(T)]
pub struct ExAppendOnlyVec<T>(AppendOnlyVec<T>);

/// The descriptors that an `AppendOnlyVec` holds, in the order of their
/// indices.
pub uninterp spec fn registered(entries: AppendOnlyVec<DocumentFileSource>) -> Seq<
    DocumentFileSource,
>;

/// `AppendOnlyVec::new`: a vector that holds nothing.
#[verifier::external_body]
fn entries_new() -> (r: AppendOnlyVec<DocumentFileSource>)
    ensures
        registered(r) == Seq::<DocumentFileSource>::empty(),
{
    AppendOnlyVec::new()
}

/// `AppendOnlyVec::len`: the number of entries pushed so far.
#[verifier::external_body]
fn entries_len(entries: &AppendOnlyVec<DocumentFileSource>) -> (r: usize)
    ensures
        r == registered(*entries).len(),
{
    entries.len()
}

/// `AppendOnlyVec`'s `Index::index`, which panics at or beyond the length and
/// otherwise hands out the entry pushed at that index.
#[verifier::external_body]
fn entries_at(entries: &AppendOnlyVec<DocumentFileSource>, index: usize) -> (r: DocumentFileSource)
    requires
        index < registered(*entries).len(),
    ensures
        r == registered(*entries)[index as int],
{
    entries[index]
}

/// `AppendOnlyVec::push`: appends one entry, leaves the earlier ones where
/// they are and returns the index of the new one. The vector keeps its
/// entries in chunks whose number is fixed per target; the bound keeps the
/// push within the chunks that even the smallest target has.
#[verifier::external_body]
fn entries_push(entries: &mut AppendOnlyVec<DocumentFileSource>, source: DocumentFileSource) -> (r:
    usize)
    requires
        registered(*old(entries)).len() + 8 < 0x8000,
    ensures
        registered(*final(entries)) == registered(*old(entries)).push(source),
        r == registered(*old(entries)).len(),
{
    entries.push(source)
}

/// The registry after `source` has been interned: unchanged if it was there,
/// else longer by that one entry.
pub open spec fn interned(sources: Seq<DocumentFileSource>, source: DocumentFileSource) -> Seq<
    DocumentFileSource,
> {
    if sources.contains(source) {
        sources
    } else {
        sources.push(source)
    }
}

/// A sequence of descriptors without repetition is no longer than there are
/// descriptors.
pub proof fn lemma_distinct_sources_bounded(sources: Seq<DocumentFileSource>)
    requires
        sources.no_duplicates(),
    ensures
        sources.len() <= FILE_SOURCE_COUNT,
{
    let codes = Seq::new(sources.len(), |i: int| sources[i].code());
    assert forall|i: int, j: int| 0 <= i < codes.len() && 0 <= j < codes.len() && i != j implies codes[i]
        != codes[j] by {
        lemma_code_injective(sources[i], sources[j]);
    }
    assert(codes.no_duplicates());
    codes.unique_seq_to_set();
    let all = vstd::set_lib::set_int_range(0, FILE_SOURCE_COUNT as int);
    vstd::set_lib::lemma_int_range(0, FILE_SOURCE_COUNT as int);
    assert forall|c: int| codes.to_set().contains(c) implies all.contains(c) by {
        let i = choose|i: int| 0 <= i < codes.len() && codes[i] == c;
        lemma_code_injective(sources[i], sources[i]);
    }
    assert(codes.to_set().subset_of(all));
    vstd::set_lib::lemma_len_subset(codes.to_set(), all);
}

/// Interning keeps a registry free of repetition.
pub proof fn lemma_interned_distinct(sources: Seq<DocumentFileSource>, source: DocumentFileSource)
    requires
        sources.no_duplicates(),
    ensures
        interned(sources, source).no_duplicates(),
        interned(sources, source).contains(source),
        sources.is_prefix_of(interned(sources, source)),
{
    let after = interned(sources, source);
    if !sources.contains(source) {
        assert(after[sources.len() as int] == source);
        assert forall|i: int, j: int| 0 <= i < after.len() && 0 <= j < after.len() && i != j implies after[i]
            != after[j] by {
            if i < sources.len() {
                assert(sources.contains(after[i]));
            }
            if j < sources.len() {
                assert(sources.contains(after[j]));
            }
        }
    }
}

/// The append-only registry of file sources.
pub struct FileSources {
    entries: AppendOnlyVec<DocumentFileSource>,
}

impl View for FileSources {
    type V = Seq<DocumentFileSource>;

    closed spec fn view(&self) -> Seq<DocumentFileSource> {
        registered(self.entries)
    }
}

impl FileSources {
    /// No descriptor is registered twice.
    pub open spec fn wf(&self) -> bool {
        self@.no_duplicates()
    }

    /// An empty registry.
    pub fn new() -> (r: FileSources)
        ensures
            r@ == Seq::<DocumentFileSource>::empty(),
            r.wf(),
    {
        FileSources { entries: entries_new() }
    }

    /// The number of registered descriptors.
    pub fn len(&self) -> (r: usize)
        ensures
            r == self@.len(),
    {
        entries_len(&self.entries)
    }

    /// The descriptor registered at `index`, or `None` at or beyond the
    /// registry's length.
    pub fn get_source(&self, index: usize) -> (r: Option<DocumentFileSource>)
        ensures
            r == (if index < self@.len() {
                Some(self@[index as int])
            } else {
                None
            }),
    {
        if index < entries_len(&self.entries) {
            Some(entries_at(&self.entries, index))
        } else {
            None
        }
    }

    /// The index of `source`, if it is registered.
    pub fn position(&self, source: DocumentFileSource) -> (r: Option<usize>)
        ensures
            match r {
                Some(i) => i < self@.len() && self@[i as int] == source && forall|j: int|
                    0 <= j < i ==> self@[j] != source,
                None => !self@.contains(source),
            },
    {
        let n = entries_len(&self.entries);
        let mut i: usize = 0;
        while i < n
            invariant
                n == self@.len(),
                i <= n,
                forall|j: int| 0 <= j < i ==> self@[j] != source,
            decreases n - i,
        {
            if entries_at(&self.entries, i) == source {
                return Some(i);
            }
            i += 1;
        }
        None
    }

    /// Interns `source`: returns the index it is registered at, appending it
    /// first if it was not registered. Every earlier entry keeps its index.
    pub fn insert_source(&mut self, source: DocumentFileSource) -> (r: usize)
        requires
            old(self).wf(),
        ensures
            final(self).wf(),
            final(self)@ == interned(old(self)@, source),
            r < final(self)@.len(),
            final(self)@[r as int] == source,
    {
        proof {
            lemma_interned_distinct(self@, source);
            lemma_distinct_sources_bounded(self@);
        }
        match self.position(source) {
            Some(i) => i,
            None => entries_push(&mut self.entries, source),
        }
    }
}

} // verus!
