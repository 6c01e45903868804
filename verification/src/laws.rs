//! What holds of the workspace whatever the order of operations.
//!
//! Each law is stated over the content of the server before and after one
//! operation, as the operation's contract describes it.

use crate::capabilities::Handler;
use crate::document_store::lookup;
use crate::errors::WorkspaceError;
use crate::file_source::DocumentFileSource;
use crate::patterns::{is_pattern_id, lemma_pattern_ids, pattern_id_text};
use crate::projects::{belongs_only_to, max_file_size_of, project_of, Manifest, ProjectKey};
use crate::source_registry::{interned, lemma_interned_distinct};
use crate::workspace::feature_ops::{DiagnosticsJob, FeatureJob};
use crate::workspace::files::change_file_post;
use crate::workspace::project_ops::{after_close_project, set_manifest_post};
use crate::workspace::{
    byte_size, exceeded_limit, lemma_position_of, open_file_post, position_of, source_to_open,
    OpenFileParams, WorkspaceModel,
};
use vstd::prelude::*;

verus! {

/// Whether every document that is open in both states is, in `post`, at a
/// version no earlier than in `pre`.
pub open spec fn versions_kept(pre: WorkspaceModel, post: WorkspaceModel) -> bool {
    forall|path: Seq<char>|
        pre.documents.contains_key(path) && #[trigger] post.documents.contains_key(path)
            ==> post.documents[path].version >= pre.documents[path].version
}

/// Whether every document that a scan had opened is still open in `post`,
/// and still marked as opened by a scan.
pub open spec fn scanner_claims_kept(pre: WorkspaceModel, post: WorkspaceModel) -> bool {
    forall|path: Seq<char>|
        #[trigger] pre.documents.contains_key(path) && pre.documents[path].opened_by_scanner
            ==> post.documents.contains_key(path) && post.documents[path].opened_by_scanner
}

/// Opening a file, whatever the size of its content, lowers no document's
/// version and gives up no claim of a scan; and the document it opens is at
/// the later of its own version and the replaced one's, and is marked as
/// opened by a scan if either was.
pub proof fn law_open_file_keeps_claims(
    pre: WorkspaceModel,
    post: WorkspaceModel,
    opened_by_scanner: bool,
    params: OpenFileParams,
    result: Result<(), WorkspaceError>,
)
    requires
        open_file_post(pre, post, opened_by_scanner, params, result),
    ensures
        versions_kept(pre, post),
        scanner_claims_kept(pre, post),
        result is Ok ==> post.documents.contains_key(params.path@) && post.documents[params.path@].version
            >= params.version && (opened_by_scanner ==> post.documents[params.path@].opened_by_scanner),
{
    let path = params.path@;
    assert forall|p: Seq<char>|
        pre.documents.contains_key(p) && #[trigger] post.documents.contains_key(
            p,
        ) implies post.documents[p].version >= pre.documents[p].version by {
        if p != path && result is Ok {
            assert(post.documents.remove(path)[p] == pre.documents.remove(path)[p]);
        }
    }
    assert forall|p: Seq<char>| #[trigger]
        pre.documents.contains_key(p) && pre.documents[p].opened_by_scanner implies post.documents.contains_key(
        p,
    ) && post.documents[p].opened_by_scanner by {
        if p != path && result is Ok {
            assert(pre.documents.remove(path).contains_key(p));
            assert(post.documents.remove(path)[p] == pre.documents.remove(path)[p]);
        }
    }
}

/// Changing a file lowers no document's version, provided the new version
/// is later than the document's, and gives up no claim of a scan.
pub proof fn law_change_file_keeps_claims(
    pre: WorkspaceModel,
    post: WorkspaceModel,
    project_key: ProjectKey,
    path: Seq<char>,
    content: String,
    version: i32,
    result: Result<(), WorkspaceError>,
)
    requires
        change_file_post(pre, post, project_key, path, content, version, result),
        lookup(pre.documents, path) matches Some(prior) ==> version > prior.version,
    ensures
        versions_kept(pre, post),
        scanner_claims_kept(pre, post),
        post.documents.dom() == pre.documents.dom(),
{
    assert forall|p: Seq<char>|
        pre.documents.contains_key(p) && #[trigger] post.documents.contains_key(
            p,
        ) implies post.documents[p].version >= pre.documents[p].version by {
        if p != path && result is Ok {
            assert(post.documents.remove(path)[p] == pre.documents.remove(path)[p]);
        }
    }
    assert forall|p: Seq<char>| #[trigger]
        pre.documents.contains_key(p) && pre.documents[p].opened_by_scanner implies post.documents.contains_key(
        p,
    ) && post.documents[p].opened_by_scanner by {
        if p != path && result is Ok {
            assert(pre.documents.remove(path).contains_key(p));
            assert(post.documents.remove(path)[p] == pre.documents.remove(path)[p]);
        }
    }
    assert forall|p: Seq<char>| post.documents.dom().contains(p) == pre.documents.dom().contains(
        p,
    ) by {
        if p != path && result is Ok {
            assert(post.documents.remove(path).contains_key(p) == pre.documents.remove(
                path,
            ).contains_key(p));
        }
    }
    assert(post.documents.dom() =~= pre.documents.dom());
}

/// Setting a manifest lowers no document's version and gives up no claim of
/// a scan: the manifest's text is opened over whatever is open at its path
/// as any document is.
pub proof fn law_set_manifest_keeps_claims(
    pre: WorkspaceModel,
    post: WorkspaceModel,
    project_key: ProjectKey,
    manifest_path: Seq<char>,
    content: String,
    version: i32,
    manifest: Manifest,
)
    requires
        set_manifest_post(pre, post, project_key, manifest_path, content, version, manifest),
    ensures
        versions_kept(pre, post),
        scanner_claims_kept(pre, post),
        post.documents.contains_key(manifest_path),
        post.documents[manifest_path].version >= version,
{
    assert forall|p: Seq<char>|
        pre.documents.contains_key(p) && #[trigger] post.documents.contains_key(
            p,
        ) implies post.documents[p].version >= pre.documents[p].version by {
        if p != manifest_path {
            assert(post.documents.remove(manifest_path)[p] == pre.documents.remove(manifest_path)[p]);
        }
    }
    assert forall|p: Seq<char>| #[trigger]
        pre.documents.contains_key(p) && pre.documents[p].opened_by_scanner implies post.documents.contains_key(
        p,
    ) && post.documents[p].opened_by_scanner by {
        if p != manifest_path {
            assert(pre.documents.remove(manifest_path).contains_key(p));
            assert(post.documents.remove(manifest_path)[p] == pre.documents.remove(manifest_path)[p]);
        }
    }
}

/// After a client has closed a file, a document is open at the path if and
/// only if one was open there that a scan had opened; that document, and
/// every other one, is as it was.
pub proof fn law_close_file_respects_scanner(pre: WorkspaceModel, path: Seq<char>)
    ensures
        lookup(pre.after_close_file(path).documents, path) is Some <==> (lookup(
            pre.documents,
            path,
        ) matches Some(prior) && prior.opened_by_scanner),
        versions_kept(pre, pre.after_close_file(path)),
        scanner_claims_kept(pre, pre.after_close_file(path)),
        forall|other: Seq<char>|
            other != path ==> lookup(pre.after_close_file(path).documents, other) == lookup(
                pre.documents,
                other,
            ),
{
}

/// Closing a project removes exactly the documents that a scan opened under
/// the project's root and under no other project's; every other document
/// is as it was.
pub proof fn law_close_project_sweeps(pre: WorkspaceModel, project_key: ProjectKey, path: Seq<char>)
    requires
        pre.wf(),
        project_of(pre.projects, project_key) is Some,
    ensures
        ({
            let post = after_close_project(pre, project_key);
            let root = project_of(pre.projects, project_key)->Some_0.path@;
            &&& versions_kept(pre, post)
            &&& lookup(post.documents, path) == (if pre.documents.contains_key(path)
                && pre.documents[path].opened_by_scanner && belongs_only_to(
                pre.projects,
                path,
                root,
            ) {
                None
            } else {
                lookup(pre.documents, path)
            })
            &&& !pre.documents.contains_key(path) || !pre.documents[path].opened_by_scanner
                ==> lookup(post.documents, path) == lookup(pre.documents, path)
        }),
{
}

/// Whether `post` can follow `pre` by one operation of the server: an open,
/// a change to a later version, the setting of a manifest, a close of a file
/// or of a project, or any operation that leaves the documents as they are.
pub open spec fn is_step(pre: WorkspaceModel, post: WorkspaceModel) -> bool {
    ||| exists|opened_by_scanner: bool, params: OpenFileParams, result: Result<(), WorkspaceError>|
        #[trigger] open_file_post(pre, post, opened_by_scanner, params, result)
    ||| exists|
        project_key: ProjectKey,
        manifest_path: Seq<char>,
        content: String,
        version: i32,
        manifest: Manifest,
    |
        #[trigger] set_manifest_post(
            pre,
            post,
            project_key,
            manifest_path,
            content,
            version,
            manifest,
        )
    ||| exists|
        project_key: ProjectKey,
        path: Seq<char>,
        content: String,
        version: i32,
        result: Result<(), WorkspaceError>,
    |
        #[trigger] change_file_post(pre, post, project_key, path, content, version, result) && (lookup(
            pre.documents,
            path,
        ) matches Some(prior) ==> version > prior.version)
    ||| exists|path: Seq<char>| post == #[trigger] pre.after_close_file(path)
    ||| exists|project_key: ProjectKey|
        project_of(pre.projects, project_key) is Some && post == #[trigger] after_close_project(
            pre,
            project_key,
        )
    ||| post.documents == pre.documents
}

/// Whether `post` follows `pre` by the close of a project.
pub open spec fn closes_project(pre: WorkspaceModel, post: WorkspaceModel) -> bool {
    exists|project_key: ProjectKey|
        project_of(pre.projects, project_key) is Some && post == #[trigger] after_close_project(
            pre,
            project_key,
        )
}

/// One operation lowers no version; and unless it closes a project it gives
/// up no claim of a scan.
pub proof fn law_step_keeps_claims(pre: WorkspaceModel, post: WorkspaceModel)
    requires
        is_step(pre, post),
    ensures
        versions_kept(pre, post),
        !closes_project(pre, post) ==> scanner_claims_kept(pre, post),
        forall|path: Seq<char>|
            pre.documents.contains_key(path) && #[trigger] post.documents.contains_key(path)
                && pre.documents[path].opened_by_scanner ==> post.documents[path].opened_by_scanner,
{
    if exists|opened_by_scanner: bool, params: OpenFileParams, result: Result<(), WorkspaceError>|
        #[trigger] open_file_post(pre, post, opened_by_scanner, params, result) {
        let (opened_by_scanner, params, result) = choose|
            opened_by_scanner: bool,
            params: OpenFileParams,
            result: Result<(), WorkspaceError>,
        |
            #[trigger] open_file_post(pre, post, opened_by_scanner, params, result);
        law_open_file_keeps_claims(pre, post, opened_by_scanner, params, result);
    } else if exists|
        project_key: ProjectKey,
        manifest_path: Seq<char>,
        content: String,
        version: i32,
        manifest: Manifest,
    |
        #[trigger] set_manifest_post(
            pre,
            post,
            project_key,
            manifest_path,
            content,
            version,
            manifest,
        ) {
        let (project_key, manifest_path, content, version, manifest) = choose|
            project_key: ProjectKey,
            manifest_path: Seq<char>,
            content: String,
            version: i32,
            manifest: Manifest,
        |
            #[trigger] set_manifest_post(
                pre,
                post,
                project_key,
                manifest_path,
                content,
                version,
                manifest,
            );
        law_set_manifest_keeps_claims(
            pre,
            post,
            project_key,
            manifest_path,
            content,
            version,
            manifest,
        );
    } else if exists|
        project_key: ProjectKey,
        path: Seq<char>,
        content: String,
        version: i32,
        result: Result<(), WorkspaceError>,
    |
        #[trigger] change_file_post(pre, post, project_key, path, content, version, result) && (lookup(
            pre.documents,
            path,
        ) matches Some(prior) ==> version > prior.version) {
        let (project_key, path, content, version, result) = choose|
            project_key: ProjectKey,
            path: Seq<char>,
            content: String,
            version: i32,
            result: Result<(), WorkspaceError>,
        |
            #[trigger] change_file_post(pre, post, project_key, path, content, version, result) && (lookup(
                pre.documents,
                path,
            ) matches Some(prior) ==> version > prior.version);
        law_change_file_keeps_claims(pre, post, project_key, path, content, version, result);
    } else if exists|path: Seq<char>| post == #[trigger] pre.after_close_file(path) {
        let path = choose|path: Seq<char>| post == #[trigger] pre.after_close_file(path);
        law_close_file_respects_scanner(pre, path);
    } else if closes_project(pre, post) {
    } else {
    }
}

/// Over any run of operations, as long as a document stays open at a path
/// its version never goes down, and once a scan has opened it, it stays
/// marked so.
pub proof fn law_claims_kept_over_runs(run: Seq<WorkspaceModel>, path: Seq<char>, from: int, to: int)
    requires
        forall|k: int| 0 <= k < run.len() - 1 ==> is_step(#[trigger] run[k], run[k + 1]),
        0 <= from <= to < run.len(),
        forall|k: int| from <= k <= to ==> (#[trigger] run[k]).documents.contains_key(path),
    ensures
        run[to].documents[path].version >= run[from].documents[path].version,
        run[from].documents[path].opened_by_scanner ==> run[to].documents[path].opened_by_scanner,
    decreases to - from,
{
    if from < to {
        law_claims_kept_over_runs(run, path, from, to - 1);
        assert(is_step(run[to - 1], run[to - 1 + 1]));
        law_step_keeps_claims(run[to - 1], run[to]);
        assert(run[to - 1].documents.contains_key(path));
        assert(run[to].documents.contains_key(path));
    }
}

/// Over any run of operations none of which closes a project, a document
/// that a scan has opened stays open.
pub proof fn law_scanned_documents_stay(run: Seq<WorkspaceModel>, path: Seq<char>, from: int, to: int)
    requires
        forall|k: int| 0 <= k < run.len() - 1 ==> is_step(#[trigger] run[k], run[k + 1]),
        forall|k: int| 0 <= k < run.len() - 1 ==> !closes_project(#[trigger] run[k], run[k + 1]),
        0 <= from <= to < run.len(),
        run[from].documents.contains_key(path),
        run[from].documents[path].opened_by_scanner,
    ensures
        run[to].documents.contains_key(path),
        run[to].documents[path].opened_by_scanner,
    decreases to - from,
{
    if from < to {
        law_scanned_documents_stay(run, path, from, to - 1);
        assert(is_step(run[to - 1], run[to - 1 + 1]));
        assert(!closes_project(run[to - 1], run[to - 1 + 1]));
        law_step_keeps_claims(run[to - 1], run[to]);
        assert(run[to - 1].documents.contains_key(path));
    }
}

/// The file-source index of every open document names a registered source.
pub proof fn law_source_index_valid(model: WorkspaceModel, path: Seq<char>)
    requires
        model.wf(),
        model.documents.contains_key(path),
    ensures
        model.source_at(model.documents[path].file_source_index) is Some,
{
}

/// Opening a file leaves every document, old and new, with a file-source
/// index that names a registered source, and leaves the server's other
/// invariants standing.
pub proof fn law_open_file_keeps_sources_valid(
    pre: WorkspaceModel,
    post: WorkspaceModel,
    opened_by_scanner: bool,
    params: OpenFileParams,
    result: Result<(), WorkspaceError>,
)
    requires
        pre.wf(),
        open_file_post(pre, post, opened_by_scanner, params, result),
    ensures
        post.wf(),
        forall|index: usize|
            pre.source_at(index) is Some ==> post.source_at(index) == pre.source_at(index),
{
    let path = params.path@;
    let source = source_to_open(pre.projects, params.project_key, path, params.document_file_source);
    let sources = interned(pre.file_sources, source);
    let stored_as = crate::workspace::source_to_store(
        source,
        crate::capabilities::reported_source(source),
    );
    let registry = interned(sources, stored_as);
    lemma_interned_distinct(pre.file_sources, source);
    lemma_interned_distinct(sources, stored_as);
    crate::source_registry::lemma_distinct_sources_bounded(sources);
    crate::source_registry::lemma_distinct_sources_bounded(registry);
    let k = sources.index_of(source);
    assert(0 <= k < sources.len() && sources[k] == source);
    lemma_position_of(sources, source, k);
    let m = registry.index_of(stored_as);
    assert(0 <= m < registry.len() && registry[m] == stored_as);
    lemma_position_of(registry, stored_as, m);
    assert forall|p: Seq<char>| #[trigger] post.documents.contains_key(p) implies post.documents[p].file_source_index
        < post.file_sources.len() by {
        if p != path {
            if result is Ok && exceeded_limit(
                pre.projects,
                params.project_key,
                byte_size(params.content@),
            ) is None {
                assert(post.documents.remove(path).contains_key(p));
                assert(pre.documents.remove(path).contains_key(p));
                assert(post.documents.remove(path)[p] == pre.documents.remove(path)[p]);
            }
            assert(pre.documents.contains_key(p));
        }
    }
    assert forall|p: Seq<char>| #[trigger] post.node_caches.contains_key(p) implies post.documents.contains_key(
        p,
    ) by {
        if p != path {
            if result is Ok && exceeded_limit(
                pre.projects,
                params.project_key,
                byte_size(params.content@),
            ) is None {
                assert(post.node_caches.remove(path).contains_key(p));
                assert(pre.node_caches.remove(path).contains_key(p));
                assert(pre.documents.remove(path).contains_key(p));
                assert(post.documents.remove(path).contains_key(p));
            }
        }
    }
}

/// Changing a file leaves every document with a file-source index that
/// names a registered source, and leaves the server's other invariants
/// standing.
pub proof fn law_change_file_keeps_sources_valid(
    pre: WorkspaceModel,
    post: WorkspaceModel,
    project_key: ProjectKey,
    path: Seq<char>,
    content: String,
    version: i32,
    result: Result<(), WorkspaceError>,
)
    requires
        pre.wf(),
        change_file_post(pre, post, project_key, path, content, version, result),
    ensures
        post.wf(),
        post.file_sources == pre.file_sources,
{
    assert forall|p: Seq<char>| #[trigger] post.documents.contains_key(p) implies post.documents[p].file_source_index
        < post.file_sources.len() by {
        if p != path && result is Ok {
            assert(post.documents.remove(path).contains_key(p));
            assert(pre.documents.remove(path).contains_key(p));
            assert(post.documents.remove(path)[p] == pre.documents.remove(path)[p]);
        }
    }
    assert forall|p: Seq<char>| #[trigger] post.node_caches.contains_key(p) implies post.documents.contains_key(
        p,
    ) by {
        if result is Ok {
            assert(pre.node_caches.dom().contains(p));
            if p != path {
                assert(pre.documents.remove(path).contains_key(p));
                assert(post.documents.remove(path).contains_key(p));
            }
        }
    }
}

/// Setting a manifest leaves every document with a file-source index that
/// names a registered source, and leaves the server's other invariants
/// standing.
pub proof fn law_set_manifest_keeps_sources_valid(
    pre: WorkspaceModel,
    post: WorkspaceModel,
    project_key: ProjectKey,
    manifest_path: Seq<char>,
    content: String,
    version: i32,
    manifest: Manifest,
)
    requires
        pre.wf(),
        set_manifest_post(pre, post, project_key, manifest_path, content, version, manifest),
    ensures
        post.wf(),
        forall|index: usize|
            pre.source_at(index) is Some ==> post.source_at(index) == pre.source_at(index),
{
    let source = crate::workspace::project_ops::manifest_source();
    let registry = interned(pre.file_sources, source);
    lemma_interned_distinct(pre.file_sources, source);
    crate::source_registry::lemma_distinct_sources_bounded(registry);
    let k = registry.index_of(source);
    assert(0 <= k < registry.len() && registry[k] == source);
    lemma_position_of(registry, source, k);
    assert forall|p: Seq<char>| #[trigger] post.documents.contains_key(p) implies post.documents[p].file_source_index
        < post.file_sources.len() by {
        if p != manifest_path {
            assert(post.documents.remove(manifest_path).contains_key(p));
            assert(pre.documents.remove(manifest_path).contains_key(p));
            assert(post.documents.remove(manifest_path)[p] == pre.documents.remove(manifest_path)[p]);
        }
    }
    assert forall|p: Seq<char>| #[trigger] post.node_caches.contains_key(p) implies post.documents.contains_key(
        p,
    ) by {
        if p != manifest_path {
            assert(pre.documents.remove(manifest_path).contains_key(p));
            assert(post.documents.remove(manifest_path).contains_key(p));
        }
    }
    if crate::projects::has_project(pre.projects, project_key) {
        let i = crate::projects::index_of_project(pre.projects, project_key);
        assert(crate::projects::project_at(pre.projects, project_key, i));
        assert forall|a: int, b: int|
            0 <= a < post.projects.len() && 0 <= b < post.projects.len() && a != b implies (
        #[trigger] post.projects[a]).key != (#[trigger] post.projects[b]).key by {
            assert(post.projects[a].key == pre.projects[a].key);
            assert(post.projects[b].key == pre.projects[b].key);
        }
        assert forall|a: int| 0 <= a < post.projects.len() implies (#[trigger] post.projects[a]).key.id
            < post.projects_issued by {
            assert(post.projects[a].key == pre.projects[a].key);
        }
    }
}

/// Closing a file and closing a project leave every remaining document
/// with a file-source index that names a registered source, and leave the
/// server's other invariants standing.
pub proof fn law_closing_keeps_sources_valid(
    pre: WorkspaceModel,
    path: Seq<char>,
    project_key: ProjectKey,
)
    requires
        pre.wf(),
    ensures
        pre.after_close_file(path).wf(),
        project_of(pre.projects, project_key) is Some ==> after_close_project(pre, project_key).wf(),
{
    if project_of(pre.projects, project_key) is Some {
        let after = after_close_project(pre, project_key);
        let i = crate::projects::index_of_project(pre.projects, project_key);
        assert(crate::projects::project_at(pre.projects, project_key, i));
        assert forall|a: int, b: int|
            0 <= a < after.projects.len() && 0 <= b < after.projects.len() && a != b implies (
        #[trigger] after.projects[a]).key != (#[trigger] after.projects[b]).key by {
            let a0 = if a < i {
                a
            } else {
                a + 1
            };
            let b0 = if b < i {
                b
            } else {
                b + 1
            };
            assert(after.projects[a] == pre.projects[a0] && after.projects[b] == pre.projects[b0]);
        }
        assert forall|a: int| 0 <= a < after.projects.len() implies (#[trigger] after.projects[a]).key.id
            < after.projects_issued by {
            let a0 = if a < i {
                a
            } else {
                a + 1
            };
            assert(after.projects[a] == pre.projects[a0]);
        }
    }
}

/// Interning a source again changes nothing and yields the same index; and
/// interning any source leaves every earlier index naming what it named.
pub proof fn law_interning_idempotent(
    sources: Seq<DocumentFileSource>,
    source: DocumentFileSource,
    other: DocumentFileSource,
)
    requires
        sources.no_duplicates(),
    ensures
        interned(interned(sources, source), source) == interned(sources, source),
        position_of(interned(interned(sources, source), other), source) == position_of(
            interned(sources, source),
            source,
        ),
        forall|i: int| 0 <= i < sources.len() ==> interned(sources, other)[i] == sources[i],
{
    let once = interned(sources, source);
    lemma_interned_distinct(sources, source);
    lemma_interned_distinct(once, other);
    let i = position_of(once, source);
    assert(0 <= i < once.len() && once[i] == source) by {
        let k = once.index_of(source);
        assert(0 <= k < once.len() && once[k] == source);
    }
    let twice = interned(once, other);
    assert(twice[i] == source);
    lemma_position_of(twice, source, i);
}

/// Ids that were handed out at different counter values differ, and each is
/// the letter `p` followed by digits.
pub proof fn law_pattern_ids_distinct(first: nat, later: nat)
    requires
        first < later,
    ensures
        pattern_id_text(first) != pattern_id_text(later),
        is_pattern_id(pattern_id_text(first)),
        is_pattern_id(pattern_id_text(later)),
{
    lemma_pattern_ids(first, later);
    lemma_pattern_ids(later, first);
}

/// A file over its project's size limit is open after `open_file`, without
/// a parse, with its size and the project's limit on record.
pub proof fn law_too_large_is_stored(
    pre: WorkspaceModel,
    post: WorkspaceModel,
    opened_by_scanner: bool,
    params: OpenFileParams,
    result: Result<(), WorkspaceError>,
)
    requires
        pre.wf(),
        open_file_post(pre, post, opened_by_scanner, params, result),
        byte_size(params.content@) > max_file_size_of(pre.projects, params.project_key),
    ensures
        result is Ok,
        post.documents.contains_key(params.path@),
        post.documents[params.path@].syntax is Err,
        post.documents[params.path@].syntax->Err_0.size == byte_size(params.content@),
        post.documents[params.path@].syntax->Err_0.limit == max_file_size_of(
            pre.projects,
            params.project_key,
        ),
        !pre.documents.contains_key(params.path@) ==> post.documents[params.path@]
            == (crate::document::Document {
            content: params.content,
            version: params.version,
            file_source_index: post.documents[params.path@].file_source_index,
            syntax: Err(
                crate::document::FileTooLarge {
                    size: byte_size(params.content@),
                    limit: max_file_size_of(pre.projects, params.project_key),
                },
            ),
            opened_by_scanner,
        }),
        post.node_caches == pre.node_caches,
        post.file_source_of(params.path@) == source_to_open(
            pre.projects,
            params.project_key,
            params.path@,
            params.document_file_source,
        ),
{
    let source = source_to_open(
        pre.projects,
        params.project_key,
        params.path@,
        params.document_file_source,
    );
    let sources = interned(pre.file_sources, source);
    lemma_interned_distinct(pre.file_sources, source);
    let k = sources.index_of(source);
    assert(0 <= k < sources.len() && sources[k] == source);
    lemma_position_of(sources, source, k);
    crate::source_registry::lemma_distinct_sources_bounded(sources);
}

/// A file within its project's size limit but longer than the parsers take
/// is open after `open_file`, without a parse, with its size and the parsers'
/// limit on record.
pub proof fn law_unparseable_is_stored(
    pre: WorkspaceModel,
    post: WorkspaceModel,
    opened_by_scanner: bool,
    params: OpenFileParams,
    result: Result<(), WorkspaceError>,
)
    requires
        open_file_post(pre, post, opened_by_scanner, params, result),
        byte_size(params.content@) <= max_file_size_of(pre.projects, params.project_key),
        byte_size(params.content@) > crate::capabilities::MAX_PARSE_SIZE,
    ensures
        result is Ok,
        post.documents.contains_key(params.path@),
        post.documents[params.path@].syntax == Err::<
            crate::document::Parsed,
            crate::document::FileTooLarge,
        >(
            crate::document::FileTooLarge {
                size: byte_size(params.content@),
                limit: crate::capabilities::MAX_PARSE_SIZE,
            },
        ),
        post.node_caches == pre.node_caches,
{
}

/// On a document that is stored without a parse, every operation that the
/// document's language supports fails with `FileIgnored`, and so does
/// pulling diagnostics.
pub proof fn law_unparsed_is_ignored(
    model: WorkspaceModel,
    project_key: ProjectKey,
    path: Seq<char>,
    handler: Handler,
    gated: bool,
    job: Result<FeatureJob, WorkspaceError>,
    diagnostics: Result<DiagnosticsJob, WorkspaceError>,
)
    requires
        model.documents.contains_key(path),
        model.documents[path].syntax is Err,
        model.job_is(project_key, path, Some(handler), gated, job),
        model.diagnostics_job_is(project_key, path, diagnostics),
    ensures
        job matches Err(error) && error.is_file_ignored_at(path),
        diagnostics matches Err(error) && error.is_file_ignored_at(path),
{
}

/// Merging the claims of an earlier record into a document lowers nothing:
/// the result is at the later of the two versions and is marked as opened
/// by a scan if either was. It asks no less than the earlier record did,
/// and a document that already asked as much is left as it is.
pub proof fn law_merge_never_lowers(document: crate::document::Document, scanner: bool, version: i32)
    ensures
        document.spec_raised(scanner, version).version >= document.version,
        document.spec_raised(scanner, version).version >= version,
        document.opened_by_scanner || scanner ==> document.spec_raised(
            scanner,
            version,
        ).opened_by_scanner,
        !document.spec_raised(scanner, version).spec_outranked(scanner, version),
        !document.spec_outranked(scanner, version) ==> document.spec_raised(scanner, version)
            == document,
{
}

/// Two opens of one path, in either order, leave a document at the later
/// of the two versions that is marked as opened by a scan if either open
/// was one.
pub proof fn law_opens_commute(
    prior: Option<crate::document::Document>,
    first: crate::document::Document,
    second: crate::document::Document,
)
    ensures
        ({
            let one_way = second.spec_over(Some(first.spec_over(prior)));
            let other_way = first.spec_over(Some(second.spec_over(prior)));
            &&& one_way.version == other_way.version
            &&& one_way.opened_by_scanner == other_way.opened_by_scanner
            &&& one_way.version >= first.version && one_way.version >= second.version
            &&& first.opened_by_scanner || second.opened_by_scanner ==> one_way.opened_by_scanner
            &&& prior matches Some(p) ==> one_way.version >= p.version && (p.opened_by_scanner
                ==> one_way.opened_by_scanner)
        }),
{
}

/// Two opens of one path that race: each prepares its document against a
/// snapshot of the store that may be out of date, and each stores it as
/// [`crate::document_store::DocumentStore::insert_reconciled`] does. Whatever
/// the snapshots were, the document stored last is at a version no earlier
/// than either open's and than the entry that was there, and is marked as
/// opened by a scan if any of the three was. If neither open saw an entry,
/// the version is exactly the latest of the three.
pub proof fn law_racing_opens(
    prior: Option<crate::document::Document>,
    first: crate::document::Document,
    seen_by_first: Option<crate::document::Document>,
    second: crate::document::Document,
    seen_by_second: Option<crate::document::Document>,
)
    ensures
        ({
            let stored_first = first.spec_over(seen_by_first).spec_over(prior);
            let stored_last = second.spec_over(seen_by_second).spec_over(Some(stored_first));
            &&& stored_last.content == second.content
            &&& stored_last.version >= first.version && stored_last.version >= second.version
            &&& first.opened_by_scanner || second.opened_by_scanner
                ==> stored_last.opened_by_scanner
            &&& prior matches Some(p) ==> stored_last.version >= p.version && (p.opened_by_scanner
                ==> stored_last.opened_by_scanner)
            &&& seen_by_first is None && seen_by_second is None ==> stored_last.version
                == crate::document::later_version(
                crate::document::later_version(first.version, second.version),
                match prior {
                    Some(p) => p.version,
                    None => first.version,
                },
            ) && stored_last.opened_by_scanner == (first.opened_by_scanner
                || second.opened_by_scanner || (prior matches Some(p) && p.opened_by_scanner))
        }),
{
}

} // verus!
