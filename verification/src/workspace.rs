//! The workspace server: the documents, file sources, projects, patterns and
//! parse helpers it owns, and the operations that change them.
//!
//! Every operation is one step on the server's state. Contracts are stated
//! over [`WorkspaceModel`], the mathematical content of that state.

use crate::capabilities::{
    capabilities_of, parse_has_errors, reported_source, text_size, Capabilities, Features,
    ParseResult, MAX_PARSE_SIZE,
};
use crate::document::{Document, FileTooLarge};
use crate::document_store::{lookup, opened, DocumentStore};
use crate::errors::WorkspaceError;
use crate::file_source::DocumentFileSource;
use crate::node_cache::{fresh_node_cache, NodeCaches};
use crate::paths::{extension, path_extension, text_of};
use crate::patterns::{Pattern, PatternStore};
use crate::projects::{
    max_file_size_of, package_type_of, settings_of, Manifest, Project, ProjectKey, Projects,
};
use crate::source_registry::{interned, lemma_interned_distinct, FileSources};
use biome_rowan::NodeCache;
use vstd::prelude::*;

pub mod files;
pub mod project_ops;
pub mod feature_ops;

verus! {

/// The content of a workspace server.
pub struct WorkspaceModel {
    /// The open documents by path.
    pub documents: Map<Seq<char>, Document>,
    /// The registered file sources by index.
    pub file_sources: Seq<DocumentFileSource>,
    /// The parse helpers by path.
    pub node_caches: Map<Seq<char>, NodeCache>,
    /// The registered projects.
    pub projects: Seq<Project>,
    /// The number of project keys handed out.
    pub projects_issued: u64,
    /// The stored patterns by id.
    pub patterns: Map<Seq<char>, Pattern>,
    /// The counter value of the next pattern id.
    pub next_pattern: nat,
}

/// What is asked of `open_file`.
pub struct OpenFileParams {
    pub project_key: ProjectKey,
    pub path: String,
    pub content: String,
    pub version: i32,
    /// The file source, if the caller knows it; else it is inferred from the
    /// path.
    pub document_file_source: Option<DocumentFileSource>,
    /// Whether the parse helper is kept for later changes of the document.
    pub persist_node_cache: bool,
}

/// The length of a text in bytes, encoded as UTF-8.
pub open spec fn byte_size(content: Seq<char>) -> usize {
    vstd::utf8::encode_utf8(content).len() as usize
}

/// The limit that keeps content of the given size from being parsed when it
/// is opened, if there is one: the limit of the project where the content is
/// over it; else, where the content is longer than the parsers take, that
/// length.
pub open spec fn exceeded_limit(projects: Seq<Project>, key: ProjectKey, size: usize) -> Option<
    usize,
> {
    if size > max_file_size_of(projects, key) {
        Some(max_file_size_of(projects, key))
    } else if size > MAX_PARSE_SIZE {
        Some(MAX_PARSE_SIZE)
    } else {
        None
    }
}

/// The index at which a registry holds `source`.
pub open spec fn position_of(sources: Seq<DocumentFileSource>, source: DocumentFileSource) -> int {
    choose|i: int| 0 <= i < sources.len() && sources[i] == source
}

/// In a registry without repetition a source stands at one index only.
pub proof fn lemma_position_of(sources: Seq<DocumentFileSource>, source: DocumentFileSource, i: int)
    requires
        sources.no_duplicates(),
        0 <= i < sources.len(),
        sources[i] == source,
    ensures
        position_of(sources, source) == i,
{
}

/// The file source under which a document is opened: the one the caller
/// names, else the one its path names, adjusted to the module system that the
/// project's manifest declares.
pub open spec fn source_to_open(
    projects: Seq<Project>,
    key: ProjectKey,
    path: Seq<char>,
    supplied: Option<DocumentFileSource>,
) -> DocumentFileSource {
    (match supplied {
        Some(source) => source,
        None => DocumentFileSource::spec_from_path(path),
    }).spec_for_manifest(package_type_of(projects, key), path_extension(path))
}

/// The source a parsed document is registered under: the one the parser
/// reported, else the one it was parsed as.
pub open spec fn source_to_store(
    source: DocumentFileSource,
    reported: Option<DocumentFileSource>,
) -> DocumentFileSource {
    match reported {
        Some(refined) => refined,
        None => source,
    }
}

impl WorkspaceModel {
    /// What holds of every server between operations:
    /// no file source is registered twice; every document's file-source index
    /// is registered; a parse helper is kept only for an open document; project
    /// keys are distinct and were handed out; stored pattern ids were handed
    /// out.
    pub open spec fn wf(self) -> bool {
        &&& self.file_sources.no_duplicates()
        &&& forall|path: Seq<char>| #[trigger]
            self.documents.contains_key(path) ==> self.documents[path].file_source_index
                < self.file_sources.len()
        &&& forall|path: Seq<char>| #[trigger]
            self.node_caches.contains_key(path) ==> self.documents.contains_key(path)
        &&& crate::projects::distinct_keys(self.projects)
        &&& forall|i: int|
            0 <= i < self.projects.len() ==> (#[trigger] self.projects[i]).key.id
                < self.projects_issued
        &&& self.next_pattern >= 1
        &&& forall|id: Seq<char>| #[trigger]
            self.patterns.contains_key(id) ==> exists|n: nat|
                1 <= n < self.next_pattern && id == crate::patterns::pattern_id_text(n)
    }

    /// The file source registered at `index`, if any.
    pub open spec fn source_at(self, index: usize) -> Option<DocumentFileSource> {
        if index < self.file_sources.len() {
            Some(self.file_sources[index as int])
        } else {
            None
        }
    }

    /// The language of the file at `path`: the file source of its document if
    /// it is open, else what the path names.
    pub open spec fn file_source_of(self, path: Seq<char>) -> DocumentFileSource {
        match lookup(self.documents, path) {
            Some(document) => match self.source_at(document.file_source_index) {
                Some(source) => source,
                None => DocumentFileSource::spec_from_path(path),
            },
            None => DocumentFileSource::spec_from_path(path),
        }
    }

    /// The capabilities of the file at `path`.
    pub open spec fn capabilities_at(self, path: Seq<char>) -> Capabilities {
        capabilities_of(self.file_source_of(path))
    }

    /// Whether `error` reports that the language of the file at `path` does
    /// not support an operation: it carries the language that the path names
    /// (or, if the path names none, the one its document is stored under), the
    /// path, and the path's extension.
    pub open spec fn is_capability_error(self, error: WorkspaceError, path: Seq<char>) -> bool {
        error matches WorkspaceError::SourceFileNotSupported { language, path: p, extension: e }
            && language == (if DocumentFileSource::spec_from_path(path) is Unknown {
            self.file_source_of(path)
        } else {
            DocumentFileSource::spec_from_path(path)
        }) && p@ == path && text_of(e) == path_extension(path)
    }
}

/// How `open_file` leaves the server.
///
/// The file source is settled and interned first. Content over the
/// project's size limit is stored unparsed, with a marker that records its
/// size and that limit; so is content within the project's limit that is
/// longer than the parsers take, with that length as the limit. Such a
/// document is merged with the document it replaces as any opened document
/// is: the later version and a scan's claim are kept. Content of a language
/// without a parser is refused, and only the
/// interned source remains. Otherwise the content is parsed under the
/// project's settings, the source that the parse reports is interned, the
/// document is stored merged with the one it replaces, and the parse helper
/// is kept if asked for.
pub open spec fn open_file_post(
    pre: WorkspaceModel,
    post: WorkspaceModel,
    opened_by_scanner: bool,
    params: OpenFileParams,
    result: Result<(), WorkspaceError>,
) -> bool {
    let path = params.path@;
    let source = source_to_open(pre.projects, params.project_key, path, params.document_file_source);
    let sources = interned(pre.file_sources, source);
    let size = byte_size(params.content@);
    let exceeded = exceeded_limit(pre.projects, params.project_key, size);
    &&& post.projects == pre.projects
    &&& post.projects_issued == pre.projects_issued
    &&& post.patterns == pre.patterns
    &&& post.next_pattern == pre.next_pattern
    &&& if exceeded is Some {
        let limit = exceeded->Some_0;
        &&& result is Ok
        &&& post.file_sources == sources
        &&& post.node_caches == pre.node_caches
        &&& post.documents == opened(
            pre.documents,
            path,
            Document {
                content: params.content,
                version: params.version,
                file_source_index: position_of(sources, source) as usize,
                syntax: Err(FileTooLarge { size, limit }),
                opened_by_scanner,
            },
        )
    } else if capabilities_of(source).parser.parse is None {
        &&& result matches Err(error) && pre.is_capability_error(error, path)
        &&& post.file_sources == sources
        &&& post.node_caches == pre.node_caches
        &&& post.documents == pre.documents
    } else {
        let stored_as = source_to_store(source, reported_source(source));
        let registry = interned(sources, stored_as);
        &&& result is Ok
        &&& post.file_sources == registry
        &&& post.node_caches.dom() == (if params.persist_node_cache {
            pre.node_caches.dom().insert(path)
        } else {
            pre.node_caches.dom()
        })
        &&& post.node_caches.remove(path) == pre.node_caches.remove(path)
        &&& post.documents.remove(path) == pre.documents.remove(path)
        &&& post.documents.contains_key(path)
        &&& post.documents[path].syntax matches Ok(parsed) && parsed.has_errors == parse_has_errors(
            source,
            params.content@,
            settings_of(pre.projects, params.project_key),
        ) && post.documents[path] == (Document {
            content: params.content,
            version: params.version,
            file_source_index: position_of(registry, stored_as) as usize,
            syntax: Ok(parsed),
            opened_by_scanner,
        }).spec_over(lookup(pre.documents, path))
    }
}

/// The workspace server.
pub struct WorkspaceServer {
    /// The capabilities of each language.
    pub(crate) features: Features,
    /// The registered projects with their settings.
    pub(crate) settings: Projects,
    /// The open documents.
    pub(crate) documents: DocumentStore,
    /// The file sources that documents refer to by index.
    pub(crate) file_sources: FileSources,
    /// The stored search patterns.
    pub(crate) patterns: PatternStore,
    /// Parse helpers of documents that are expected to change.
    pub(crate) node_cache: NodeCaches,
}

impl View for WorkspaceServer {
    type V = WorkspaceModel;

    open(crate) spec fn view(&self) -> WorkspaceModel {
        WorkspaceModel {
            documents: self.documents@,
            file_sources: self.file_sources@,
            node_caches: self.node_cache@,
            projects: self.settings@,
            projects_issued: self.settings.issued(),
            patterns: self.patterns@,
            next_pattern: self.patterns.next(),
        }
    }
}

impl WorkspaceServer {
    /// The representation is sound: at most one parse helper is kept per
    /// path, and the pattern counter holds its value in proper digits.
    pub open(crate) spec fn coherent(&self) -> bool {
        self.node_cache.wf() && self.patterns.coherent()
    }

    /// The server's invariant.
    pub open spec fn wf(&self) -> bool {
        self.coherent() && self@.wf()
    }

    /// A server with no document, no project and no pattern.
    pub fn new() -> (r: WorkspaceServer)
        ensures
            r.wf(),
            r@.documents == crate::document_store::no_documents(),
            r@.file_sources.len() == 0,
            r@.node_caches.dom() == Set::<Seq<char>>::empty(),
            r@.projects.len() == 0,
            r@.projects_issued == 0,
            r@.patterns == crate::patterns::no_patterns(),
            r@.next_pattern == 1,
    {
        WorkspaceServer {
            features: Features::new(),
            settings: Projects::new(),
            documents: DocumentStore::new(),
            file_sources: FileSources::new(),
            patterns: PatternStore::new(),
            node_cache: NodeCaches::new(),
        }
    }

    /// The file source registered at `index`, or `None` if none is.
    pub fn get_source(&self, index: usize) -> (r: Option<DocumentFileSource>)
        ensures
            r == self@.source_at(index),
    {
        self.file_sources.get_source(index)
    }

    /// Interns a file source and returns its index. An index, once given,
    /// stays valid and keeps naming the same source.
    pub fn insert_source(&mut self, source: DocumentFileSource) -> (r: usize)
        requires
            old(self).wf(),
        ensures
            final(self).wf(),
            final(self)@ == (WorkspaceModel {
                file_sources: interned(old(self)@.file_sources, source),
                ..old(self)@
            }),
            r == position_of(final(self)@.file_sources, source),
            final(self)@.source_at(r) == Some(source),
    {
        proof {
            lemma_interned_distinct(self@.file_sources, source);
        }
        let index = self.file_sources.insert_source(source);
        proof {
            lemma_position_of(self@.file_sources, source, index as int);
        }
        index
    }

    /// The language of the file at `path`.
    pub fn get_file_source(&self, path: &str) -> (r: DocumentFileSource)
        ensures
            r == self@.file_source_of(path@),
    {
        match self.documents.get(path) {
            Some(document) => match self.get_source(document.file_source_index) {
                Some(source) => source,
                None => DocumentFileSource::from_path(path),
            },
            None => DocumentFileSource::from_path(path),
        }
    }

    /// The capabilities of the file at `path`.
    pub fn get_file_capabilities(&self, path: &str) -> (r: Capabilities)
        ensures
            r == self@.capabilities_at(path@),
    {
        let language = self.get_file_source(path);
        self.features.get_capabilities(language)
    }

    /// The error for an operation that the language of the file at `path`
    /// does not support.
    pub fn build_capability_error(&self, path: &str) -> (r: WorkspaceError)
        ensures
            self@.is_capability_error(r, path@),
    {
        let file_source = self.get_file_source(path);
        let language = DocumentFileSource::from_path(path).or(file_source);
        WorkspaceError::SourceFileNotSupported {
            language,
            path: path.to_owned(),
            extension: extension(path),
        }
    }

    /// The manifest of a project, if the project is registered and has one.
    pub fn get_manifest(&self, project_key: ProjectKey) -> (r: Option<Manifest>)
        requires
            self.wf(),
        ensures
            r == crate::projects::manifest_of(self@.projects, project_key),
    {
        self.settings.get_manifest(project_key)
    }

    /// Stores a document that has been parsed: interns the file source that
    /// the parse reports, keeps the parse helper if asked to, and opens the
    /// document over whatever is stored at its path, merged with it.
    pub fn store_parsed(
        &mut self,
        opened_by_scanner: bool,
        params: OpenFileParams,
        index: usize,
        parsed: ParseResult,
        cache: NodeCache,
    )
        requires
            old(self).wf(),
            index < old(self)@.file_sources.len(),
        ensures
            final(self).wf(),
            final(self)@ == (WorkspaceModel {
                file_sources: match parsed.language {
                    Some(refined) => interned(old(self)@.file_sources, refined),
                    None => old(self)@.file_sources,
                },
                node_caches: if params.persist_node_cache {
                    old(self)@.node_caches.insert(params.path@, cache)
                } else {
                    old(self)@.node_caches
                },
                documents: opened(
                    old(self)@.documents,
                    params.path@,
                    Document {
                        content: params.content,
                        version: params.version,
                        file_source_index: match parsed.language {
                            Some(refined) => position_of(final(self)@.file_sources, refined) as usize,
                            None => index,
                        },
                        syntax: Ok(parsed.any_parse),
                        opened_by_scanner,
                    },
                ),
                ..old(self)@
            }),
    {
        let index = match parsed.language {
            Some(refined) => self.insert_source(refined),
            None => index,
        };
        if params.persist_node_cache {
            self.node_cache.insert(params.path.clone(), cache);
        }
        let document = Document {
            content: params.content,
            version: params.version,
            file_source_index: index,
            syntax: Ok(parsed.any_parse),
            opened_by_scanner,
        };
        self.documents.open(params.path, document);
    }

    /// Opens a file on behalf of a project scan: as `open_file`, with the
    /// document marked as opened by the scanner.
    pub fn open_file_by_scanner(&mut self, params: OpenFileParams) -> (r: Result<
        (),
        WorkspaceError,
    >)
        requires
            old(self).wf(),
        ensures
            final(self).wf(),
            open_file_post(old(self)@, final(self)@, true, params, r),
    {
        self.open_file_internal(true, params)
    }

    /// Opens a file on behalf of an editor or another client.
    pub fn open_file(&mut self, params: OpenFileParams) -> (r: Result<(), WorkspaceError>)
        requires
            old(self).wf(),
        ensures
            final(self).wf(),
            open_file_post(old(self)@, final(self)@, false, params, r),
    {
        self.open_file_internal(false, params)
    }

    /// Creates or refreshes the document at a path.
    pub fn open_file_internal(&mut self, opened_by_scanner: bool, params: OpenFileParams) -> (r:
        Result<(), WorkspaceError>)
        requires
            old(self).wf(),
        ensures
            final(self).wf(),
            open_file_post(old(self)@, final(self)@, opened_by_scanner, params, r),
    {
        let supplied = match params.document_file_source {
            Some(source) => source,
            None => DocumentFileSource::from_path(params.path.as_str()),
        };
        let package_type = match self.get_manifest(params.project_key) {
            Some(manifest) => manifest.package_type,
            None => None,
        };
        let path_extension = extension(params.path.as_str());
        let source = match &path_extension {
            Some(e) => supplied.for_manifest(package_type, Some(e.as_str())),
            None => supplied.for_manifest(package_type, None),
        };
        assert(source == source_to_open(
            self@.projects,
            params.project_key,
            params.path@,
            params.document_file_source,
        ));

        let index = self.insert_source(source);

        let size = text_size(params.content.as_str());
        let configured = self.settings.get_max_file_size(params.project_key);
        let exceeded = if size > configured {
            Some(configured)
        } else if size > MAX_PARSE_SIZE {
            Some(MAX_PARSE_SIZE)
        } else {
            None
        };
        match exceeded {
            Some(limit) => {
                let document = Document {
                    content: params.content,
                    version: params.version,
                    file_source_index: index,
                    syntax: Err(FileTooLarge { size, limit }),
                    opened_by_scanner,
                };
                self.documents.open(params.path, document);
                return Ok(());
            },
            None => {},
        }
        let mut node_cache = fresh_node_cache();
        let settings = self.settings.get_settings(params.project_key);
        let parsed = match self.features.parse(
            source,
            params.content.as_str(),
            settings,
            &mut node_cache,
        ) {
            Some(parsed) => parsed,
            None => {
                let error = self.build_capability_error(params.path.as_str());
                proof {
                    lemma_interned_distinct(old(self)@.file_sources, source);
                    lemma_same_file_source(old(self)@, self@, params.path@);
                }
                return Err(error);
            },
        };
        self.store_parsed(opened_by_scanner, params, index, parsed, node_cache);
        proof {
            let stored_as = source_to_store(source, reported_source(source));
            let sources = interned(old(self)@.file_sources, source);
            lemma_interned_distinct(old(self)@.file_sources, source);
            lemma_interned_distinct(sources, stored_as);
            assert(self@.file_sources == interned(sources, stored_as));
            lemma_position_of(self@.file_sources, stored_as, position_of(self@.file_sources, stored_as));
            assert(self@.node_caches.remove(params.path@) =~= old(self)@.node_caches.remove(params.path@));
            assert(self@.documents.remove(params.path@) =~= old(self)@.documents.remove(params.path@));
            if params.persist_node_cache {
                assert(self@.node_caches.dom() =~= old(self)@.node_caches.dom().insert(params.path@));
            }
        }
        Ok(())
    }
}

/// A document's language does not change when file sources are appended to
/// the registry.
pub proof fn lemma_same_file_source(pre: WorkspaceModel, post: WorkspaceModel, path: Seq<char>)
    requires
        pre.wf(),
        post.documents == pre.documents,
        pre.file_sources.is_prefix_of(post.file_sources),
    ensures
        post.file_source_of(path) == pre.file_source_of(path),
        forall|error: WorkspaceError|
            post.is_capability_error(error, path) == pre.is_capability_error(error, path),
{
    if pre.documents.contains_key(path) {
        let index = pre.documents[path].file_source_index;
        assert(pre.file_sources[index as int] == post.file_sources[index as int]);
    }
}

} // verus!
