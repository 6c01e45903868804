//! Reading, changing and closing the documents of a workspace.

use super::{byte_size, WorkspaceModel, WorkspaceServer};
use crate::capabilities::{
    capabilities_of, parse_has_errors, parseable, reported_source, text_size, ParseResult,
    MAX_PARSE_SIZE,
};
use crate::document::{Document, FileTooLarge, Parsed};
use crate::document_store::lookup;
use crate::errors::WorkspaceError;
use crate::node_cache::fresh_node_cache;
use crate::projects::{max_file_size_of, settings_of, ProjectKey};
use biome_rowan::NodeCache;
use vstd::prelude::*;

verus! {

/// The size of a document's content next to the limit of a project.
#[derive(Clone, Copy, Debug, PartialEq, Eq, Structural)]
pub struct CheckFileSizeResult {
    pub file_size: usize,
    pub limit: usize,
}

impl WorkspaceModel {
    /// The state after the file at `path` has been closed by a client: its
    /// parse helper is gone, and so is its document unless a scan opened
    /// it.
    pub open spec fn after_close_file(self, path: Seq<char>) -> WorkspaceModel {
        WorkspaceModel {
            node_caches: self.node_caches.remove(path),
            documents: match lookup(self.documents, path) {
                Some(document) => if document.opened_by_scanner {
                    self.documents
                } else {
                    self.documents.remove(path)
                },
                None => self.documents,
            },
            ..self
        }
    }

    /// What asking for the parse of the file at `path` yields: the parse of
    /// its document; `NotFound` if no document is open there; `FileIgnored`
    /// with the path if the document is stored without a parse.
    pub open spec fn parse_at(
        self,
        path: Seq<char>,
        result: Result<Parsed, WorkspaceError>,
    ) -> bool {
        match lookup(self.documents, path) {
            None => result == Err::<Parsed, WorkspaceError>(WorkspaceError::NotFound),
            Some(document) => match document.syntax {
                Ok(parsed) => result == Ok::<Parsed, WorkspaceError>(parsed),
                Err(_) => result matches Err(error) && error.is_file_ignored_at(path),
            },
        }
    }
}

/// How `change_file` leaves the server.
///
/// Without a document at the path the call fails with `NotFound` and nothing
/// changes. Content longer than the parsers take replaces the document's
/// content unparsed, with the marker, and the cache is left alone. Otherwise
/// the parse helper of the path is taken out of the cache and the content is
/// parsed under the document's file source and the project's settings. If
/// that language has no parser the call fails and the helper is not put
/// back. Else the document is replaced: new content, version and parse, file
/// source and scanner mark as before; and the helper is back where it was.
pub open spec fn change_file_post(
    pre: WorkspaceModel,
    post: WorkspaceModel,
    project_key: ProjectKey,
    path: Seq<char>,
    content: String,
    version: i32,
    result: Result<(), WorkspaceError>,
) -> bool {
    &&& post.projects == pre.projects
    &&& post.projects_issued == pre.projects_issued
    &&& post.patterns == pre.patterns
    &&& post.next_pattern == pre.next_pattern
    &&& post.file_sources == pre.file_sources
    &&& match lookup(pre.documents, path) {
        None => result == Err::<(), WorkspaceError>(WorkspaceError::NotFound) && post == pre,
        Some(prior) => if !parseable(content@) {
            &&& result is Ok
            &&& post.node_caches == pre.node_caches
            &&& post.documents == pre.documents.insert(
                path,
                Document {
                    content,
                    version,
                    file_source_index: prior.file_source_index,
                    syntax: Err(
                        FileTooLarge { size: byte_size(content@), limit: MAX_PARSE_SIZE },
                    ),
                    opened_by_scanner: prior.opened_by_scanner,
                },
            )
        } else {
            match pre.source_at(prior.file_source_index) {
            None => result == Err::<(), WorkspaceError>(WorkspaceError::NotFound)
                && post.documents == pre.documents && post.node_caches == pre.node_caches.remove(
                path,
            ),
            Some(source) => if capabilities_of(source).parser.parse is None {
                &&& result matches Err(error) && pre.is_capability_error(error, path)
                &&& post.documents == pre.documents
                &&& post.node_caches == pre.node_caches.remove(path)
            } else {
                &&& result is Ok
                &&& post.node_caches.dom() == pre.node_caches.dom()
                &&& post.node_caches.remove(path) == pre.node_caches.remove(path)
                &&& post.documents.remove(path) == pre.documents.remove(path)
                &&& post.documents.contains_key(path)
                &&& post.documents[path].syntax matches Ok(parsed) && parsed.has_errors
                    == parse_has_errors(source, content@, settings_of(pre.projects, project_key))
                    && post.documents[path] == (Document {
                    content,
                    version,
                    file_source_index: prior.file_source_index,
                    syntax: Ok(parsed),
                    opened_by_scanner: prior.opened_by_scanner,
                })
            },
            }
        },
    }
}

impl WorkspaceServer {
    /// A snapshot of the document at `path`, if one is open there.
    pub fn document(&self, path: &str) -> (r: Option<Document>)
        ensures
            r == lookup(self@.documents, path@),
    {
        self.documents.get(path)
    }

    /// The parse of the file at `path`.
    pub fn get_parse(&self, path: &str) -> (r: Result<Parsed, WorkspaceError>)
        ensures
            self@.parse_at(path@, r),
    {
        match self.documents.get(path) {
            None => Err(WorkspaceError::NotFound),
            Some(document) => match document.syntax {
                Ok(parsed) => Ok(parsed),
                Err(_) => Err(WorkspaceError::FileIgnored { path: path.to_owned() }),
            },
        }
    }

    /// Parses `content` under the file source registered at
    /// `file_source_index` and the settings of the project. Fails with
    /// `NotFound` if no source is registered there, and with the capability
    /// error of `path` if the source's language has no parser. The content is
    /// no longer than the parsers take.
    pub fn parse(
        &self,
        project_key: ProjectKey,
        path: &str,
        content: &str,
        file_source_index: usize,
        node_cache: &mut NodeCache,
    ) -> (r: Result<ParseResult, WorkspaceError>)
        requires
            self.wf(),
            parseable(content@),
        ensures
            match self@.source_at(file_source_index) {
                None => r == Err::<ParseResult, WorkspaceError>(WorkspaceError::NotFound),
                Some(source) => if capabilities_of(source).parser.parse is None {
                    r matches Err(error) && self@.is_capability_error(error, path@)
                } else {
                    r matches Ok(parsed) && parsed.any_parse.has_errors == parse_has_errors(
                        source,
                        content@,
                        settings_of(self@.projects, project_key),
                    ) && parsed.language == reported_source(source)
                },
            },
    {
        let source = match self.get_source(file_source_index) {
            Some(source) => source,
            None => {
                return Err(WorkspaceError::NotFound);
            },
        };
        let settings = self.settings.get_settings(project_key);
        match self.features.parse(source, content, settings, node_cache) {
            Some(parsed) => Ok(parsed),
            None => Err(self.build_capability_error(path)),
        }
    }

    /// The size in bytes of the content of the document at `path`, and the
    /// size limit of the given project. Fails with `NotFound` if no document
    /// is open at the path.
    pub fn check_file_size(&self, project_key: ProjectKey, path: &str) -> (r: Result<
        CheckFileSizeResult,
        WorkspaceError,
    >)
        requires
            self.wf(),
        ensures
            r == (match lookup(self@.documents, path@) {
                Some(document) => Ok::<CheckFileSizeResult, WorkspaceError>(
                    CheckFileSizeResult {
                        file_size: byte_size(document.content@),
                        limit: max_file_size_of(self@.projects, project_key),
                    },
                ),
                None => Err::<CheckFileSizeResult, WorkspaceError>(WorkspaceError::NotFound),
            }),
    {
        let document = match self.documents.get(path) {
            Some(document) => document,
            None => {
                return Err(WorkspaceError::NotFound);
            },
        };
        let file_size = text_size(document.content.as_str());
        let limit = self.settings.get_max_file_size(project_key);
        Ok(CheckFileSizeResult { file_size, limit })
    }

    /// The content of the document at `path`. Fails with `NotFound` if no
    /// document is open there.
    pub fn get_file_content(&self, path: &str) -> (r: Result<String, WorkspaceError>)
        ensures
            r == (match lookup(self@.documents, path@) {
                Some(document) => Ok::<String, WorkspaceError>(document.content),
                None => Err::<String, WorkspaceError>(WorkspaceError::NotFound),
            }),
    {
        match self.documents.get(path) {
            Some(document) => Ok(document.content),
            None => Err(WorkspaceError::NotFound),
        }
    }

    /// Replaces the document at `path` by one with new content, version and
    /// parse, under the file source and scanner mark given, and puts the
    /// parse helper back into the cache if there is one to put back.
    pub fn store_changed(
        &mut self,
        path: String,
        content: String,
        version: i32,
        file_source_index: usize,
        opened_by_scanner: bool,
        parsed: ParseResult,
        node_cache: Option<NodeCache>,
    )
        requires
            old(self).wf(),
            file_source_index < old(self)@.file_sources.len(),
        ensures
            final(self).wf(),
            final(self)@ == (WorkspaceModel {
                node_caches: match node_cache {
                    Some(cache) => old(self)@.node_caches.insert(path@, cache),
                    None => old(self)@.node_caches,
                },
                documents: old(self)@.documents.insert(
                    path@,
                    Document {
                        content,
                        version,
                        file_source_index,
                        syntax: Ok(parsed.any_parse),
                        opened_by_scanner,
                    },
                ),
                ..old(self)@
            }),
    {
        let document = Document {
            content,
            version,
            file_source_index,
            syntax: Ok(parsed.any_parse),
            opened_by_scanner,
        };
        match node_cache {
            Some(cache) => {
                self.node_cache.insert(path.clone(), cache);
            },
            None => {},
        }
        let _ = self.documents.insert(path, document);
    }

    /// Changes the content of an open document. The new version is later
    /// than the document's.
    pub fn change_file(
        &mut self,
        project_key: ProjectKey,
        path: String,
        content: String,
        version: i32,
    ) -> (r: Result<(), WorkspaceError>)
        requires
            old(self).wf(),
            lookup(old(self)@.documents, path@) matches Some(prior) ==> version > prior.version,
        ensures
            final(self).wf(),
            change_file_post(old(self)@, final(self)@, project_key, path@, content, version, r),
    {
        let (index, opened_by_scanner) = match self.documents.get(path.as_str()) {
            Some(document) => (document.file_source_index, document.opened_by_scanner),
            None => {
                return Err(WorkspaceError::NotFound);
            },
        };
        let size = text_size(content.as_str());
        if size > MAX_PARSE_SIZE {
            let document = Document {
                content,
                version,
                file_source_index: index,
                syntax: Err(FileTooLarge { size, limit: MAX_PARSE_SIZE }),
                opened_by_scanner,
            };
            let _ = self.documents.insert(path, document);
            proof {
                assert(self@.patterns == old(self)@.patterns);
                assert(self@.projects == old(self)@.projects);
                assert(self@.node_caches == old(self)@.node_caches);
                assert(self@.file_sources == old(self)@.file_sources);
            }
            return Ok(());
        }
        let taken = self.node_cache.remove(path.as_str());
        assert(self@.patterns == old(self)@.patterns);
        assert(self@.node_caches == old(self)@.node_caches.remove(path@));
        let persist_node_cache = taken.is_some();
        let mut node_cache = match taken {
            Some(cache) => cache,
            None => fresh_node_cache(),
        };
        let parsed = match self.parse(
            project_key,
            path.as_str(),
            content.as_str(),
            index,
            &mut node_cache,
        ) {
            Ok(parsed) => parsed,
            Err(error) => {
                proof {
                    super::lemma_same_file_source(old(self)@, self@, path@);
                }
                return Err(error);
            },
        };
        let kept = if persist_node_cache {
            Some(node_cache)
        } else {
            None
        };
        self.store_changed(path, content, version, index, opened_by_scanner, parsed, kept);
        proof {
            assert(self@.node_caches.dom() =~= old(self)@.node_caches.dom());
            assert(self@.node_caches.remove(path@) =~= old(self)@.node_caches.remove(path@));
            assert(self@.documents.remove(path@) =~= old(self)@.documents.remove(path@));
        }
        Ok(())
    }

    /// Closes a file on behalf of an editor or another client. The document
    /// is removed unless a project scan opened it; the parse helper of the
    /// path is dropped either way. Fails with `NotFound` if no document is
    /// open at the path.
    pub fn close_file(&mut self, path: &str) -> (r: Result<(), WorkspaceError>)
        requires
            old(self).wf(),
        ensures
            final(self).wf(),
            final(self)@ == old(self)@.after_close_file(path@),
            r == (match lookup(old(self)@.documents, path@) {
                Some(_) => Ok::<(), WorkspaceError>(()),
                None => Err::<(), WorkspaceError>(WorkspaceError::NotFound),
            }),
    {
        let _ = self.node_cache.remove(path);
        let found = self.documents.get(path);
        let result = match found {
            Some(document) => {
                if !document.opened_by_scanner {
                    self.documents.remove(path);
                }
                Ok(())
            },
            None => Err(WorkspaceError::NotFound),
        };
        proof {
            assert(self@.patterns == old(self)@.patterns);
            assert(self@.projects == old(self)@.projects);
            assert(self@.file_sources == old(self)@.file_sources);
            assert(self@.node_caches == old(self)@.node_caches.remove(path@));
            assert(self@ == old(self)@.after_close_file(path@));
        }
        result
    }
}

} // verus!
