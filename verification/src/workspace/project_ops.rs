//! Opening and closing projects, and replacing what a project is configured
//! with.

use super::{position_of, WorkspaceModel, WorkspaceServer};
use super::byte_size;
use crate::capabilities::{parse_has_errors, parseable, text_size, MAX_PARSE_SIZE};
use crate::document::{Document, FileTooLarge};
use crate::document_store::lookup;
use crate::errors::WorkspaceError;
use crate::file_source::{DocumentFileSource, JsonFileSource};
use crate::node_cache::fresh_node_cache;
use crate::paths::path_ancestors;
use crate::projects::{
    belongs_only_to, default_settings, has_project, index_of_project, project_of, Manifest,
    Project, ProjectKey, Settings,
};
use crate::root::{find_project_root, search_is, ConfigProbe};
use crate::source_registry::interned;
use vstd::prelude::*;

verus! {

/// The file source of a package manifest: standard JSON.
pub open spec fn manifest_source() -> DocumentFileSource {
    DocumentFileSource::Json(JsonFileSource { jsonc: false, allow_trailing_comma: false })
}

/// How `set_manifest_for_project` leaves the server: the manifest is the
/// project's, if the project is registered; and its text, parsed as standard
/// JSON whatever the project's settings, is open as a document at the
/// manifest's path, merged with the document it replaces as any opened
/// document is. A text longer than the parsers take is stored unparsed, with
/// the marker.
pub open spec fn set_manifest_post(
    pre: WorkspaceModel,
    post: WorkspaceModel,
    project_key: ProjectKey,
    manifest_path: Seq<char>,
    content: String,
    version: i32,
    manifest: Manifest,
) -> bool {
    let registry = interned(pre.file_sources, manifest_source());
    &&& post.projects_issued == pre.projects_issued
    &&& post.patterns == pre.patterns
    &&& post.next_pattern == pre.next_pattern
    &&& post.node_caches == pre.node_caches
    &&& post.file_sources == registry
    &&& post.projects == (match project_of(pre.projects, project_key) {
        Some(project) => pre.projects.update(
            index_of_project(pre.projects, project_key),
            Project { manifest: Some(manifest), ..project },
        ),
        None => pre.projects,
    })
    &&& post.documents.remove(manifest_path) == pre.documents.remove(manifest_path)
    &&& post.documents.contains_key(manifest_path)
    &&& if parseable(content@) {
        post.documents[manifest_path].syntax matches Ok(parsed) && parsed.has_errors
            == parse_has_errors(manifest_source(), content@, None)
            && post.documents[manifest_path] == (Document {
            content,
            version,
            file_source_index: position_of(registry, manifest_source()) as usize,
            syntax: Ok(parsed),
            opened_by_scanner: false,
        }).spec_over(lookup(pre.documents, manifest_path))
    } else {
        post.documents[manifest_path] == (Document {
            content,
            version,
            file_source_index: position_of(registry, manifest_source()) as usize,
            syntax: Err(FileTooLarge { size: byte_size(content@), limit: MAX_PARSE_SIZE }),
            opened_by_scanner: false,
        }).spec_over(lookup(pre.documents, manifest_path))
    }
}

/// The documents that closing a project sweeps away: those that a scan
/// opened and that lie under the project's root and under no other
/// project's.
pub open spec fn swept(pre: WorkspaceModel, root: Seq<char>) -> Set<Seq<char>> {
    Set::new(
        |path: Seq<char>|
            pre.documents.contains_key(path) && pre.documents[path].opened_by_scanner
                && belongs_only_to(pre.projects, path, root),
    )
}

/// The state after a registered project has been closed: the documents it
/// alone owns through a scan are gone with their parse helpers, and the project
/// is unregistered.
pub open spec fn after_close_project(
    pre: WorkspaceModel,
    project_key: ProjectKey,
) -> WorkspaceModel {
    let root = pre.projects[index_of_project(pre.projects, project_key)].path@;
    WorkspaceModel {
        documents: pre.documents.remove_keys(swept(pre, root)),
        node_caches: pre.node_caches.remove_keys(swept(pre, root)),
        projects: pre.projects.remove(index_of_project(pre.projects, project_key)),
        ..pre
    }
}

/// The part of [`swept`] that lies among the first `count` of `paths`.
pub open spec fn swept_among(
    pre: WorkspaceModel,
    root: Seq<char>,
    paths: Seq<String>,
    count: int,
) -> Set<Seq<char>> {
    Set::new(
        |path: Seq<char>|
            swept(pre, root).contains(path) && exists|j: int|
                0 <= j < count && (#[trigger] paths[j])@ == path,
    )
}

impl WorkspaceServer {
    /// Replaces the settings of a project. Fails with `NoProject` if the key
    /// is not registered.
    pub fn update_settings(&mut self, project_key: ProjectKey, settings: Settings) -> (r: Result<
        (),
        WorkspaceError,
    >)
        requires
            old(self).wf(),
        ensures
            final(self).wf(),
            final(self)@ == (WorkspaceModel {
                projects: match project_of(old(self)@.projects, project_key) {
                    Some(project) => old(self)@.projects.update(
                        index_of_project(old(self)@.projects, project_key),
                        Project { settings, ..project },
                    ),
                    None => old(self)@.projects,
                },
                ..old(self)@
            }),
            r == (if has_project(old(self)@.projects, project_key) {
                Ok::<(), WorkspaceError>(())
            } else {
                Err::<(), WorkspaceError>(WorkspaceError::NoProject)
            }),
    {
        if self.settings.set_settings(project_key, settings) {
            Ok(())
        } else {
            Err(WorkspaceError::NoProject)
        }
    }

    /// Sets the manifest of a project and opens the manifest's text as a
    /// document.
    pub fn set_manifest_for_project(
        &mut self,
        project_key: ProjectKey,
        manifest_path: String,
        content: String,
        version: i32,
        manifest: Manifest,
    ) -> (r: Result<(), WorkspaceError>)
        requires
            old(self).wf(),
        ensures
            final(self).wf(),
            r is Ok,
            set_manifest_post(
                old(self)@,
                final(self)@,
                project_key,
                manifest_path@,
                content,
                version,
                manifest,
            ),
    {
        let index = self.insert_source(DocumentFileSource::Json(JsonFileSource::json()));
        let size = text_size(content.as_str());
        let syntax = if size > MAX_PARSE_SIZE {
            Err(FileTooLarge { size, limit: MAX_PARSE_SIZE })
        } else {
            let mut node_cache = fresh_node_cache();
            let parsed = self.features.parse_json(
                JsonFileSource::json(),
                content.as_str(),
                None,
                &mut node_cache,
            );
            Ok(parsed.any_parse)
        };
        let _ = self.settings.insert_manifest(project_key, manifest);
        let document = Document {
            content,
            version,
            file_source_index: index,
            syntax,
            opened_by_scanner: false,
        };
        self.documents.open(manifest_path, document);
        proof {
            assert(self@.documents.remove(manifest_path@) =~= old(self)@.documents.remove(
                manifest_path@,
            ));
        }
        Ok(())
    }

    /// Whether another project can be opened: whether a key is left to hand
    /// out.
    pub fn can_open_project(&self) -> (r: bool)
        ensures
            r == (self@.projects_issued < u64::MAX),
    {
        self.settings.has_fresh_key()
    }

    /// Registers the project that `path` lies in and returns its key.
    ///
    /// The project's root is searched for among the ancestors of `path`, of
    /// which `probes` reports (see [`find_project_root`]). If the search
    /// finds none and `open_uninitialized` is set, `path` itself becomes the
    /// root; if it is not set, the error of the search is returned and no
    /// project is registered.
    pub fn open_project(
        &mut self,
        path: String,
        open_uninitialized: bool,
        probes: &Vec<ConfigProbe>,
    ) -> (r: Result<ProjectKey, WorkspaceError>)
        requires
            old(self).wf(),
            old(self)@.projects_issued < u64::MAX,
        ensures
            final(self).wf(),
            exists|found: Result<String, WorkspaceError>|
                search_is(path_ancestors(path@), probes@, found) && (match found {
                    Ok(root) => r matches Ok(key) && registers(old(self)@, final(self)@, key, root),
                    Err(error) => if open_uninitialized {
                        r matches Ok(key) && registers(old(self)@, final(self)@, key, path)
                    } else {
                        r == Err::<ProjectKey, WorkspaceError>(error) && final(self)@ == old(self)@
                    },
                }),
    {
        let found = find_project_root(path.as_str(), probes);
        let root = match found {
            Ok(root) => root,
            Err(error) => {
                if open_uninitialized {
                    path
                } else {
                    return Err(error);
                }
            },
        };
        let key = self.settings.insert_project(root);
        proof {
            assert(self@.patterns == old(self)@.patterns);
            assert(self@.node_caches == old(self)@.node_caches);
            assert(self@.documents == old(self)@.documents);
            assert(self@.projects == old(self)@.projects.push(
                Project { key, path: root, settings: default_settings(), manifest: None },
            ));
        }
        Ok(key)
    }

    /// The folder that a scan of the project goes over: the given one, or
    /// else the project's root. Fails with `NoProject` if no folder is given
    /// and the key is not registered.
    pub fn scan_project_folder(&self, project_key: ProjectKey, path: Option<String>) -> (r: Result<
        String,
        WorkspaceError,
    >)
        requires
            self.wf(),
        ensures
            match path {
                Some(folder) => r == Ok::<String, WorkspaceError>(folder),
                None => match project_of(self@.projects, project_key) {
                    Some(project) => r == Ok::<String, WorkspaceError>(project.path),
                    None => r == Err::<String, WorkspaceError>(WorkspaceError::NoProject),
                },
            },
    {
        match path {
            Some(folder) => Ok(folder),
            None => match self.settings.get_project_path(project_key) {
                Some(root) => Ok(root),
                None => Err(WorkspaceError::NoProject),
            },
        }
    }

    /// Closes a project: sweeps away the documents that a scan opened under
    /// the project's root and under no other project's, with their parse
    /// helpers, and unregisters the project. Fails with `NoProject`, changing
    /// nothing, if the key is not registered.
    pub fn close_project(&mut self, project_key: ProjectKey) -> (r: Result<(), WorkspaceError>)
        requires
            old(self).wf(),
        ensures
            final(self).wf(),
            match project_of(old(self)@.projects, project_key) {
                None => r == Err::<(), WorkspaceError>(WorkspaceError::NoProject) && final(self)@
                    == old(self)@,
                Some(project) => r is Ok && final(self)@ == after_close_project(
                    old(self)@,
                    project_key,
                ),
            },
    {
        let project_path = match self.settings.get_project_path(project_key) {
            Some(path) => path,
            None => {
                return Err(WorkspaceError::NoProject);
            },
        };
        let ghost pre = self@;
        let ghost root = project_path@;
        let paths = self.documents.paths();
        let mut i: usize = 0;
        proof {
            let none = swept_among(pre, root, paths@, 0);
            assert(none =~= Set::<Seq<char>>::empty());
            assert(pre.documents.remove_keys(none) =~= pre.documents);
            assert(pre.node_caches.remove_keys(none) =~= pre.node_caches);
        }
        while i < paths.len()
            invariant
                i <= paths@.len(),
                pre == old(self)@,
                pre.wf(),
                root == project_path@,
                self.coherent(),
                forall|k: int| 0 <= k < paths@.len() ==> pre.documents.contains_key(#[trigger] paths@[k]@),
                forall|k: int, j: int| 0 <= k < j < paths@.len() ==> paths@[k]@ != paths@[j]@,
                self@ == (WorkspaceModel {
                    documents: pre.documents.remove_keys(swept_among(pre, root, paths@, i as int)),
                    node_caches: pre.node_caches.remove_keys(swept_among(pre, root, paths@, i as int)),
                    ..pre
                }),
            decreases paths@.len() - i,
        {
            let path = paths[i].as_str();
            let ghost before = swept_among(pre, root, paths@, i as int);
            let ghost after = swept_among(pre, root, paths@, i as int + 1);
            proof {
                assert(!before.contains(path@)) by {
                    if before.contains(path@) {
                        let j = choose|j: int| 0 <= j < i && (#[trigger] paths@[j])@ == path@;
                        assert(paths@[j]@ != paths@[i as int]@);
                    }
                }
                assert(forall|p: Seq<char>| before.contains(p) ==> after.contains(p));
                assert forall|p: Seq<char>| after.contains(p) && p != path@ implies before.contains(p) by {
                    let j = choose|j: int| 0 <= j < i + 1 && (#[trigger] paths@[j])@ == p;
                    assert(j < i);
                }
            }
            let document = self.documents.get(path);
            let sweep = match document {
                Some(document) => document.opened_by_scanner
                    && self.settings.path_belongs_only_to_project_with_path(
                    path,
                    project_path.as_str(),
                ),
                None => false,
            };
            if sweep {
                self.documents.remove(path);
                let _ = self.node_cache.remove(path);
                proof {
                    assert(after.contains(path@)) by {
                        assert(paths@[i as int]@ == path@);
                    }
                    assert(after =~= before.insert(path@));
                    assert(self@.documents =~= pre.documents.remove_keys(after));
                    assert(self@.node_caches =~= pre.node_caches.remove_keys(after));
                }
            } else {
                proof {
                    assert(!after.contains(path@));
                    assert(after =~= before);
                }
            }
            i += 1;
        }
        proof {
            let last = swept_among(pre, root, paths@, paths@.len() as int);
            assert forall|p: Seq<char>| swept(pre, root).contains(p) implies last.contains(p) by {
                lemma_listed(pre, paths@, p);
            }
            assert(last =~= swept(pre, root));
        }
        self.settings.remove_project(project_key);
        Ok(())
    }
}

/// Whether `post` is `pre` with one more project: a project with default
/// settings and no manifest, rooted at `root`, under the key `key`, which
/// was not registered before.
pub open spec fn registers(
    pre: WorkspaceModel,
    post: WorkspaceModel,
    key: ProjectKey,
    root: String,
) -> bool {
    &&& !has_project(pre.projects, key)
    &&& key.id == pre.projects_issued
    &&& post == (WorkspaceModel {
        projects: pre.projects.push(
            Project { key, path: root, settings: default_settings(), manifest: None },
        ),
        projects_issued: (pre.projects_issued + 1) as u64,
        ..pre
    })
}

/// A list that names every open document names each one.
pub proof fn lemma_listed(pre: WorkspaceModel, paths: Seq<String>, path: Seq<char>)
    requires
        pre.documents.contains_key(path),
        forall|p: Seq<char>| #[trigger]
            pre.documents.contains_key(p) ==> exists|i: int| 0 <= i < paths.len() && paths[i]@ == p,
    ensures
        exists|j: int| 0 <= j < paths.len() && (#[trigger] paths[j])@ == path,
{
    let i = choose|i: int| 0 <= i < paths.len() && paths[i]@ == path;
    assert(paths[i]@ == path);
}

} // verus!
