//! The registry of projects: for each key a root path, the settings in force
//! and the manifest, if one was set.

use crate::file_source::PackageType;
use crate::paths::{path_starts_with, starts_with};
use vstd::prelude::*;

verus! {

/// The size limit, in bytes, of a document whose project sets none.
pub const DEFAULT_FILE_SIZE_LIMIT: usize = 1048576;

/// Identifies a registered project. Keys are handed out by
/// [`Projects::insert_project`] and never handed out twice.
#[derive(Clone, Copy, Debug, PartialEq, Eq, Hash, Structural)]
pub struct ProjectKey {
    pub id: u64,
}

/// What the workspace reads of a project's file settings.
#[derive(Clone, Copy, Debug, PartialEq, Eq, Structural)]
pub struct FilesSettings {
    /// The largest content, in bytes, that is still parsed.
    pub max_size: usize,
    /// Whether files of unknown language are passed over in silence.
    pub ignore_unknown: bool,
}

/// What the workspace reads of a project's formatter settings.
#[derive(Clone, Copy, Debug, PartialEq, Eq, Structural)]
pub struct FormatterSettings {
    /// Whether the formatter is switched on.
    pub enabled: bool,
    /// Whether a document with syntax errors is formatted all the same.
    pub format_with_errors: bool,
}

/// What the workspace reads of a project's linter settings.
#[derive(Clone, Copy, Debug, PartialEq, Eq, Structural)]
pub struct LinterSettings {
    /// Whether the linter is switched on.
    pub enabled: bool,
}

/// What the workspace reads of a project's settings for organizing imports.
#[derive(Clone, Copy, Debug, PartialEq, Eq, Structural)]
pub struct OrganizeImportsSettings {
    /// Whether organizing imports is switched on.
    pub enabled: bool,
}

/// What the workspace reads of a project's settings for parsing scripts.
#[derive(Clone, Copy, Debug, PartialEq, Eq, Structural)]
pub struct JsParserSettings {
    /// Whether decorators on the parameters of a class are parsed.
    pub parse_class_parameter_decorators: bool,
}

/// What the workspace reads of a project's settings for parsing JSON.
#[derive(Clone, Copy, Debug, PartialEq, Eq, Structural)]
pub struct JsonParserSettings {
    /// Whether comments are allowed in every JSON file.
    pub allow_comments: bool,
    /// Whether trailing commas are allowed in every JSON file.
    pub allow_trailing_commas: bool,
}

/// The settings of a project for each language.
#[derive(Clone, Copy, Debug, PartialEq, Eq, Structural)]
pub struct LanguageSettings {
    pub javascript: JsParserSettings,
    pub json: JsonParserSettings,
}

/// The settings of one project.
#[derive(Clone, Copy, Debug, PartialEq, Eq, Structural)]
pub struct Settings {
    pub files: FilesSettings,
    pub formatter: FormatterSettings,
    pub linter: LinterSettings,
    pub organize_imports: OrganizeImportsSettings,
    pub languages: LanguageSettings,
}

/// What the workspace reads of a package manifest.
#[derive(Clone, Copy, Debug, PartialEq, Eq, Structural)]
pub struct Manifest {
    pub package_type: Option<PackageType>,
}

/// A registered project.
pub struct Project {
    pub key: ProjectKey,
    /// The project's root directory.
    pub path: String,
    pub settings: Settings,
    pub manifest: Option<Manifest>,
}

/// The settings of a project that has set none.
pub open spec fn default_settings() -> Settings {
    Settings {
        files: FilesSettings { max_size: DEFAULT_FILE_SIZE_LIMIT, ignore_unknown: false },
        formatter: FormatterSettings { enabled: true, format_with_errors: false },
        linter: LinterSettings { enabled: true },
        organize_imports: OrganizeImportsSettings { enabled: true },
        languages: LanguageSettings {
            javascript: JsParserSettings { parse_class_parameter_decorators: false },
            json: JsonParserSettings { allow_comments: false, allow_trailing_commas: false },
        },
    }
}

/// Whether `entries[i]` is the project with the given key.
pub open spec fn project_at(entries: Seq<Project>, key: ProjectKey, i: int) -> bool {
    0 <= i < entries.len() && entries[i].key == key
}

/// Whether a project with the given key is registered.
pub open spec fn has_project(entries: Seq<Project>, key: ProjectKey) -> bool {
    exists|i: int| project_at(entries, key, i)
}

/// Where the project with the given key stands among the entries.
pub open spec fn index_of_project(entries: Seq<Project>, key: ProjectKey) -> int {
    choose|i: int| project_at(entries, key, i)
}

/// The project with the given key, if one is registered.
pub open spec fn project_of(entries: Seq<Project>, key: ProjectKey) -> Option<Project> {
    if has_project(entries, key) {
        Some(entries[index_of_project(entries, key)])
    } else {
        None
    }
}

/// No two entries share a key.
pub open spec fn distinct_keys(entries: Seq<Project>) -> bool {
    forall|i: int, j: int|
        0 <= i < entries.len() && 0 <= j < entries.len() && i != j ==> (#[trigger] entries[i]).key
            != (#[trigger] entries[j]).key
}

/// The settings in force for a key: those of its project, if it is
/// registered.
pub open spec fn settings_of(entries: Seq<Project>, key: ProjectKey) -> Option<Settings> {
    match project_of(entries, key) {
        Some(project) => Some(project.settings),
        None => None,
    }
}

/// The manifest of a key's project, if the project is registered and has one.
pub open spec fn manifest_of(entries: Seq<Project>, key: ProjectKey) -> Option<Manifest> {
    match project_of(entries, key) {
        Some(project) => project.manifest,
        None => None,
    }
}

/// The module system that a key's manifest declares, if any.
pub open spec fn package_type_of(entries: Seq<Project>, key: ProjectKey) -> Option<PackageType> {
    match manifest_of(entries, key) {
        Some(manifest) => manifest.package_type,
        None => None,
    }
}

/// The size limit in force for a key: that of its project's settings, or the
/// default if the project is not registered.
pub open spec fn max_file_size_of(entries: Seq<Project>, key: ProjectKey) -> usize {
    match settings_of(entries, key) {
        Some(settings) => settings.files.max_size,
        None => DEFAULT_FILE_SIZE_LIMIT,
    }
}

/// A path belongs to a project if the project's root is an ancestor of it.
pub open spec fn belongs_to(path: Seq<char>, root: Seq<char>) -> bool {
    path_starts_with(path, root)
}

/// Whether `path` lies under a project rooted at `root` and under no project
/// rooted elsewhere.
pub open spec fn belongs_only_to(entries: Seq<Project>, path: Seq<char>, root: Seq<char>) -> bool {
    &&& exists|i: int|
        0 <= i < entries.len() && (#[trigger] entries[i]).path@ == root && belongs_to(path, root)
    &&& forall|i: int|
        0 <= i < entries.len() && belongs_to(path, (#[trigger] entries[i]).path@) ==> entries[i].path@
            == root
}

/// In a registry without repeated keys an entry is the project of its key.
pub proof fn lemma_project_at(entries: Seq<Project>, i: int)
    requires
        distinct_keys(entries),
        0 <= i < entries.len(),
    ensures
        has_project(entries, entries[i].key),
        index_of_project(entries, entries[i].key) == i,
        project_of(entries, entries[i].key) == Some(entries[i]),
{
    assert(project_at(entries, entries[i].key, i));
}

/// The project registry.
pub struct Projects {
    entries: Vec<Project>,
    next_key: u64,
}

impl View for Projects {
    type V = Seq<Project>;

    closed spec fn view(&self) -> Seq<Project> {
        self.entries@
    }
}

impl Projects {
    /// The number of keys handed out so far.
    pub closed spec fn issued(&self) -> u64 {
        self.next_key
    }

    /// Keys are distinct, and each was handed out by this registry.
    pub open spec fn wf(&self) -> bool {
        &&& distinct_keys(self@)
        &&& forall|i: int| 0 <= i < self@.len() ==> (#[trigger] self@[i]).key.id < self.issued()
    }

    /// A registry without projects.
    pub fn new() -> (r: Projects)
        ensures
            r.wf(),
            r@.len() == 0,
            r.issued() == 0,
    {
        Projects { entries: Vec::new(), next_key: 0 }
    }

    fn find(&self, key: ProjectKey) -> (r: Option<usize>)
        requires
            self.wf(),
        ensures
            match r {
                Some(i) => project_at(self@, key, i as int) && index_of_project(self@, key) == i
                    && has_project(self@, key),
                None => !has_project(self@, key),
            },
    {
        let mut i: usize = 0;
        while i < self.entries.len()
            invariant
                self.wf(),
                i <= self.entries@.len(),
                forall|j: int| 0 <= j < i ==> !project_at(self@, key, j),
            decreases self.entries@.len() - i,
        {
            if self.entries[i].key.id == key.id {
                proof {
                    lemma_project_at(self@, i as int);
                }
                return Some(i);
            }
            i += 1;
        }
        None
    }

    /// Whether another key can be handed out.
    pub fn has_fresh_key(&self) -> (r: bool)
        ensures
            r == (self.issued() < u64::MAX),
    {
        self.next_key < u64::MAX
    }

    /// Registers a project rooted at `path` under a key that was never handed
    /// out before.
    pub fn insert_project(&mut self, path: String) -> (key: ProjectKey)
        requires
            old(self).wf(),
            old(self).issued() < u64::MAX,
        ensures
            final(self).wf(),
            key.id == old(self).issued(),
            final(self).issued() == old(self).issued() + 1,
            !has_project(old(self)@, key),
            final(self)@ == old(self)@.push(
                Project { key, path, settings: default_settings(), manifest: None },
            ),
    {
        let key = ProjectKey { id: self.next_key };
        let project = Project {
            key,
            path,
            settings: Settings {
                files: FilesSettings { max_size: DEFAULT_FILE_SIZE_LIMIT, ignore_unknown: false },
                formatter: FormatterSettings { enabled: true, format_with_errors: false },
                linter: LinterSettings { enabled: true },
                organize_imports: OrganizeImportsSettings { enabled: true },
                languages: LanguageSettings {
                    javascript: JsParserSettings { parse_class_parameter_decorators: false },
                    json: JsonParserSettings { allow_comments: false, allow_trailing_commas: false },
                },
            },
            manifest: None,
        };
        self.entries.push(project);
        self.next_key = self.next_key + 1;
        key
    }

    /// Removes the project with the given key, if it is registered.
    pub fn remove_project(&mut self, key: ProjectKey)
        requires
            old(self).wf(),
        ensures
            final(self).wf(),
            final(self).issued() == old(self).issued(),
            !has_project(final(self)@, key),
            final(self)@ == (if has_project(old(self)@, key) {
                old(self)@.remove(index_of_project(old(self)@, key))
            } else {
                old(self)@
            }),
    {
        match self.find(key) {
            Some(i) => {
                let _ = self.entries.remove(i);
                proof {
                    let before = old(self)@;
                    let after = self@;
                    assert forall|a: int| 0 <= a < after.len() implies (#[trigger] after[a]).key != key
                        && after[a].key.id < self.issued() && after[a] == before[if a < i {
                        a
                    } else {
                        a + 1
                    }] by {
                        let a0 = if a < i {
                            a
                        } else {
                            a + 1
                        };
                        assert(after[a] == before[a0]);
                    }
                    assert forall|a: int, b: int|
                        0 <= a < after.len() && 0 <= b < after.len() && a != b implies (
                    #[trigger] after[a]).key != (#[trigger] after[b]).key by {
                        let a0 = if a < i {
                            a
                        } else {
                            a + 1
                        };
                        let b0 = if b < i {
                            b
                        } else {
                            b + 1
                        };
                        assert(after[a] == before[a0] && after[b] == before[b0]);
                    }
                    assert forall|a: int| !project_at(after, key, a) by {
                        if 0 <= a < after.len() {
                            assert(after[a].key != key);
                        }
                    }
                }
            },
            None => {},
        }
    }

    /// The root path of a project.
    pub fn get_project_path(&self, key: ProjectKey) -> (r: Option<String>)
        requires
            self.wf(),
        ensures
            match r {
                Some(path) => project_of(self@, key) matches Some(p) && p.path == path,
                None => !has_project(self@, key),
            },
    {
        match self.find(key) {
            Some(i) => Some(self.entries[i].path.clone()),
            None => None,
        }
    }

    /// The settings of a project.
    pub fn get_settings(&self, key: ProjectKey) -> (r: Option<Settings>)
        requires
            self.wf(),
        ensures
            r == settings_of(self@, key),
    {
        match self.find(key) {
            Some(i) => Some(self.entries[i].settings),
            None => None,
        }
    }

    /// The manifest of a project.
    pub fn get_manifest(&self, key: ProjectKey) -> (r: Option<Manifest>)
        requires
            self.wf(),
        ensures
            r == manifest_of(self@, key),
    {
        match self.find(key) {
            Some(i) => self.entries[i].manifest,
            None => None,
        }
    }

    /// The size limit in force for a project.
    pub fn get_max_file_size(&self, key: ProjectKey) -> (r: usize)
        requires
            self.wf(),
        ensures
            r == max_file_size_of(self@, key),
    {
        match self.find(key) {
            Some(i) => self.entries[i].settings.files.max_size,
            None => DEFAULT_FILE_SIZE_LIMIT,
        }
    }

    /// Replaces the settings of a project. Returns whether the project is
    /// registered; if it is not, nothing changes.
    pub fn set_settings(&mut self, key: ProjectKey, settings: Settings) -> (r: bool)
        requires
            old(self).wf(),
        ensures
            final(self).wf(),
            final(self).issued() == old(self).issued(),
            r == has_project(old(self)@, key),
            final(self)@ == (match project_of(old(self)@, key) {
                Some(p) => old(self)@.update(
                    index_of_project(old(self)@, key),
                    Project { settings, ..p },
                ),
                None => old(self)@,
            }),
    {
        match self.find(key) {
            Some(i) => {
                let old_entry = self.entries.remove(i);
                let entry = Project { settings, ..old_entry };
                self.entries.insert(i, entry);
                proof {
                    let before = old(self)@;
                    assert(self@ =~= before.update(i as int, Project { settings, ..before[i as int] }));
                }
                true
            },
            None => false,
        }
    }

    /// Replaces the manifest of a project. Returns whether the project is
    /// registered; if it is not, nothing changes.
    pub fn insert_manifest(&mut self, key: ProjectKey, manifest: Manifest) -> (r: bool)
        requires
            old(self).wf(),
        ensures
            final(self).wf(),
            final(self).issued() == old(self).issued(),
            r == has_project(old(self)@, key),
            final(self)@ == (match project_of(old(self)@, key) {
                Some(p) => old(self)@.update(
                    index_of_project(old(self)@, key),
                    Project { manifest: Some(manifest), ..p },
                ),
                None => old(self)@,
            }),
    {
        match self.find(key) {
            Some(i) => {
                let old_entry = self.entries.remove(i);
                let entry = Project { manifest: Some(manifest), ..old_entry };
                self.entries.insert(i, entry);
                proof {
                    let before = old(self)@;
                    assert(self@ =~= before.update(
                        i as int,
                        Project { manifest: Some(manifest), ..before[i as int] },
                    ));
                }
                true
            },
            None => false,
        }
    }

    /// Whether `path` lies under a project rooted at `project_path` and under
    /// no project rooted elsewhere.
    pub fn path_belongs_only_to_project_with_path(&self, path: &str, project_path: &str) -> (r: bool)
        ensures
            r == belongs_only_to(self@, path@, project_path@),
    {
        let mut belongs_to_project = false;
        let mut belongs_to_other = false;
        let mut i: usize = 0;
        while i < self.entries.len()
            invariant
                i <= self.entries@.len(),
                belongs_to_project == exists|j: int|
                    0 <= j < i && (#[trigger] self@[j]).path@ == project_path@ && belongs_to(
                        path@,
                        project_path@,
                    ),
                belongs_to_other == exists|j: int|
                    0 <= j < i && belongs_to(path@, (#[trigger] self@[j]).path@) && self@[j].path@
                        != project_path@,
            decreases self.entries@.len() - i,
        {
            let root = self.entries[i].path.as_str();
            if starts_with(path, root) {
                if crate::file_source::str_equal(root, project_path) {
                    belongs_to_project = true;
                } else {
                    belongs_to_other = true;
                }
            }
            i += 1;
        }
        belongs_to_project && !belongs_to_other
    }
}

} // verus!
