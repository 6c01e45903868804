//! Whether a path is ignored, and which features a file supports.
//!
//! Whether a glob or a version-control ignore file matches a path is for the
//! caller to find out; it reports what it found as [`PathFacts`]. What
//! follows from those facts is decided here.

use crate::capabilities::Capabilities;
use crate::file_source::{str_equal, DocumentFileSource};
use crate::paths::{
    file_name, has_root, path_file_name, path_has_root, path_starts_with, starts_with,
};
use crate::projects::Settings;
use vstd::prelude::*;

verus! {

/// A feature of the toolchain.
#[derive(Clone, Copy, Debug, PartialEq, Eq, Structural)]
pub enum FeatureKind {
    Format,
    Lint,
    OrganizeImports,
    Search,
}

/// A set of features.
#[derive(Clone, Copy, Debug, PartialEq, Eq, Structural)]
pub struct FeatureName {
    pub format: bool,
    pub lint: bool,
    pub organize_imports: bool,
    pub search: bool,
}

/// How far a feature applies to a file.
#[derive(Clone, Copy, Debug, PartialEq, Eq, Structural)]
pub enum SupportKind {
    /// The feature runs on the file.
    Supported,
    /// The file is ignored by configuration.
    Ignored,
    /// The file is one that the toolchain never touches.
    Protected,
    /// The feature is switched off.
    FeatureNotEnabled,
    /// The file's language does not support the feature.
    FileNotSupported,
}

/// For each feature, how far it applies to a file.
#[derive(Clone, Copy, Debug, PartialEq, Eq, Structural)]
pub struct FileFeaturesResult {
    pub format: SupportKind,
    pub lint: SupportKind,
    pub organize_imports: SupportKind,
    pub search: SupportKind,
}

/// What a version-control ignore file says of a path.
pub struct GitIgnore {
    /// The directory the ignore file governs.
    pub root: String,
    /// Whether it ignores the path or one of its parents. Only looked at
    /// where [`git_ignore_applies`] holds.
    pub reports_ignore: bool,
}

/// What the matchers of a project and the file system say of one path.
pub struct PathFacts {
    /// The path is a directory.
    pub is_dir: bool,
    /// The project's list of included files is empty.
    pub included_files_is_empty: bool,
    /// The project's list of included files matches the path.
    pub included_files_match: bool,
    /// The project's list of ignored files matches the path.
    pub ignored_files_match: bool,
    /// The project's version-control ignore file, if it has one.
    pub git_ignore: Option<GitIgnore>,
    /// The features whose own include and ignore lists rule the path out.
    pub ignored_by_feature: FeatureName,
}

impl FeatureName {
    /// Whether the set holds the feature.
    pub open spec fn spec_contains(self, feature: FeatureKind) -> bool {
        match feature {
            FeatureKind::Format => self.format,
            FeatureKind::Lint => self.lint,
            FeatureKind::OrganizeImports => self.organize_imports,
            FeatureKind::Search => self.search,
        }
    }

    /// Whether the set holds no feature.
    pub open spec fn spec_is_empty(self) -> bool {
        !self.format && !self.lint && !self.organize_imports && !self.search
    }

    /// Whether every feature of `self` is one of `other`.
    pub open spec fn spec_subset_of(self, other: FeatureName) -> bool {
        forall|feature: FeatureKind| self.spec_contains(feature) ==> other.spec_contains(feature)
    }

    /// Whether the set holds the feature.
    pub fn contains(&self, feature: FeatureKind) -> (r: bool)
        ensures
            r == self.spec_contains(feature),
    {
        match feature {
            FeatureKind::Format => self.format,
            FeatureKind::Lint => self.lint,
            FeatureKind::OrganizeImports => self.organize_imports,
            FeatureKind::Search => self.search,
        }
    }

    /// Whether the set holds no feature.
    pub fn is_empty(&self) -> (r: bool)
        ensures
            r == self.spec_is_empty(),
    {
        !self.format && !self.lint && !self.organize_imports && !self.search
    }

    /// Whether every feature of `self` is one of `other`.
    pub fn subset_of(&self, other: &FeatureName) -> (r: bool)
        ensures
            r == self.spec_subset_of(*other),
    {
        let r = (!self.format || other.format) && (!self.lint || other.lint) && (
        !self.organize_imports || other.organize_imports) && (!self.search || other.search);
        proof {
            if r {
                assert forall|feature: FeatureKind| self.spec_contains(feature) implies other.spec_contains(
                    feature,
                ) by {}
            } else {
                if self.format && !other.format {
                    assert(self.spec_contains(FeatureKind::Format));
                } else if self.lint && !other.lint {
                    assert(self.spec_contains(FeatureKind::Lint));
                } else if self.organize_imports && !other.organize_imports {
                    assert(self.spec_contains(FeatureKind::OrganizeImports));
                } else {
                    assert(self.spec_contains(FeatureKind::Search));
                }
            }
        }
        r
    }
}

/// Whether a path's last component is the name of a root configuration
/// file.
pub open spec fn names_config_file(path: Seq<char>) -> bool {
    path_file_name(path) == Some("biome.json"@) || path_file_name(path) == Some("biome.jsonc"@)
}

/// Whether a path's last component is the name of a file that the
/// toolchain never touches.
pub open spec fn names_protected_file(path: Seq<char>) -> bool {
    path_file_name(path) == Some("composer.lock"@) || path_file_name(path) == Some(
        "npm-shrinkwrap.json"@,
    ) || path_file_name(path) == Some("package-lock.json"@) || path_file_name(path) == Some(
        "yarn.lock"@,
    )
}

/// Whether a version-control ignore file that governs `root` has a say on
/// `path`: it has on every relative path, and on the rooted paths under
/// `root`.
pub open spec fn git_ignore_applies(path: Seq<char>, root: Seq<char>) -> bool {
    !path_has_root(path) || path_starts_with(path, root)
}

/// Whether the project's own lists rule a path out: its list of included
/// files is not empty and does not match the path, which is no directory;
/// or its list of ignored files matches; or its version-control ignore file
/// has a say on the path and ignores it.
pub open spec fn top_level_ignores(path: Seq<char>, facts: PathFacts) -> bool {
    let is_included = facts.included_files_is_empty || facts.is_dir || facts.included_files_match;
    !is_included || facts.ignored_files_match || (facts.git_ignore matches Some(git_ignore)
        && git_ignore_applies(path, git_ignore.root@) && git_ignore.reports_ignore)
}

/// Whether the features asked for all rule a path out. No feature asked
/// for, none rules it out.
pub open spec fn features_ignore(features: FeatureName, facts: PathFacts) -> bool {
    !features.spec_is_empty() && features.spec_subset_of(facts.ignored_by_feature)
}

/// Whether a path is ignored for the features asked for. A root
/// configuration file never is. Any other path is if the project's own
/// lists rule it out, or if every feature asked for does.
pub open spec fn path_is_ignored(path: Seq<char>, features: FeatureName, facts: PathFacts) -> bool {
    !names_config_file(path) && (top_level_ignores(path, facts) || features_ignore(features, facts))
}

/// Whether a path's last component is the name of a root configuration
/// file.
pub fn is_config_file(path: &str) -> (r: bool)
    ensures
        r == names_config_file(path@),
{
    match file_name(path) {
        Some(name) => str_equal(name.as_str(), "biome.json") || str_equal(
            name.as_str(),
            "biome.jsonc",
        ),
        None => false,
    }
}

/// Whether a path's last component is the name of a file that the
/// toolchain never touches.
pub fn is_protected_file(path: &str) -> (r: bool)
    ensures
        r == names_protected_file(path@),
{
    match file_name(path) {
        Some(name) => str_equal(name.as_str(), "composer.lock") || str_equal(
            name.as_str(),
            "npm-shrinkwrap.json",
        ) || str_equal(name.as_str(), "package-lock.json") || str_equal(name.as_str(), "yarn.lock"),
        None => false,
    }
}

/// Whether a version-control ignore file that governs `root` has a say on
/// `path`. The ignore file must not be asked about any other path.
pub fn applies_git_ignore(path: &str, root: &str) -> (r: bool)
    ensures
        r == git_ignore_applies(path@, root@),
{
    !has_root(path) || starts_with(path, root)
}

/// Whether the project's own lists rule a path out.
pub fn is_ignored_by_top_level_config(path: &str, facts: &PathFacts) -> (r: bool)
    ensures
        r == top_level_ignores(path@, *facts),
{
    let is_included = facts.included_files_is_empty || facts.is_dir || facts.included_files_match;
    if !is_included || facts.ignored_files_match {
        return true;
    }
    match &facts.git_ignore {
        Some(git_ignore) => applies_git_ignore(path, git_ignore.root.as_str())
            && git_ignore.reports_ignore,
        None => false,
    }
}

/// Whether a path is ignored for the features asked for.
pub fn is_ignored(path: &str, features: FeatureName, facts: &PathFacts) -> (r: bool)
    ensures
        r == path_is_ignored(path@, features, *facts),
{
    let ignored_by_features = !features.is_empty() && features.subset_of(&facts.ignored_by_feature);
    !is_config_file(path) && (is_ignored_by_top_level_config(path, facts) || ignored_by_features)
}

impl SupportKind {
    /// Whether the feature runs on the file.
    pub open spec fn spec_is_supported(self) -> bool {
        self is Supported
    }

    /// Whether the feature runs on the file.
    pub fn is_supported(&self) -> (r: bool)
        ensures
            r == self.spec_is_supported(),
    {
        match self {
            SupportKind::Supported => true,
            _ => false,
        }
    }

    /// `Ignored` in place of `FileNotSupported`; anything else as it is.
    pub open spec fn spec_unsupported_as_ignored(self) -> SupportKind {
        if self is FileNotSupported {
            SupportKind::Ignored
        } else {
            self
        }
    }

    /// `Ignored` in place of `FileNotSupported`; anything else as it is.
    pub fn unsupported_as_ignored(self) -> (r: SupportKind)
        ensures
            r == self.spec_unsupported_as_ignored(),
    {
        match self {
            SupportKind::FileNotSupported => SupportKind::Ignored,
            _ => self,
        }
    }

    /// `FeatureNotEnabled` if the feature is switched off; else as it is.
    pub open spec fn spec_unless_enabled(self, enabled: bool) -> SupportKind {
        if enabled {
            self
        } else {
            SupportKind::FeatureNotEnabled
        }
    }

    /// `FeatureNotEnabled` if the feature is switched off; else as it is.
    pub fn unless_enabled(self, enabled: bool) -> (r: SupportKind)
        ensures
            r == self.spec_unless_enabled(enabled),
    {
        if enabled {
            self
        } else {
            SupportKind::FeatureNotEnabled
        }
    }

    /// `Ignored` if `ignored`; else as it is.
    pub open spec fn spec_ignored_if(self, ignored: bool) -> SupportKind {
        if ignored {
            SupportKind::Ignored
        } else {
            self
        }
    }

    /// `Ignored` if `ignored`; else as it is.
    pub fn ignored_if(self, ignored: bool) -> (r: SupportKind)
        ensures
            r == self.spec_ignored_if(ignored),
    {
        if ignored {
            SupportKind::Ignored
        } else {
            self
        }
    }
}

/// `Supported` where the language has the capability, `FileNotSupported`
/// where it has not.
pub open spec fn support_of(capability: bool) -> SupportKind {
    if capability {
        SupportKind::Supported
    } else {
        SupportKind::FileNotSupported
    }
}

impl FileFeaturesResult {
    /// The same answer for every feature.
    pub open spec fn spec_all(kind: SupportKind) -> FileFeaturesResult {
        FileFeaturesResult { format: kind, lint: kind, organize_imports: kind, search: kind }
    }

    /// The same answer for every feature.
    pub fn all(kind: SupportKind) -> (r: FileFeaturesResult)
        ensures
            r == Self::spec_all(kind),
    {
        FileFeaturesResult { format: kind, lint: kind, organize_imports: kind, search: kind }
    }

    /// No feature is supported.
    pub fn new() -> (r: FileFeaturesResult)
        ensures
            r == Self::spec_all(SupportKind::FileNotSupported),
    {
        Self::all(SupportKind::FileNotSupported)
    }

    /// What the language's capabilities support: formatting where it can
    /// format, linting where it can lint, organizing imports where it has
    /// code actions, search where it can search.
    pub open spec fn spec_with_capabilities(capabilities: Capabilities) -> FileFeaturesResult {
        FileFeaturesResult {
            format: support_of(capabilities.formatter.format is Some),
            lint: support_of(capabilities.analyzer.lint is Some),
            organize_imports: support_of(capabilities.analyzer.code_actions is Some),
            search: support_of(capabilities.search.search is Some),
        }
    }

    /// What the language's capabilities support.
    pub fn with_capabilities(capabilities: &Capabilities) -> (r: FileFeaturesResult)
        ensures
            r == Self::spec_with_capabilities(*capabilities),
    {
        FileFeaturesResult {
            format: if capabilities.formatter.format.is_some() {
                SupportKind::Supported
            } else {
                SupportKind::FileNotSupported
            },
            lint: if capabilities.analyzer.lint.is_some() {
                SupportKind::Supported
            } else {
                SupportKind::FileNotSupported
            },
            organize_imports: if capabilities.analyzer.code_actions.is_some() {
                SupportKind::Supported
            } else {
                SupportKind::FileNotSupported
            },
            search: if capabilities.search.search.is_some() {
                SupportKind::Supported
            } else {
                SupportKind::FileNotSupported
            },
        }
    }

    /// The answers with the features that the settings switch off marked so.
    pub open spec fn spec_with_settings(self, settings: Settings) -> FileFeaturesResult {
        FileFeaturesResult {
            format: self.format.spec_unless_enabled(settings.formatter.enabled),
            lint: self.lint.spec_unless_enabled(settings.linter.enabled),
            organize_imports: self.organize_imports.spec_unless_enabled(
                settings.organize_imports.enabled,
            ),
            search: self.search,
        }
    }

    /// The answers with the features that the settings switch off marked so.
    pub fn with_settings(self, settings: &Settings) -> (r: FileFeaturesResult)
        ensures
            r == self.spec_with_settings(*settings),
    {
        FileFeaturesResult {
            format: self.format.unless_enabled(settings.formatter.enabled),
            lint: self.lint.unless_enabled(settings.linter.enabled),
            organize_imports: self.organize_imports.unless_enabled(settings.organize_imports.enabled),
            search: self.search,
        }
    }

    /// The answers with every unsupported feature marked as ignored.
    pub open spec fn spec_ignore_not_supported(self) -> FileFeaturesResult {
        FileFeaturesResult {
            format: self.format.spec_unsupported_as_ignored(),
            lint: self.lint.spec_unsupported_as_ignored(),
            organize_imports: self.organize_imports.spec_unsupported_as_ignored(),
            search: self.search.spec_unsupported_as_ignored(),
        }
    }

    /// The answers with every unsupported feature marked as ignored.
    pub fn ignore_not_supported(self) -> (r: FileFeaturesResult)
        ensures
            r == self.spec_ignore_not_supported(),
    {
        FileFeaturesResult {
            format: self.format.unsupported_as_ignored(),
            lint: self.lint.unsupported_as_ignored(),
            organize_imports: self.organize_imports.unsupported_as_ignored(),
            search: self.search.unsupported_as_ignored(),
        }
    }

    /// The answers with each feature of `ignored` marked as ignored.
    pub open spec fn spec_with_ignored(self, ignored: FeatureName) -> FileFeaturesResult {
        FileFeaturesResult {
            format: self.format.spec_ignored_if(ignored.format),
            lint: self.lint.spec_ignored_if(ignored.lint),
            organize_imports: self.organize_imports.spec_ignored_if(ignored.organize_imports),
            search: self.search.spec_ignored_if(ignored.search),
        }
    }

    /// The answers with each feature of `ignored` marked as ignored.
    pub fn with_ignored(self, ignored: FeatureName) -> (r: FileFeaturesResult)
        ensures
            r == self.spec_with_ignored(ignored),
    {
        FileFeaturesResult {
            format: self.format.ignored_if(ignored.format),
            lint: self.lint.ignored_if(ignored.lint),
            organize_imports: self.organize_imports.ignored_if(ignored.organize_imports),
            search: self.search.ignored_if(ignored.search),
        }
    }

    /// Whether no feature runs on the file.
    pub open spec fn spec_is_not_processed(self) -> bool {
        !(self.format is Supported) && !(self.lint is Supported) && !(self.organize_imports
            is Supported) && !(self.search is Supported)
    }

    /// Whether no feature runs on the file.
    pub fn is_not_processed(&self) -> (r: bool)
        ensures
            r == self.spec_is_not_processed(),
    {
        !self.format.is_supported() && !self.lint.is_supported()
            && !self.organize_imports.is_supported() && !self.search.is_supported()
    }

    /// The answer of one feature.
    pub open spec fn spec_support_for(self, feature: FeatureKind) -> SupportKind {
        match feature {
            FeatureKind::Format => self.format,
            FeatureKind::Lint => self.lint,
            FeatureKind::OrganizeImports => self.organize_imports,
            FeatureKind::Search => self.search,
        }
    }

    /// The answer of one feature.
    pub fn support_for(&self, feature: FeatureKind) -> (r: SupportKind)
        ensures
            r == self.spec_support_for(feature),
    {
        match feature {
            FeatureKind::Format => self.format,
            FeatureKind::Lint => self.lint,
            FeatureKind::OrganizeImports => self.organize_imports,
            FeatureKind::Search => self.search,
        }
    }
}

/// Which of the features asked for the file's path rules out by its own
/// lists.
pub open spec fn asked_and_ignored(features: FeatureName, facts: PathFacts) -> FeatureName {
    FeatureName {
        format: features.format && facts.ignored_by_feature.format,
        lint: features.lint && facts.ignored_by_feature.lint,
        organize_imports: features.organize_imports && facts.ignored_by_feature.organize_imports,
        search: features.search && facts.ignored_by_feature.search,
    }
}

/// The features of a file.
///
/// The language's capabilities say what is supported. Without project
/// settings that is the answer. With settings, features that are switched
/// off are marked so. Then one of four things applies: a file of unknown
/// language, in a project that passes such files over, has its unsupported
/// features marked as ignored; a root configuration file is left as it is;
/// a file that the project's own lists rule out is ignored for every
/// feature; for any other file the features asked for that rule it out are
/// marked as ignored. At last a protected file on which some feature would
/// still run is marked as protected for every feature.
pub open spec fn features_of(
    path: Seq<char>,
    capabilities: Capabilities,
    inferred: DocumentFileSource,
    stored: DocumentFileSource,
    settings: Option<Settings>,
    features: FeatureName,
    facts: PathFacts,
) -> FileFeaturesResult {
    let supported = FileFeaturesResult::spec_with_capabilities(capabilities);
    match settings {
        None => supported,
        Some(settings) => {
            let enabled = supported.spec_with_settings(settings);
            let answered = if settings.files.ignore_unknown && inferred is Unknown && stored
                is Unknown {
                enabled.spec_ignore_not_supported()
            } else if names_config_file(path) {
                enabled
            } else if top_level_ignores(path, facts) {
                FileFeaturesResult::spec_all(SupportKind::Ignored)
            } else {
                enabled.spec_with_ignored(asked_and_ignored(features, facts))
            };
            if !answered.spec_is_not_processed() && names_protected_file(path) {
                FileFeaturesResult::spec_all(SupportKind::Protected)
            } else {
                answered
            }
        },
    }
}

/// Computes the features of a file from its capabilities, the language its
/// path names, the language it is stored under, its project's settings, the
/// features asked for and the facts about its path.
pub fn file_features_of(
    path: &str,
    capabilities: &Capabilities,
    inferred: DocumentFileSource,
    stored: DocumentFileSource,
    settings: Option<Settings>,
    features: FeatureName,
    facts: &PathFacts,
) -> (r: FileFeaturesResult)
    ensures
        r == features_of(path@, *capabilities, inferred, stored, settings, features, *facts),
{
    let supported = FileFeaturesResult::with_capabilities(capabilities);
    let settings = match settings {
        Some(settings) => settings,
        None => {
            return supported;
        },
    };
    let enabled = supported.with_settings(&settings);
    let unknown = match (inferred, stored) {
        (DocumentFileSource::Unknown, DocumentFileSource::Unknown) => true,
        _ => false,
    };
    let answered = if settings.files.ignore_unknown && unknown {
        enabled.ignore_not_supported()
    } else if is_config_file(path) {
        enabled
    } else if is_ignored_by_top_level_config(path, facts) {
        FileFeaturesResult::all(SupportKind::Ignored)
    } else {
        enabled.with_ignored(
            FeatureName {
                format: features.format && facts.ignored_by_feature.format,
                lint: features.lint && facts.ignored_by_feature.lint,
                organize_imports: features.organize_imports
                    && facts.ignored_by_feature.organize_imports,
                search: features.search && facts.ignored_by_feature.search,
            },
        )
    };
    if !answered.is_not_processed() && is_protected_file(path) {
        FileFeaturesResult::all(SupportKind::Protected)
    } else {
        answered
    }
}

} // verus!
