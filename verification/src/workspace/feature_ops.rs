//! The operations that run a feature on a document: diagnostics, code
//! actions, formatting, renaming, search, and the debugging views.
//!
//! The server decides whether the operation can run and on what. It hands
//! back a [`FeatureJob`]: the language implementation to call and what to
//! call it with. Running the job is the caller's part.

use super::{WorkspaceModel, WorkspaceServer};
use crate::capabilities::Handler;
use crate::document::Parsed;
use crate::document_store::lookup;
use crate::errors::WorkspaceError;
use crate::file_source::DocumentFileSource;
use crate::ignore::{
    features_ignore, features_of, file_features_of, is_config_file, is_ignored,
    names_config_file, path_is_ignored, FeatureName, FileFeaturesResult, PathFacts,
};
use crate::patterns::{
    decimal, decimal_string, is_pattern_id, pattern_id_text, Pattern, PatternId,
};
use crate::projects::{has_project, manifest_of, settings_of, Manifest, ProjectKey, Settings};
use vstd::prelude::*;

verus! {

/// What a language implementation is called with.
pub struct FeatureJob {
    /// The implementation to call.
    pub handler: Handler,
    /// The parse of the document.
    pub parse: Parsed,
    /// The language of the document.
    pub language: DocumentFileSource,
    /// The settings of the project, if it is registered.
    pub settings: Option<Settings>,
    /// The manifest of the project, if it has one.
    pub manifest: Option<Manifest>,
}

/// How diagnostics are pulled for a document.
pub enum DiagnosticsJob {
    /// The language has a linter: its diagnostics are the answer.
    Lint(FeatureJob),
    /// The language has none: the diagnostics of the parse are the answer.
    ParseOnly { parse: Parsed },
}

/// A search job: the pattern to look for, and what to look in.
pub struct SearchJob {
    pub pattern: Pattern,
    pub job: FeatureJob,
}

/// The id under which a pattern was stored.
pub struct ParsePatternResult {
    pub pattern_id: PatternId,
}

/// How grave a diagnostic is, from the least to the most grave.
#[derive(Clone, Copy, Debug, PartialEq, Eq, Structural)]
pub enum Severity {
    Hint,
    Information,
    Warning,
    Error,
    Fatal,
}

/// One line of a status report.
pub enum RageEntry {
    Section(String),
    Pair { name: String, value: String },
}

/// What a client learns of the server it talks to.
pub struct ServerInfo {
    pub name: String,
    pub version: Option<String>,
}

impl Severity {
    /// The place of the severity in the order of severities.
    pub open spec fn rank(self) -> int {
        match self {
            Severity::Hint => 0,
            Severity::Information => 1,
            Severity::Warning => 2,
            Severity::Error => 3,
            Severity::Fatal => 4,
        }
    }

    /// Whether the severity is at most `Error`.
    pub fn at_most_error(&self) -> (r: bool)
        ensures
            r == (self.rank() <= Severity::Error.rank()),
    {
        match self {
            Severity::Fatal => false,
            _ => true,
        }
    }
}

/// The number of severities, among the first `count`, that are at most
/// `Error`.
pub open spec fn errors_among(severities: Seq<Severity>, count: int) -> int
    decreases count,
{
    if count <= 0 {
        0
    } else {
        errors_among(severities, count - 1) + (if severities[count - 1].rank()
            <= Severity::Error.rank() {
            1int
        } else {
            0int
        })
    }
}

/// Counts the diagnostics whose severity is at most `Error`.
pub fn count_errors(severities: &Vec<Severity>) -> (r: usize)
    ensures
        r == errors_among(severities@, severities@.len() as int),
{
    let mut count: usize = 0;
    let mut i: usize = 0;
    while i < severities.len()
        invariant
            i <= severities@.len(),
            count == errors_among(severities@, i as int),
            count <= i,
        decreases severities@.len() - i,
    {
        if severities[i].at_most_error() {
            count += 1;
        }
        i += 1;
    }
    count
}

impl WorkspaceModel {
    /// The job of an operation on the file at `path`, once the language is
    /// known to support it.
    pub open spec fn job_at(
        self,
        project_key: ProjectKey,
        path: Seq<char>,
        handler: Handler,
        parse: Parsed,
    ) -> FeatureJob {
        FeatureJob {
            handler,
            parse,
            language: self.file_source_of(path),
            settings: settings_of(self.projects, project_key),
            manifest: manifest_of(self.projects, project_key),
        }
    }

    /// Whether the project's settings refuse to format a document with the
    /// given parse: they do if the project is registered, does not format
    /// documents with syntax errors, and the parse has some.
    pub open spec fn refuses_to_format(self, project_key: ProjectKey, parse: Parsed) -> bool {
        settings_of(self.projects, project_key) matches Some(settings)
            && !settings.formatter.format_with_errors && parse.has_errors
    }

    /// What an operation on the file at `path` comes to, given the entry of
    /// the capability table that the operation needs.
    ///
    /// Without the capability it fails with the capability error. Without a
    /// document at the path it fails with `NotFound`; with a document that
    /// has no parse, with `FileIgnored`. A formatting operation (`gated`)
    /// fails with `FormatWithErrorsDisabled` where the settings refuse.
    /// Otherwise the job is handed back.
    pub open spec fn job_is(
        self,
        project_key: ProjectKey,
        path: Seq<char>,
        capability: Option<Handler>,
        gated: bool,
        result: Result<FeatureJob, WorkspaceError>,
    ) -> bool {
        match capability {
            None => result matches Err(error) && self.is_capability_error(error, path),
            Some(handler) => match lookup(self.documents, path) {
                None => result == Err::<FeatureJob, WorkspaceError>(WorkspaceError::NotFound),
                Some(document) => match document.syntax {
                    Err(_) => result matches Err(error) && error.is_file_ignored_at(path),
                    Ok(parse) => if gated && self.refuses_to_format(project_key, parse) {
                        result == Err::<FeatureJob, WorkspaceError>(
                            WorkspaceError::FormatWithErrorsDisabled,
                        )
                    } else {
                        result == Ok::<FeatureJob, WorkspaceError>(
                            self.job_at(project_key, path, handler, parse),
                        )
                    },
                },
            },
        }
    }

    /// What pulling diagnostics for the file at `path` comes to: the parse
    /// is asked for first, so a missing document or a missing parse fails the
    /// call whatever the language; then the linter is called if the language
    /// has one, else the parse's own diagnostics are the answer.
    pub open spec fn diagnostics_job_is(
        self,
        project_key: ProjectKey,
        path: Seq<char>,
        result: Result<DiagnosticsJob, WorkspaceError>,
    ) -> bool {
        match lookup(self.documents, path) {
            None => result == Err::<DiagnosticsJob, WorkspaceError>(WorkspaceError::NotFound),
            Some(document) => match document.syntax {
                Err(_) => result matches Err(error) && error.is_file_ignored_at(path),
                Ok(parse) => match self.capabilities_at(path).analyzer.lint {
                    Some(handler) => result == Ok::<DiagnosticsJob, WorkspaceError>(
                        DiagnosticsJob::Lint(self.job_at(project_key, path, handler, parse)),
                    ),
                    None => result == Ok::<DiagnosticsJob, WorkspaceError>(
                        DiagnosticsJob::ParseOnly { parse },
                    ),
                },
            },
        }
    }

    /// What a search for the pattern `id` in the file at `path` comes to:
    /// `InvalidPattern` if no pattern is stored under the id; else what the
    /// search capability and the document allow.
    pub open spec fn search_job_is(
        self,
        project_key: ProjectKey,
        path: Seq<char>,
        id: Seq<char>,
        result: Result<SearchJob, WorkspaceError>,
    ) -> bool {
        if !self.patterns.contains_key(id) {
            result == Err::<SearchJob, WorkspaceError>(WorkspaceError::InvalidPattern)
        } else {
            match result {
                Ok(search) => search.pattern == self.patterns[id] && self.job_is(
                    project_key,
                    path,
                    self.capabilities_at(path).search.search,
                    false,
                    Ok(search.job),
                ),
                Err(error) => self.job_is(
                    project_key,
                    path,
                    self.capabilities_at(path).search.search,
                    false,
                    Err(error),
                ),
            }
        }
    }

    /// Whether the file at `path` is ignored for the features asked for. The
    /// lists of a project count only if the project is registered.
    pub open spec fn ignores(
        self,
        project_key: ProjectKey,
        path: Seq<char>,
        features: FeatureName,
        facts: PathFacts,
    ) -> bool {
        if has_project(self.projects, project_key) {
            path_is_ignored(path, features, facts)
        } else {
            !names_config_file(path) && features_ignore(features, facts)
        }
    }
}

impl WorkspaceServer {
    fn job(
        &self,
        project_key: ProjectKey,
        path: &str,
        capability: Option<Handler>,
        gated: bool,
    ) -> (r: Result<FeatureJob, WorkspaceError>)
        requires
            self.wf(),
        ensures
            self@.job_is(project_key, path@, capability, gated, r),
    {
        let handler = match capability {
            Some(handler) => handler,
            None => {
                return Err(self.build_capability_error(path));
            },
        };
        let settings = self.settings.get_settings(project_key);
        let parse = match self.get_parse(path) {
            Ok(parse) => parse,
            Err(error) => {
                return Err(error);
            },
        };
        if gated {
            match settings {
                Some(settings) => {
                    if !settings.formatter.format_with_errors && parse.has_errors {
                        return Err(WorkspaceError::FormatWithErrorsDisabled);
                    }
                },
                None => {},
            }
        }
        let manifest = self.get_manifest(project_key);
        let language = self.get_file_source(path);
        Ok(FeatureJob { handler, parse, language, settings, manifest })
    }

    /// Whether the file at `path` is ignored for the features asked for.
    pub fn is_path_ignored(
        &self,
        project_key: ProjectKey,
        path: &str,
        features: FeatureName,
        facts: &PathFacts,
    ) -> (r: Result<bool, WorkspaceError>)
        requires
            self.wf(),
        ensures
            r == Ok::<bool, WorkspaceError>(self@.ignores(project_key, path@, features, *facts)),
    {
        match self.settings.get_settings(project_key) {
            Some(_) => Ok(is_ignored(path, features, facts)),
            None => {
                let by_features = !features.is_empty() && features.subset_of(
                    &facts.ignored_by_feature,
                );
                Ok(!is_config_file(path) && by_features)
            },
        }
    }

    /// The features of the file at `path` (see [`features_of`]).
    pub fn file_features(
        &self,
        project_key: ProjectKey,
        path: &str,
        features: FeatureName,
        facts: &PathFacts,
    ) -> (r: Result<FileFeaturesResult, WorkspaceError>)
        requires
            self.wf(),
        ensures
            r == Ok::<FileFeaturesResult, WorkspaceError>(
                features_of(
                    path@,
                    self@.capabilities_at(path@),
                    DocumentFileSource::spec_from_path(path@),
                    self@.file_source_of(path@),
                    settings_of(self@.projects, project_key),
                    features,
                    *facts,
                ),
            ),
    {
        let capabilities = self.get_file_capabilities(path);
        let language = DocumentFileSource::from_path(path);
        let settings = self.settings.get_settings(project_key);
        let stored = self.get_file_source(path);
        Ok(file_features_of(path, &capabilities, language, stored, settings, features, facts))
    }

    /// Prepares pulling the diagnostics of a document.
    pub fn pull_diagnostics(&self, project_key: ProjectKey, path: &str) -> (r: Result<
        DiagnosticsJob,
        WorkspaceError,
    >)
        requires
            self.wf(),
        ensures
            self@.diagnostics_job_is(project_key, path@, r),
    {
        let parse = match self.get_parse(path) {
            Ok(parse) => parse,
            Err(error) => {
                return Err(error);
            },
        };
        let manifest = self.get_manifest(project_key);
        match self.get_file_capabilities(path).analyzer.lint {
            Some(handler) => Ok(
                DiagnosticsJob::Lint(
                    FeatureJob {
                        handler,
                        parse,
                        language: self.get_file_source(path),
                        settings: self.settings.get_settings(project_key),
                        manifest,
                    },
                ),
            ),
            None => Ok(DiagnosticsJob::ParseOnly { parse }),
        }
    }

    /// Prepares pulling the code actions of a document.
    pub fn pull_actions(&self, project_key: ProjectKey, path: &str) -> (r: Result<
        FeatureJob,
        WorkspaceError,
    >)
        requires
            self.wf(),
        ensures
            self@.job_is(
                project_key,
                path@,
                self@.capabilities_at(path@).analyzer.code_actions,
                false,
                r,
            ),
    {
        let capabilities = self.get_file_capabilities(path);
        self.job(project_key, path, capabilities.analyzer.code_actions, false)
    }

    /// Prepares formatting a document.
    pub fn format_file(&self, project_key: ProjectKey, path: &str) -> (r: Result<
        FeatureJob,
        WorkspaceError,
    >)
        requires
            self.wf(),
        ensures
            self@.job_is(project_key, path@, self@.capabilities_at(path@).formatter.format, true, r),
    {
        let capabilities = self.get_file_capabilities(path);
        self.job(project_key, path, capabilities.formatter.format, true)
    }

    /// Prepares formatting a range of a document.
    pub fn format_range(&self, project_key: ProjectKey, path: &str) -> (r: Result<
        FeatureJob,
        WorkspaceError,
    >)
        requires
            self.wf(),
        ensures
            self@.job_is(
                project_key,
                path@,
                self@.capabilities_at(path@).formatter.format_range,
                true,
                r,
            ),
    {
        let capabilities = self.get_file_capabilities(path);
        self.job(project_key, path, capabilities.formatter.format_range, true)
    }

    /// Prepares formatting a document around a position just typed at.
    pub fn format_on_type(&self, project_key: ProjectKey, path: &str) -> (r: Result<
        FeatureJob,
        WorkspaceError,
    >)
        requires
            self.wf(),
        ensures
            self@.job_is(
                project_key,
                path@,
                self@.capabilities_at(path@).formatter.format_on_type,
                true,
                r,
            ),
    {
        let capabilities = self.get_file_capabilities(path);
        self.job(project_key, path, capabilities.formatter.format_on_type, true)
    }

    /// Prepares applying every fix to a document.
    pub fn fix_file(&self, project_key: ProjectKey, path: &str) -> (r: Result<
        FeatureJob,
        WorkspaceError,
    >)
        requires
            self.wf(),
        ensures
            self@.job_is(project_key, path@, self@.capabilities_at(path@).analyzer.fix_all, false, r),
    {
        let capabilities = self.get_file_capabilities(path);
        self.job(project_key, path, capabilities.analyzer.fix_all, false)
    }

    /// Prepares renaming a symbol of a document.
    pub fn rename(&self, project_key: ProjectKey, path: &str) -> (r: Result<
        FeatureJob,
        WorkspaceError,
    >)
        requires
            self.wf(),
        ensures
            self@.job_is(project_key, path@, self@.capabilities_at(path@).analyzer.rename, false, r),
    {
        let capabilities = self.get_file_capabilities(path);
        self.job(project_key, path, capabilities.analyzer.rename, false)
    }

    /// Prepares printing the syntax tree of a document.
    pub fn get_syntax_tree(&self, project_key: ProjectKey, path: &str) -> (r: Result<
        FeatureJob,
        WorkspaceError,
    >)
        requires
            self.wf(),
        ensures
            self@.job_is(
                project_key,
                path@,
                self@.capabilities_at(path@).debug.debug_syntax_tree,
                false,
                r,
            ),
    {
        let capabilities = self.get_file_capabilities(path);
        self.job(project_key, path, capabilities.debug.debug_syntax_tree, false)
    }

    /// Prepares printing the control flow graph of a document.
    pub fn get_control_flow_graph(&self, project_key: ProjectKey, path: &str) -> (r: Result<
        FeatureJob,
        WorkspaceError,
    >)
        requires
            self.wf(),
        ensures
            self@.job_is(
                project_key,
                path@,
                self@.capabilities_at(path@).debug.debug_control_flow,
                false,
                r,
            ),
    {
        let capabilities = self.get_file_capabilities(path);
        self.job(project_key, path, capabilities.debug.debug_control_flow, false)
    }

    /// Prepares printing the formatter's intermediate form of a document.
    pub fn get_formatter_ir(&self, project_key: ProjectKey, path: &str) -> (r: Result<
        FeatureJob,
        WorkspaceError,
    >)
        requires
            self.wf(),
        ensures
            self@.job_is(
                project_key,
                path@,
                self@.capabilities_at(path@).debug.debug_formatter_ir,
                true,
                r,
            ),
    {
        let capabilities = self.get_file_capabilities(path);
        self.job(project_key, path, capabilities.debug.debug_formatter_ir, true)
    }

    /// Stores a pattern under a fresh id: the letter `p` followed by the
    /// counter's value in decimal. The id was no key before and is the id of
    /// no other counter value; the counter advances and cannot run out, so
    /// no later call gives it again. The patterns stored before stay as they
    /// are.
    pub fn parse_pattern(&mut self, pattern: Pattern) -> (r: Result<
        ParsePatternResult,
        WorkspaceError,
    >)
        requires
            old(self).wf(),
        ensures
            final(self).wf(),
            r matches Ok(stored) && stored.pattern_id.0@ == pattern_id_text(
                old(self)@.next_pattern,
            ) && is_pattern_id(stored.pattern_id.0@) && (forall|n: nat|
                n != old(self)@.next_pattern ==> stored.pattern_id.0@ != #[trigger] pattern_id_text(
                    n,
                )) && !old(self)@.patterns.contains_key(stored.pattern_id.0@) && final(self)@
                == (WorkspaceModel {
                patterns: old(self)@.patterns.insert(stored.pattern_id.0@, pattern),
                next_pattern: old(self)@.next_pattern + 1,
                ..old(self)@
            }),
    {
        let pattern_id = self.patterns.parse_pattern(pattern);
        proof {
            assert(self@.documents == old(self)@.documents);
            assert(self@.node_caches == old(self)@.node_caches);
            assert(self@.projects == old(self)@.projects);
        }
        Ok(ParsePatternResult { pattern_id })
    }

    /// Prepares a search for a stored pattern in a document.
    pub fn search_pattern(&self, project_key: ProjectKey, path: &str, pattern: &PatternId) -> (r:
        Result<SearchJob, WorkspaceError>)
        requires
            self.wf(),
        ensures
            self@.search_job_is(project_key, path@, pattern.0@, r),
    {
        let query = match self.patterns.get(pattern) {
            Some(query) => query,
            None => {
                return Err(WorkspaceError::InvalidPattern);
            },
        };
        let capabilities = self.get_file_capabilities(path);
        match self.job(project_key, path, capabilities.search.search, false) {
            Ok(job) => Ok(SearchJob { pattern: query, job }),
            Err(error) => Err(error),
        }
    }

    /// Forgets a stored pattern. Nothing happens if the id names none.
    pub fn drop_pattern(&mut self, pattern: &PatternId) -> (r: Result<(), WorkspaceError>)
        requires
            old(self).wf(),
        ensures
            final(self).wf(),
            r is Ok,
            final(self)@ == (WorkspaceModel {
                patterns: old(self)@.patterns.remove(pattern.0@),
                ..old(self)@
            }),
    {
        self.patterns.drop_pattern(pattern);
        proof {
            assert(self@.documents == old(self)@.documents);
            assert(self@.node_caches == old(self)@.node_caches);
            assert(self@.projects == old(self)@.projects);
        }
        Ok(())
    }

    /// A status report: the number of open documents.
    pub fn rage(&self) -> (r: Vec<RageEntry>)
        ensures
            r@.len() == 2,
            r@[0] matches RageEntry::Section(title) && title@ == "Workspace"@,
            r@[1] matches RageEntry::Pair { name, value } && name@ == "Open Documents"@ && value@
                == decimal(self@.documents.dom().len()),
    {
        let count = self.documents.len();
        let mut entries: Vec<RageEntry> = Vec::new();
        entries.push(RageEntry::Section("Workspace".to_owned()));
        entries.push(
            RageEntry::Pair {
                name: "Open Documents".to_owned(),
                value: decimal_string(count as u64),
            },
        );
        entries
    }

    /// What the server tells of itself: nothing.
    pub fn server_info(&self) -> (r: Option<ServerInfo>)
        ensures
            r is None,
    {
        None
    }
}

} // verus!
