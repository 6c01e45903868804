//! The ways an operation of the workspace can fail.

use crate::file_source::DocumentFileSource;
use vstd::prelude::*;

verus! {

/// Why an operation of the workspace failed.
#[derive(Clone, Debug, PartialEq, Eq)]
pub enum WorkspaceError {
    /// No document, project or path of that name is in the store.
    NotFound,
    /// The project key is not registered.
    NoProject,
    /// The language of the file has no handler for the operation.
    SourceFileNotSupported { language: DocumentFileSource, path: String, extension: Option<String> },
    /// The document is stored without a parse because it is too large.
    FileIgnored { path: String },
    /// A configuration file could not be read as a configuration.
    InvalidConfiguration { message: String },
    /// The document has syntax errors and its project does not format such
    /// documents.
    FormatWithErrorsDisabled,
    /// The pattern id names no stored pattern.
    InvalidPattern,
    /// The file system reported an error.
    Io { message: String },
}

impl WorkspaceError {
    /// Whether the error is `FileIgnored` for the given path.
    pub open spec fn is_file_ignored_at(self, path: Seq<char>) -> bool {
        self matches WorkspaceError::FileIgnored { path: p } && p@ == path
    }

    /// A short name of the error.
    pub fn kind(&self) -> (r: &'static str)
        ensures
            r@ == (match *self {
                WorkspaceError::NotFound => "not_found"@,
                WorkspaceError::NoProject => "no_project"@,
                WorkspaceError::SourceFileNotSupported { .. } => "source_file_not_supported"@,
                WorkspaceError::FileIgnored { .. } => "file_ignored"@,
                WorkspaceError::InvalidConfiguration { .. } => "invalid_configuration"@,
                WorkspaceError::FormatWithErrorsDisabled => "format_with_errors_disabled"@,
                WorkspaceError::InvalidPattern => "invalid_pattern"@,
                WorkspaceError::Io { .. } => "io"@,
            }),
    {
        match self {
            WorkspaceError::NotFound => "not_found",
            WorkspaceError::NoProject => "no_project",
            WorkspaceError::SourceFileNotSupported { .. } => "source_file_not_supported",
            WorkspaceError::FileIgnored { .. } => "file_ignored",
            WorkspaceError::InvalidConfiguration { .. } => "invalid_configuration",
            WorkspaceError::FormatWithErrorsDisabled => "format_with_errors_disabled",
            WorkspaceError::InvalidPattern => "invalid_pattern",
            WorkspaceError::Io { .. } => "io",
        }
    }
}

} // verus!
