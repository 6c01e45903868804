use workspace_server::errors::WorkspaceError;
use workspace_server::file_source::DocumentFileSource;

#[test]
fn error_kinds_have_names() {
    assert_eq!(WorkspaceError::NotFound.kind(), "not_found");
    assert_eq!(WorkspaceError::NoProject.kind(), "no_project");
    assert_eq!(
        WorkspaceError::SourceFileNotSupported {
            language: DocumentFileSource::Unknown,
            path: "/r/a".to_string(),
            extension: None,
        }
        .kind(),
        "source_file_not_supported"
    );
    assert_eq!(WorkspaceError::FileIgnored { path: "/r/a".to_string() }.kind(), "file_ignored");
    assert_eq!(
        WorkspaceError::InvalidConfiguration { message: String::new() }.kind(),
        "invalid_configuration"
    );
    assert_eq!(WorkspaceError::FormatWithErrorsDisabled.kind(), "format_with_errors_disabled");
    assert_eq!(WorkspaceError::InvalidPattern.kind(), "invalid_pattern");
    assert_eq!(WorkspaceError::Io { message: "x".to_string() }.kind(), "io");
}

#[test]
fn errors_compare_by_content() {
    assert_eq!(
        WorkspaceError::FileIgnored { path: "/r/a".to_string() },
        WorkspaceError::FileIgnored { path: "/r/a".to_string() }
    );
    assert_ne!(
        WorkspaceError::FileIgnored { path: "/r/a".to_string() },
        WorkspaceError::FileIgnored { path: "/r/b".to_string() }
    );
    assert_ne!(WorkspaceError::NotFound, WorkspaceError::NoProject);
}
