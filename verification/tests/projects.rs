use workspace_server::file_source::PackageType;
use workspace_server::projects::{
    FilesSettings, FormatterSettings, JsParserSettings, JsonParserSettings, LanguageSettings,
    LinterSettings, Manifest, OrganizeImportsSettings, ProjectKey, Projects, Settings,
    DEFAULT_FILE_SIZE_LIMIT,
};

fn settings(max_size: usize) -> Settings {
    Settings {
        files: FilesSettings { max_size, ignore_unknown: true },
        formatter: FormatterSettings { enabled: true, format_with_errors: true },
        linter: LinterSettings { enabled: false },
        organize_imports: OrganizeImportsSettings { enabled: true },
        languages: LanguageSettings {
            javascript: JsParserSettings { parse_class_parameter_decorators: true },
            json: JsonParserSettings { allow_comments: false, allow_trailing_commas: true },
        },
    }
}

#[test]
fn keys_are_fresh_and_count_up() {
    let mut projects = Projects::new();
    let a = projects.insert_project("/a".to_string());
    let b = projects.insert_project("/b".to_string());
    assert_eq!(a, ProjectKey { id: 0 });
    assert_eq!(b, ProjectKey { id: 1 });
    projects.remove_project(a);
    let c = projects.insert_project("/c".to_string());
    assert_eq!(c, ProjectKey { id: 2 });
    assert_eq!(projects.get_project_path(a), None);
    assert_eq!(projects.get_project_path(b), Some("/b".to_string()));
    assert_eq!(projects.get_project_path(c), Some("/c".to_string()));
}

#[test]
fn new_project_has_default_settings_and_no_manifest() {
    let mut projects = Projects::new();
    let key = projects.insert_project("/a".to_string());
    let got = projects.get_settings(key).unwrap();
    assert_eq!(got.files.max_size, 1024 * 1024);
    assert_eq!(got.files.max_size, DEFAULT_FILE_SIZE_LIMIT);
    assert!(!got.files.ignore_unknown);
    assert!(!got.formatter.format_with_errors);
    assert!(got.formatter.enabled && got.linter.enabled && got.organize_imports.enabled);
    assert!(!got.languages.javascript.parse_class_parameter_decorators);
    assert!(!got.languages.json.allow_comments && !got.languages.json.allow_trailing_commas);
    assert_eq!(projects.get_manifest(key), None);
    assert_eq!(projects.get_max_file_size(key), 1024 * 1024);
}

#[test]
fn unregistered_key_has_nothing_but_the_default_limit() {
    let projects = Projects::new();
    let key = ProjectKey { id: 3 };
    assert_eq!(projects.get_settings(key), None);
    assert_eq!(projects.get_manifest(key), None);
    assert_eq!(projects.get_project_path(key), None);
    assert_eq!(projects.get_max_file_size(key), 1024 * 1024);
}

#[test]
fn set_settings_replaces_for_one_project() {
    let mut projects = Projects::new();
    let a = projects.insert_project("/a".to_string());
    let b = projects.insert_project("/b".to_string());
    assert!(projects.set_settings(a, settings(8)));
    assert_eq!(projects.get_settings(a), Some(settings(8)));
    assert_eq!(projects.get_max_file_size(a), 8);
    assert_eq!(projects.get_max_file_size(b), 1024 * 1024);
    assert_eq!(projects.get_project_path(a), Some("/a".to_string()));
    assert!(!projects.set_settings(ProjectKey { id: 9 }, settings(8)));
}

#[test]
fn insert_manifest_replaces_for_one_project() {
    let mut projects = Projects::new();
    let a = projects.insert_project("/a".to_string());
    let b = projects.insert_project("/b".to_string());
    let manifest = Manifest { package_type: Some(PackageType::Commonjs) };
    assert!(projects.insert_manifest(b, manifest));
    assert_eq!(projects.get_manifest(b), Some(manifest));
    assert_eq!(projects.get_manifest(a), None);
    assert!(projects.insert_manifest(b, Manifest { package_type: None }));
    assert_eq!(projects.get_manifest(b), Some(Manifest { package_type: None }));
    assert!(!projects.insert_manifest(ProjectKey { id: 9 }, manifest));
    assert_eq!(projects.get_project_path(b), Some("/b".to_string()));
}

#[test]
fn remove_project_of_unknown_key_changes_nothing() {
    let mut projects = Projects::new();
    let a = projects.insert_project("/a".to_string());
    projects.remove_project(ProjectKey { id: 5 });
    assert_eq!(projects.get_project_path(a), Some("/a".to_string()));
}

#[test]
fn path_belongs_only_to_one_project() {
    let mut projects = Projects::new();
    projects.insert_project("/r".to_string());
    projects.insert_project("/other".to_string());
    assert!(projects.path_belongs_only_to_project_with_path("/r/a.js", "/r"));
    assert!(!projects.path_belongs_only_to_project_with_path("/r/a.js", "/other"));
    assert!(!projects.path_belongs_only_to_project_with_path("/elsewhere/a.js", "/r"));
    assert!(!projects.path_belongs_only_to_project_with_path("/r/a.js", "/unregistered"));
    assert!(!projects.path_belongs_only_to_project_with_path("/rx/a.js", "/r"));
}

#[test]
fn path_under_nested_projects_belongs_to_neither_alone() {
    let mut projects = Projects::new();
    projects.insert_project("/r".to_string());
    projects.insert_project("/r/pkg".to_string());
    assert!(!projects.path_belongs_only_to_project_with_path("/r/pkg/a.js", "/r"));
    assert!(!projects.path_belongs_only_to_project_with_path("/r/pkg/a.js", "/r/pkg"));
    assert!(projects.path_belongs_only_to_project_with_path("/r/a.js", "/r"));
}

#[test]
fn two_projects_on_one_root_share_their_documents() {
    let mut projects = Projects::new();
    projects.insert_project("/r".to_string());
    projects.insert_project("/r".to_string());
    assert!(projects.path_belongs_only_to_project_with_path("/r/a.js", "/r"));
}
