use workspace_server::capabilities::Features;
use workspace_server::file_source::{DocumentFileSource, JsFileSource, JsonFileSource};
use workspace_server::ignore::{
    applies_git_ignore, file_features_of, is_config_file, is_ignored,
    is_ignored_by_top_level_config, is_protected_file, FeatureKind, FeatureName,
    FileFeaturesResult, GitIgnore, PathFacts, SupportKind,
};
use workspace_server::projects::{
    FilesSettings, FormatterSettings, JsParserSettings, JsonParserSettings, LanguageSettings,
    LinterSettings, OrganizeImportsSettings, Settings,
};

const NONE: FeatureName =
    FeatureName { format: false, lint: false, organize_imports: false, search: false };
const FORMAT: FeatureName = FeatureName { format: true, ..NONE };
const LINT: FeatureName = FeatureName { lint: true, ..NONE };
const FORMAT_AND_LINT: FeatureName = FeatureName { format: true, lint: true, ..NONE };
const ALL: FeatureName =
    FeatureName { format: true, lint: true, organize_imports: true, search: true };

fn facts() -> PathFacts {
    PathFacts {
        is_dir: false,
        included_files_is_empty: true,
        included_files_match: false,
        ignored_files_match: false,
        git_ignore: None,
        ignored_by_feature: NONE,
    }
}

fn settings() -> Settings {
    Settings {
        files: FilesSettings { max_size: 1024, ignore_unknown: false },
        formatter: FormatterSettings { enabled: true, format_with_errors: false },
        linter: LinterSettings { enabled: true },
        organize_imports: OrganizeImportsSettings { enabled: true },
        languages: LanguageSettings {
            javascript: JsParserSettings { parse_class_parameter_decorators: false },
            json: JsonParserSettings { allow_comments: false, allow_trailing_commas: false },
        },
    }
}

fn git(root: &str, reports_ignore: bool) -> Option<GitIgnore> {
    Some(GitIgnore { root: root.to_string(), reports_ignore })
}

#[test]
fn feature_sets() {
    assert!(NONE.is_empty());
    assert!(!LINT.is_empty());
    assert!(FORMAT.contains(FeatureKind::Format));
    assert!(!FORMAT.contains(FeatureKind::Lint));
    assert!(ALL.contains(FeatureKind::OrganizeImports));
    assert!(ALL.contains(FeatureKind::Search));
    assert!(NONE.subset_of(&NONE));
    assert!(NONE.subset_of(&FORMAT));
    assert!(FORMAT.subset_of(&FORMAT_AND_LINT));
    assert!(!FORMAT_AND_LINT.subset_of(&FORMAT));
    assert!(FORMAT_AND_LINT.subset_of(&ALL));
    assert!(!ALL.subset_of(&FORMAT_AND_LINT));
}

#[test]
fn config_and_protected_file_names() {
    assert!(is_config_file("/r/biome.json"));
    assert!(is_config_file("biome.jsonc"));
    assert!(!is_config_file("/r/biome.json/x.js"));
    assert!(!is_config_file("/r/package.json"));
    assert!(!is_config_file("/"));
    assert!(is_protected_file("/r/package-lock.json"));
    assert!(is_protected_file("/r/yarn.lock"));
    assert!(is_protected_file("npm-shrinkwrap.json"));
    assert!(is_protected_file("/r/composer.lock"));
    assert!(!is_protected_file("/r/package.json"));
    assert!(!is_protected_file("/r/yarn.lock.bak"));
}

#[test]
fn git_ignore_applies_to_relative_paths_and_paths_under_root() {
    assert!(applies_git_ignore("src/a.js", "/r"));
    assert!(applies_git_ignore("/r/src/a.js", "/r"));
    assert!(applies_git_ignore("/r", "/r"));
    assert!(!applies_git_ignore("/other/a.js", "/r"));
    assert!(!applies_git_ignore("/rx/a.js", "/r"));
}

#[test]
fn top_level_include_excludes_unmatched_files() {
    let mut f = facts();
    assert!(!is_ignored_by_top_level_config("/r/a.js", &f));
    f.included_files_is_empty = false;
    assert!(is_ignored_by_top_level_config("/r/a.js", &f));
    f.included_files_match = true;
    assert!(!is_ignored_by_top_level_config("/r/a.js", &f));
    f.included_files_match = false;
    f.is_dir = true;
    assert!(!is_ignored_by_top_level_config("/r/a", &f));
}

#[test]
fn top_level_ignore_list_wins_over_include() {
    let mut f = facts();
    f.ignored_files_match = true;
    assert!(is_ignored_by_top_level_config("/r/a.js", &f));
    f.included_files_is_empty = false;
    f.included_files_match = true;
    assert!(is_ignored_by_top_level_config("/r/a.js", &f));
}

#[test]
fn top_level_git_ignore_counts_only_where_it_applies() {
    let mut f = facts();
    f.git_ignore = git("/r", true);
    assert!(is_ignored_by_top_level_config("/r/a.js", &f));
    assert!(is_ignored_by_top_level_config("a.js", &f));
    assert!(!is_ignored_by_top_level_config("/other/a.js", &f));
    f.git_ignore = git("/r", false);
    assert!(!is_ignored_by_top_level_config("/r/a.js", &f));
}

#[test]
fn features_ignore_only_when_all_requested_do() {
    let mut f = facts();
    f.ignored_by_feature = FORMAT;
    assert!(is_ignored("/r/a.js", FORMAT, &f));
    assert!(!is_ignored("/r/a.js", FORMAT_AND_LINT, &f));
    assert!(!is_ignored("/r/a.js", LINT, &f));
    f.ignored_by_feature = ALL;
    assert!(is_ignored("/r/a.js", FORMAT_AND_LINT, &f));
}

#[test]
fn empty_feature_set_is_not_ignored_by_features() {
    let mut f = facts();
    f.ignored_by_feature = ALL;
    assert!(!is_ignored("/r/a.js", NONE, &f));
    f.ignored_files_match = true;
    assert!(is_ignored("/r/a.js", NONE, &f));
}

#[test]
fn config_file_is_never_ignored() {
    let mut f = facts();
    f.ignored_files_match = true;
    f.ignored_by_feature = ALL;
    f.git_ignore = git("/r", true);
    assert!(!is_ignored("/r/biome.json", ALL, &f));
    assert!(!is_ignored("/r/biome.jsonc", ALL, &f));
    assert!(is_ignored("/r/biome.json5", ALL, &f));
}

#[test]
fn support_kinds() {
    assert!(SupportKind::Supported.is_supported());
    assert!(!SupportKind::Ignored.is_supported());
    assert_eq!(SupportKind::FileNotSupported.unsupported_as_ignored(), SupportKind::Ignored);
    assert_eq!(SupportKind::Supported.unsupported_as_ignored(), SupportKind::Supported);
    assert_eq!(SupportKind::Supported.unless_enabled(false), SupportKind::FeatureNotEnabled);
    assert_eq!(SupportKind::Supported.unless_enabled(true), SupportKind::Supported);
    assert_eq!(SupportKind::Supported.ignored_if(true), SupportKind::Ignored);
    assert_eq!(SupportKind::Protected.ignored_if(false), SupportKind::Protected);
}

#[test]
fn file_features_follow_capabilities_without_settings() {
    let js = DocumentFileSource::Js(JsFileSource::js_module());
    let capabilities = Features::new().get_capabilities(js);
    let mut f = facts();
    f.ignored_files_match = true;
    let result = file_features_of("/r/a.js", &capabilities, js, js, None, ALL, &f);
    assert_eq!(result, FileFeaturesResult::all(SupportKind::Supported));

    let json = DocumentFileSource::Json(JsonFileSource::json());
    let capabilities = Features::new().get_capabilities(json);
    let result = file_features_of("/r/a.json", &capabilities, json, json, None, ALL, &facts());
    assert_eq!(result.format, SupportKind::Supported);
    assert_eq!(result.lint, SupportKind::Supported);
    assert_eq!(result.organize_imports, SupportKind::Supported);
    assert_eq!(result.search, SupportKind::FileNotSupported);
    assert_eq!(result.support_for(FeatureKind::Search), SupportKind::FileNotSupported);
    assert_eq!(FileFeaturesResult::new(), FileFeaturesResult::all(SupportKind::FileNotSupported));
}

#[test]
fn file_features_mark_disabled_features() {
    let js = DocumentFileSource::Js(JsFileSource::js_module());
    let capabilities = Features::new().get_capabilities(js);
    let mut s = settings();
    s.linter.enabled = false;
    s.organize_imports.enabled = false;
    let result = file_features_of("/r/a.js", &capabilities, js, js, Some(s), ALL, &facts());
    assert_eq!(result.format, SupportKind::Supported);
    assert_eq!(result.lint, SupportKind::FeatureNotEnabled);
    assert_eq!(result.organize_imports, SupportKind::FeatureNotEnabled);
    assert_eq!(result.search, SupportKind::Supported);
}

#[test]
fn file_features_ignore_unknown_files_when_asked() {
    let unknown = DocumentFileSource::Unknown;
    let capabilities = Features::new().get_capabilities(unknown);
    let mut s = settings();
    let result =
        file_features_of("/r/a.txt", &capabilities, unknown, unknown, Some(s), ALL, &facts());
    assert_eq!(result.format, SupportKind::FileNotSupported);
    assert_eq!(result.search, SupportKind::FileNotSupported);
    s.files.ignore_unknown = true;
    let result =
        file_features_of("/r/a.txt", &capabilities, unknown, unknown, Some(s), ALL, &facts());
    assert_eq!(result, FileFeaturesResult::all(SupportKind::Ignored));
}

#[test]
fn file_features_ignored_by_top_level_for_all_features() {
    let js = DocumentFileSource::Js(JsFileSource::js_module());
    let capabilities = Features::new().get_capabilities(js);
    let mut f = facts();
    f.ignored_files_match = true;
    let result = file_features_of("/r/a.js", &capabilities, js, js, Some(settings()), FORMAT, &f);
    assert_eq!(result, FileFeaturesResult::all(SupportKind::Ignored));
}

#[test]
fn file_features_ignored_per_requested_feature() {
    let js = DocumentFileSource::Js(JsFileSource::js_module());
    let capabilities = Features::new().get_capabilities(js);
    let mut f = facts();
    f.ignored_by_feature = FORMAT_AND_LINT;
    let result = file_features_of("/r/a.js", &capabilities, js, js, Some(settings()), FORMAT, &f);
    assert_eq!(result.format, SupportKind::Ignored);
    assert_eq!(result.lint, SupportKind::Supported);
    assert_eq!(result.organize_imports, SupportKind::Supported);
}

#[test]
fn file_features_never_ignore_the_config_file() {
    let json = DocumentFileSource::Json(JsonFileSource::json());
    let capabilities = Features::new().get_capabilities(json);
    let mut f = facts();
    f.ignored_files_match = true;
    f.ignored_by_feature = ALL;
    let result =
        file_features_of("/r/biome.json", &capabilities, json, json, Some(settings()), ALL, &f);
    assert_eq!(result.format, SupportKind::Supported);
    assert_eq!(result.lint, SupportKind::Supported);
}

#[test]
fn file_features_protect_protected_files() {
    let json = DocumentFileSource::Json(JsonFileSource::json());
    let capabilities = Features::new().get_capabilities(json);
    let result = file_features_of(
        "/r/package-lock.json",
        &capabilities,
        json,
        json,
        Some(settings()),
        ALL,
        &facts(),
    );
    assert_eq!(result, FileFeaturesResult::all(SupportKind::Protected));

    let mut f = facts();
    f.ignored_files_match = true;
    let result = file_features_of(
        "/r/package-lock.json",
        &capabilities,
        json,
        json,
        Some(settings()),
        ALL,
        &f,
    );
    assert_eq!(result, FileFeaturesResult::all(SupportKind::Ignored));
}
