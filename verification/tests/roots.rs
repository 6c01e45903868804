use workspace_server::errors::WorkspaceError;
use workspace_server::file_source::JsonFileSource;
use workspace_server::root::{
    config_candidates, config_file_source, find_project_root, root_step, search_directories,
    ConfigProbe, ConfigRead, RootStep,
};

fn found(config_path: &str, root: Option<bool>) -> ConfigProbe {
    ConfigProbe::Found { config_path: config_path.to_string(), read: ConfigRead::Read { root } }
}

fn is_continue(step: RootStep) -> bool {
    matches!(step, RootStep::Continue)
}

fn is_found(step: RootStep) -> bool {
    matches!(step, RootStep::Found)
}

fn failure(step: RootStep) -> WorkspaceError {
    match step {
        RootStep::Fail(error) => error,
        _ => panic!("the step does not fail"),
    }
}

#[test]
fn search_directories_lists_ancestors_nearest_first() {
    assert_eq!(search_directories("/r/a/b.js"), vec!["/r/a/b.js", "/r/a", "/r", "/"]);
    assert_eq!(search_directories("/"), vec!["/"]);
    assert_eq!(search_directories("a/b"), vec!["a/b", "a", ""]);
}

#[test]
fn config_candidates_join_both_names() {
    assert_eq!(config_candidates("/r/a"), vec!["/r/a/biome.json", "/r/a/biome.jsonc"]);
    assert_eq!(config_candidates("/"), vec!["/biome.json", "/biome.jsonc"]);
    assert_eq!(config_candidates(""), vec!["biome.json", "biome.jsonc"]);
}

#[test]
fn config_file_source_by_extension() {
    assert_eq!(
        config_file_source("/r/biome.json"),
        Ok(JsonFileSource { jsonc: false, allow_trailing_comma: false })
    );
    assert_eq!(
        config_file_source("/r/biome.jsonc"),
        Ok(JsonFileSource { jsonc: true, allow_trailing_comma: false })
    );
    assert_eq!(
        config_file_source("/r/biome"),
        Err(WorkspaceError::InvalidConfiguration { message: "Missing extension".to_string() })
    );
    assert_eq!(
        config_file_source("/r/biome.toml"),
        Err(WorkspaceError::InvalidConfiguration {
            message: "The parser can't parse the extension 'toml' yet".to_string()
        })
    );
}

#[test]
fn root_step_of_missing_config() {
    assert!(is_continue(root_step(&ConfigProbe::Missing)));
}

#[test]
fn root_step_by_root_field() {
    assert!(is_found(root_step(&found("/r/biome.json", None))));
    assert!(is_found(root_step(&found("/r/biome.json", Some(true)))));
    assert!(is_continue(root_step(&found("/r/biome.json", Some(false)))));
    assert!(is_found(root_step(&found("/r/biome.jsonc", None))));
}

#[test]
fn root_step_fails_on_unreadable_file() {
    let probe = ConfigProbe::Found {
        config_path: "/r/biome".to_string(),
        read: ConfigRead::Unreadable { message: "permission denied".to_string() },
    };
    assert_eq!(
        failure(root_step(&probe)),
        WorkspaceError::Io { message: "permission denied".to_string() }
    );
}

#[test]
fn root_step_fails_on_bad_name_before_content() {
    let probe = ConfigProbe::Found {
        config_path: "/r/biome".to_string(),
        read: ConfigRead::Invalid { message: "unexpected token".to_string() },
    };
    assert_eq!(
        failure(root_step(&probe)),
        WorkspaceError::InvalidConfiguration { message: "Missing extension".to_string() }
    );
    let probe = found("/r/biome.yaml", None);
    assert_eq!(
        failure(root_step(&probe)),
        WorkspaceError::InvalidConfiguration {
            message: "The parser can't parse the extension 'yaml' yet".to_string()
        }
    );
}

#[test]
fn root_step_fails_on_invalid_content() {
    let probe = ConfigProbe::Found {
        config_path: "/r/biome.json".to_string(),
        read: ConfigRead::Invalid { message: "unexpected token".to_string() },
    };
    assert_eq!(
        failure(root_step(&probe)),
        WorkspaceError::InvalidConfiguration { message: "unexpected token".to_string() }
    );
}

#[test]
fn find_project_root_takes_nearest_root() {
    let probes = vec![
        ConfigProbe::Missing,
        found("/r/a/biome.json", Some(false)),
        found("/r/biome.json", None),
        found("/biome.json", Some(true)),
    ];
    assert_eq!(find_project_root("/r/a/b.js", &probes), Ok("/r".to_string()));
}

#[test]
fn find_project_root_may_be_the_path_itself() {
    let probes = vec![found("/r/biome.jsonc", Some(true))];
    assert_eq!(find_project_root("/r", &probes), Ok("/r".to_string()));
}

#[test]
fn find_project_root_without_root_is_not_found() {
    let probes = vec![
        ConfigProbe::Missing,
        found("/r/a/biome.json", Some(false)),
        ConfigProbe::Missing,
        ConfigProbe::Missing,
    ];
    assert_eq!(find_project_root("/r/a/b.js", &probes), Err(WorkspaceError::NotFound));
    assert_eq!(find_project_root("/r/a/b.js", &Vec::new()), Err(WorkspaceError::NotFound));
}

#[test]
fn find_project_root_stops_at_first_failure() {
    let probes = vec![
        ConfigProbe::Missing,
        ConfigProbe::Found {
            config_path: "/r/a/biome.json".to_string(),
            read: ConfigRead::Invalid { message: "broken".to_string() },
        },
        found("/r/biome.json", None),
    ];
    assert_eq!(
        find_project_root("/r/a/b.js", &probes),
        Err(WorkspaceError::InvalidConfiguration { message: "broken".to_string() })
    );
}

#[test]
fn find_project_root_ignores_probes_beyond_the_ancestors() {
    let probes = vec![ConfigProbe::Missing, found("/biome.json", None)];
    assert_eq!(find_project_root("/", &probes), Err(WorkspaceError::NotFound));
}

#[test]
fn find_project_root_root_before_later_failure() {
    let probes = vec![
        found("/r/a/biome.json", None),
        ConfigProbe::Found {
            config_path: "/r/biome.json".to_string(),
            read: ConfigRead::Unreadable { message: "gone".to_string() },
        },
    ];
    assert_eq!(find_project_root("/r/a", &probes), Ok("/r/a".to_string()));
}
