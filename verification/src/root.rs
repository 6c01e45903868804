//! Finding the root of a project.
//!
//! The root is the nearest directory, going up from a path, that holds a
//! configuration file which does not decline to be a root. The library
//! decides; looking into directories and reading files is the caller's part.
//! For each ancestor the caller reports what it found as a [`ConfigProbe`].

use crate::errors::WorkspaceError;
use crate::file_source::{
    json_source_of_path, unknown_extension_text, DocumentFileSource, JsonFileSource,
};
use crate::paths::{
    ancestors, config_file_names, config_names, extension, join, path_ancestors, path_extension,
    path_join, texts_of,
};
use vstd::prelude::*;

verus! {

/// What reading a configuration file came to.
pub enum ConfigRead {
    /// The file could not be read.
    Unreadable { message: String },
    /// The file was read but is not a valid configuration.
    Invalid { message: String },
    /// The file is a configuration; `root` is its `root` field, if it has
    /// one.
    Read { root: Option<bool> },
}

/// What was found in one directory.
pub enum ConfigProbe {
    /// The directory holds no configuration file.
    Missing,
    /// The directory holds the configuration file `config_path`.
    Found { config_path: String, read: ConfigRead },
}

/// What one directory means for the search.
pub enum RootStep {
    /// The directory is no root; the search goes on with its parent.
    Continue,
    /// The directory is the root.
    Found,
    /// The search fails.
    Fail(WorkspaceError),
}

/// Whether `error` is `InvalidConfiguration` with the given message.
pub open spec fn is_invalid_configuration(error: WorkspaceError, message: Seq<char>) -> bool {
    error matches WorkspaceError::InvalidConfiguration { message: m } && m@ == message
}

/// Whether `error` is `Io` with the given message.
pub open spec fn is_io(error: WorkspaceError, message: Seq<char>) -> bool {
    error matches WorkspaceError::Io { message: m } && m@ == message
}

/// What a probe means for the search.
///
/// A directory without configuration file is passed over. A file that cannot
/// be read fails the search with `Io`. A file whose name has no extension, or
/// whose extension names no JSON dialect (the message is the dialects' own),
/// or whose content is not a valid configuration, fails it with
/// `InvalidConfiguration`. A configuration whose
/// `root` field is absent or true makes its directory the root; one whose
/// `root` field is false is passed over.
pub open spec fn step_is(probe: ConfigProbe, step: RootStep) -> bool {
    match probe {
        ConfigProbe::Missing => step is Continue,
        ConfigProbe::Found { config_path, read } => if read is Unreadable {
            step matches RootStep::Fail(error) && is_io(error, read->Unreadable_message@)
        } else if path_extension(config_path@) is None {
            step matches RootStep::Fail(error) && is_invalid_configuration(error, "Missing extension"@)
        } else if json_source_of_path(config_path@) is None {
            step matches RootStep::Fail(error) && is_invalid_configuration(
                error,
                unknown_extension_text(path_extension(config_path@)->Some_0),
            )
        } else {
            match read {
                ConfigRead::Invalid { message } => step matches RootStep::Fail(error)
                    && is_invalid_configuration(error, message@),
                ConfigRead::Read { root } => if root == Some(false) {
                    step is Continue
                } else {
                    step is Found
                },
                ConfigRead::Unreadable { .. } => false,
            }
        },
    }
}

/// Whether a probe lets the search go on.
pub open spec fn passes(probe: ConfigProbe) -> bool {
    step_is(probe, RootStep::Continue)
}

/// What the search comes to, given the ancestors of the path and the probes
/// of the first of them: the first probe that does not let the search go on
/// decides; if every probe does, no root is found.
pub open spec fn search_is(
    ancestors: Seq<Seq<char>>,
    probes: Seq<ConfigProbe>,
    result: Result<String, WorkspaceError>,
) -> bool {
    let n = if probes.len() < ancestors.len() {
        probes.len()
    } else {
        ancestors.len()
    };
    if forall|i: int| 0 <= i < n ==> passes(#[trigger] probes[i]) {
        result == Err::<String, WorkspaceError>(WorkspaceError::NotFound)
    } else {
        exists|i: int|
            0 <= i < n && !passes(#[trigger] probes[i]) && (forall|j: int|
                0 <= j < i ==> passes(#[trigger] probes[j])) && (match result {
                Ok(root) => step_is(probes[i], RootStep::Found) && root@ == ancestors[i],
                Err(error) => step_is(probes[i], RootStep::Fail(error)),
            })
    }
}

/// The JSON dialect of a configuration file, told from its name.
pub fn config_file_source(config_path: &str) -> (r: Result<JsonFileSource, WorkspaceError>)
    ensures
        match r {
            Ok(source) => path_extension(config_path@) is Some && json_source_of_path(config_path@)
                == Some(source),
            Err(error) => if path_extension(config_path@) is None {
                is_invalid_configuration(error, "Missing extension"@)
            } else {
                json_source_of_path(config_path@) is None && is_invalid_configuration(
                    error,
                    unknown_extension_text(path_extension(config_path@)->Some_0),
                )
            },
        },
{
    if extension(config_path).is_none() {
        return Err(WorkspaceError::InvalidConfiguration { message: "Missing extension".to_owned() });
    }
    match DocumentFileSource::json_or_error(config_path) {
        Ok(source) => Ok(source),
        Err(message) => Err(WorkspaceError::InvalidConfiguration { message }),
    }
}

/// Decides what a probe means for the search.
pub fn root_step(probe: &ConfigProbe) -> (r: RootStep)
    ensures
        step_is(*probe, r),
{
    match probe {
        ConfigProbe::Missing => RootStep::Continue,
        ConfigProbe::Found { config_path, read } => {
            match read {
                ConfigRead::Unreadable { message } => {
                    return RootStep::Fail(WorkspaceError::Io { message: message.clone() });
                },
                _ => {},
            }
            match config_file_source(config_path.as_str()) {
                Err(error) => RootStep::Fail(error),
                Ok(_) => match read {
                    ConfigRead::Invalid { message } => RootStep::Fail(
                        WorkspaceError::InvalidConfiguration { message: message.clone() },
                    ),
                    ConfigRead::Read { root } => match root {
                        Some(false) => RootStep::Continue,
                        _ => RootStep::Found,
                    },
                    ConfigRead::Unreadable { message } => RootStep::Fail(
                        WorkspaceError::Io { message: message.clone() },
                    ),
                },
            }
        },
    }
}

/// The paths at which a directory's configuration file is looked for, in
/// the order in which they are tried.
pub fn config_candidates(dir: &str) -> (r: Vec<String>)
    ensures
        r@.len() == config_names().len(),
        forall|i: int| 0 <= i < r@.len() ==> (#[trigger] r@[i])@ == path_join(dir@, config_names()[i]),
{
    let names = config_file_names();
    let mut candidates: Vec<String> = Vec::new();
    let mut i: usize = 0;
    while i < names.len()
        invariant
            i <= names@.len(),
            texts_of(names@) == config_names(),
            candidates@.len() == i,
            forall|k: int|
                0 <= k < i ==> (#[trigger] candidates@[k])@ == path_join(dir@, config_names()[k]),
        decreases names@.len() - i,
    {
        assert(texts_of(names@)[i as int] == names@[i as int]@);
        candidates.push(join(dir, names[i].as_str()));
        i += 1;
    }
    assert(texts_of(names@).len() == names@.len());
    candidates
}

/// The directories in which the root of `path` is looked for, nearest
/// first: the path itself and each of its ancestors.
pub fn search_directories(path: &str) -> (r: Vec<String>)
    ensures
        texts_of(r@) == path_ancestors(path@),
{
    ancestors(path)
}

/// Finds the root of the project that `path` lies in. `probes[i]` reports on
/// the `i`-th of the path's ancestors, the path itself being the first;
/// ancestors beyond the probes count as not looked into.
///
/// Fails with `NotFound` if no probe names a root, and with the error of the
/// first probe that fails the search before one does.
pub fn find_project_root(path: &str, probes: &Vec<ConfigProbe>) -> (r: Result<
    String,
    WorkspaceError,
>)
    ensures
        search_is(path_ancestors(path@), probes@, r),
{
    let directories = ancestors(path);
    let ghost texts = path_ancestors(path@);
    let ghost n = if probes@.len() < texts.len() {
        probes@.len()
    } else {
        texts.len()
    };
    assert(texts_of(directories@).len() == directories@.len());
    let mut i: usize = 0;
    while i < directories.len() && i < probes.len()
        invariant
            i <= n,
            n <= directories@.len(),
            n <= probes@.len(),
            n == directories@.len() || n == probes@.len(),
            texts_of(directories@) == texts,
            texts == path_ancestors(path@),
            texts.len() == directories@.len(),
            n == (if probes@.len() < texts.len() {
                probes@.len()
            } else {
                texts.len()
            }),
            forall|j: int| 0 <= j < i ==> passes(#[trigger] probes@[j]),
        decreases n - i,
    {
        match root_step(&probes[i]) {
            RootStep::Continue => {},
            RootStep::Found => {
                let root = directories[i].clone();
                proof {
                    let k = i as int;
                    assert(texts_of(directories@)[k] == directories@[k]@);
                    assert(!passes(probes@[k]));
                    assert(step_is(probes@[k], RootStep::Found) && root@ == texts[k]);
                }
                return Ok(root);
            },
            RootStep::Fail(error) => {
                proof {
                    let k = i as int;
                    assert(!passes(probes@[k]));
                    assert(step_is(probes@[k], RootStep::Fail(error)));
                }
                return Err(error);
            },
        }
        i += 1;
    }
    Err(WorkspaceError::NotFound)
}

} // verus!
