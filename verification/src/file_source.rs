//! Descriptors of the language and dialect a document is written in.
//!
//! The descriptors are plain values: every field is a small enum or a flag,
//! so two descriptors are equal exactly when their fields are, and there are
//! only finitely many of them (see [`DocumentFileSource::code`]).

use biome_js_syntax::EmbeddingKind as SyntaxEmbedding;
use biome_js_syntax::JsFileSource as SyntaxJsSource;
use biome_js_syntax::Language as SyntaxLanguage;
use biome_js_syntax::LanguageVariant as SyntaxVariant;
use biome_js_syntax::ModuleKind as SyntaxModuleKind;
use biome_json_syntax::JsonFileSource as SyntaxJsonSource;
use crate::paths::{path_extension, path_file_name};
use std::path::Path;
use vstd::prelude::*;

verus! {

/// The language family of a script source.
#[derive(Clone, Copy, Debug, PartialEq, Eq, Structural)]
pub enum JsLanguage {
    JavaScript,
    /// TypeScript; `definition_file` marks a declaration file.
    TypeScript { definition_file: bool },
}

/// Syntax extensions accepted on top of the language.
#[derive(Clone, Copy, Debug, PartialEq, Eq, Structural)]
pub enum JsVariant {
    Standard,
    StandardRestricted,
    Jsx,
}

/// Whether a source is parsed as a script or as a module.
#[derive(Clone, Copy, Debug, PartialEq, Eq, Structural)]
pub enum ModuleKind {
    Script,
    Module,
}

/// The host format a script is embedded in; `Standalone` when it is a file
/// of its own.
#[derive(Clone, Copy, Debug, PartialEq, Eq, Structural)]
pub enum EmbeddingKind {
    Astro,
    Vue,
    Svelte,
    Standalone,
}

/// A JavaScript or TypeScript source.
#[derive(Clone, Copy, Debug, PartialEq, Eq, Structural)]
pub struct JsFileSource {
    pub language: JsLanguage,
    pub variant: JsVariant,
    pub module_kind: ModuleKind,
    pub embedding: EmbeddingKind,
}

/// A JSON source.
#[derive(Clone, Copy, Debug, PartialEq, Eq, Structural)]
pub struct JsonFileSource {
    /// Comments are part of the dialect.
    pub jsonc: bool,
    pub allow_trailing_comma: bool,
}

/// The language of a document, as far as the workspace tells languages apart.
#[derive(Clone, Copy, Debug, PartialEq, Eq, Structural)]
pub enum DocumentFileSource {
    Js(JsFileSource),
    Json(JsonFileSource),
    Unknown,
}

/// How a package manifest declares its scripts to be loaded.
#[derive(Clone, Copy, Debug, PartialEq, Eq, Structural)]
pub enum PackageType {
    Module,
    Commonjs,
}

/// The number of distinct [`DocumentFileSource`] values.
pub const FILE_SOURCE_COUNT: usize = 77;

impl JsLanguage {
    /// A number that tells the values of the type apart.
    pub open spec fn code(self) -> int {
        match self {
            JsLanguage::JavaScript => 0,
            JsLanguage::TypeScript { definition_file } => if definition_file {
                2
            } else {
                1
            },
        }
    }
}

impl JsVariant {
    /// A number that tells the values of the type apart.
    pub open spec fn code(self) -> int {
        match self {
            JsVariant::Standard => 0,
            JsVariant::StandardRestricted => 1,
            JsVariant::Jsx => 2,
        }
    }
}

impl ModuleKind {
    /// A number that tells the values of the type apart.
    pub open spec fn code(self) -> int {
        match self {
            ModuleKind::Script => 0,
            ModuleKind::Module => 1,
        }
    }
}

impl EmbeddingKind {
    /// A number that tells the values of the type apart.
    pub open spec fn code(self) -> int {
        match self {
            EmbeddingKind::Astro => 0,
            EmbeddingKind::Vue => 1,
            EmbeddingKind::Svelte => 2,
            EmbeddingKind::Standalone => 3,
        }
    }
}

impl JsFileSource {
    /// A number that tells the values of the type apart.
    pub open spec fn code(self) -> int {
        ((self.language.code() * 3 + self.variant.code()) * 2 + self.module_kind.code()) * 4
            + self.embedding.code()
    }

    /// JavaScript, JSX allowed, loaded as a module.
    pub fn jsx() -> (r: JsFileSource)
        ensures
            r == (JsFileSource {
                language: JsLanguage::JavaScript,
                variant: JsVariant::Jsx,
                module_kind: ModuleKind::Module,
                embedding: EmbeddingKind::Standalone,
            }),
    {
        JsFileSource {
            language: JsLanguage::JavaScript,
            variant: JsVariant::Jsx,
            module_kind: ModuleKind::Module,
            embedding: EmbeddingKind::Standalone,
        }
    }

    /// Plain JavaScript loaded as a module.
    pub fn js_module() -> (r: JsFileSource)
        ensures
            r == (JsFileSource {
                language: JsLanguage::JavaScript,
                variant: JsVariant::Standard,
                module_kind: ModuleKind::Module,
                embedding: EmbeddingKind::Standalone,
            }),
    {
        JsFileSource {
            language: JsLanguage::JavaScript,
            variant: JsVariant::Standard,
            module_kind: ModuleKind::Module,
            embedding: EmbeddingKind::Standalone,
        }
    }

    /// Plain TypeScript loaded as a module.
    pub fn ts() -> (r: JsFileSource)
        ensures
            r == (JsFileSource {
                language: JsLanguage::TypeScript { definition_file: false },
                variant: JsVariant::Standard,
                module_kind: ModuleKind::Module,
                embedding: EmbeddingKind::Standalone,
            }),
    {
        JsFileSource {
            language: JsLanguage::TypeScript { definition_file: false },
            variant: JsVariant::Standard,
            module_kind: ModuleKind::Module,
            embedding: EmbeddingKind::Standalone,
        }
    }

    /// The same source with another module kind.
    pub fn with_module_kind(self, kind: ModuleKind) -> (r: JsFileSource)
        ensures
            r == (JsFileSource { module_kind: kind, ..self }),
    {
        JsFileSource { module_kind: kind, ..self }
    }
}

impl JsonFileSource {
    /// A number that tells the values of the type apart.
    pub open spec fn code(self) -> int {
        (if self.jsonc {
            2int
        } else {
            0int
        }) + (if self.allow_trailing_comma {
            1int
        } else {
            0int
        })
    }

    /// Standard JSON: no comments, no trailing commas.
    pub fn json() -> (r: JsonFileSource)
        ensures
            r == (JsonFileSource { jsonc: false, allow_trailing_comma: false }),
    {
        JsonFileSource { jsonc: false, allow_trailing_comma: false }
    }
}

impl DocumentFileSource {
    /// A number that identifies the descriptor: distinct descriptors have
    /// distinct codes, all below [`FILE_SOURCE_COUNT`].
    pub open spec fn code(self) -> int {
        match self {
            DocumentFileSource::Js(js) => js.code(),
            DocumentFileSource::Json(json) => 72 + json.code(),
            DocumentFileSource::Unknown => 76,
        }
    }

    /// The descriptor that opening `path` uses when the caller names none:
    /// a script source if the path names one, else a JSON source if the path
    /// names one, else `Unknown`.
    pub open spec fn spec_from_path(path: Seq<char>) -> DocumentFileSource {
        match js_source_of_path(path) {
            Some(js) => DocumentFileSource::Js(js),
            None => match json_source_of_path(path) {
                Some(json) => DocumentFileSource::Json(json),
                None => DocumentFileSource::Unknown,
            },
        }
    }

    /// Infers the descriptor from a path.
    pub fn from_path(path: &str) -> (r: DocumentFileSource)
        ensures
            r == Self::spec_from_path(path@),
    {
        match js_source_for_path(path) {
            Some(js) => DocumentFileSource::Js(js),
            None => match Self::json_from_path(path) {
                Some(json) => DocumentFileSource::Json(json),
                None => DocumentFileSource::Unknown,
            },
        }
    }

    /// The JSON dialect that a path names, if it names one.
    pub fn json_from_path(path: &str) -> (r: Option<JsonFileSource>)
        ensures
            r == json_source_of_path(path@),
    {
        match json_source_for_path(path) {
            Ok(source) => Some(source),
            Err(_) => None,
        }
    }

    /// The JSON dialect that a path names, or else what the dialects' own
    /// error says of the path. For a path with an extension that names no
    /// dialect the error names the extension.
    pub fn json_or_error(path: &str) -> (r: Result<JsonFileSource, String>)
        ensures
            match r {
                Ok(source) => json_source_of_path(path@) == Some(source),
                Err(message) => json_source_of_path(path@) is None && (path_file_name(path@)
                    is Some && path_extension(path@) is Some ==> message@
                    == unknown_extension_text(path_extension(path@)->Some_0)),
            },
    {
        json_source_for_path(path)
    }

    /// `self` unless it is `Unknown`, in which case `other`.
    pub fn or(self, other: DocumentFileSource) -> (r: DocumentFileSource)
        ensures
            r == (if self is Unknown {
                other
            } else {
                self
            }),
    {
        match self {
            DocumentFileSource::Unknown => other,
            _ => self,
        }
    }

    /// The descriptor a document is stored under once the project's manifest
    /// is taken into account: a JavaScript source at a path whose extension
    /// is `js` is loaded as a script when the manifest declares CommonJS; every
    /// other descriptor is kept as it is.
    pub open spec fn spec_for_manifest(
        self,
        package_type: Option<PackageType>,
        extension: Option<Seq<char>>,
    ) -> DocumentFileSource {
        match self {
            DocumentFileSource::Js(js) => if js.language is JavaScript && package_type == Some(
                PackageType::Commonjs,
            ) && extension == Some("js"@) {
                DocumentFileSource::Js(JsFileSource { module_kind: ModuleKind::Script, ..js })
            } else {
                self
            },
            _ => self,
        }
    }

    /// Applies the manifest's module system to a descriptor.
    pub fn for_manifest(self, package_type: Option<PackageType>, extension: Option<&str>) -> (r:
        DocumentFileSource)
        ensures
            r == self.spec_for_manifest(
                package_type,
                match extension {
                    Some(e) => Some(e@),
                    None => None,
                },
            ),
    {
        match self {
            DocumentFileSource::Js(js) => {
                let javascript = match js.language {
                    JsLanguage::JavaScript => true,
                    JsLanguage::TypeScript { .. } => false,
                };
                let commonjs = match package_type {
                    Some(PackageType::Commonjs) => true,
                    _ => false,
                };
                let plain_js = match extension {
                    Some(e) => str_equal(e, "js"),
                    None => false,
                };
                if javascript && commonjs && plain_js {
                    DocumentFileSource::Js(js.with_module_kind(ModuleKind::Script))
                } else {
                    self
                }
            },
            _ => self,
        }
    }
}

/// Compares two string slices.
pub fn str_equal(a: &str, b: &str) -> (r: bool)
    ensures
        r == (a@ == b@),
{
    let left = a.to_owned();
    let right = b.to_owned();
    left == right
}

/// A script source that is a file of its own.
pub open spec fn script_source(
    language: JsLanguage,
    variant: JsVariant,
    module_kind: ModuleKind,
) -> JsFileSource {
    JsFileSource { language, variant, module_kind, embedding: EmbeddingKind::Standalone }
}

/// The script source that a file name and its extension name, if they name
/// one. A name that ends in `.d.ts`, `.d.mts` or `.d.cts` names a TypeScript
/// declaration file. Otherwise the extension decides: `cjs` is a JavaScript
/// script; `js`, `mjs` and `jsx` are JavaScript modules that may hold JSX;
/// `ts` is TypeScript, `mts` and `cts` TypeScript restricted for JSX, `tsx`
/// TypeScript with JSX; `astro`, `vue` and `svelte` are scripts embedded in
/// those formats.
pub open spec fn js_source_by_names(
    file_name: Option<Seq<char>>,
    extension: Option<Seq<char>>,
) -> Option<JsFileSource> {
    if file_name is Some && extension is Some {
        let name = file_name->Some_0;
        let ext = extension->Some_0;
        let ts = JsLanguage::TypeScript { definition_file: false };
        if ".d.ts"@.is_suffix_of(name) || ".d.mts"@.is_suffix_of(name) || ".d.cts"@.is_suffix_of(
            name,
        ) {
            Some(
                script_source(
                    JsLanguage::TypeScript { definition_file: true },
                    JsVariant::Standard,
                    ModuleKind::Module,
                ),
            )
        } else if ext == "cjs"@ {
            Some(script_source(JsLanguage::JavaScript, JsVariant::Standard, ModuleKind::Script))
        } else if ext == "js"@ || ext == "mjs"@ || ext == "jsx"@ {
            Some(script_source(JsLanguage::JavaScript, JsVariant::Jsx, ModuleKind::Module))
        } else if ext == "ts"@ {
            Some(script_source(ts, JsVariant::Standard, ModuleKind::Module))
        } else if ext == "mts"@ || ext == "cts"@ {
            Some(script_source(ts, JsVariant::StandardRestricted, ModuleKind::Module))
        } else if ext == "tsx"@ {
            Some(script_source(ts, JsVariant::Jsx, ModuleKind::Module))
        } else if ext == "astro"@ {
            Some(
                JsFileSource {
                    embedding: EmbeddingKind::Astro,
                    ..script_source(ts, JsVariant::Standard, ModuleKind::Module)
                },
            )
        } else if ext == "vue"@ {
            Some(
                JsFileSource {
                    embedding: EmbeddingKind::Vue,
                    ..script_source(JsLanguage::JavaScript, JsVariant::Standard, ModuleKind::Module)
                },
            )
        } else if ext == "svelte"@ {
            Some(
                JsFileSource {
                    embedding: EmbeddingKind::Svelte,
                    ..script_source(JsLanguage::JavaScript, JsVariant::Standard, ModuleKind::Module)
                },
            )
        } else {
            None
        }
    } else {
        None
    }
}

/// The JSON source that a file name and its extension name, if they name
/// one: standard JSON for a name that ends in `.json` or the extension
/// `json`, JSON with comments for the extension `jsonc`.
pub open spec fn json_source_by_names(
    file_name: Option<Seq<char>>,
    extension: Option<Seq<char>>,
) -> Option<JsonFileSource> {
    if file_name is Some && extension is Some {
        if ".json"@.is_suffix_of(file_name->Some_0) || extension->Some_0 == "json"@ {
            Some(JsonFileSource { jsonc: false, allow_trailing_comma: false })
        } else if extension->Some_0 == "jsonc"@ {
            Some(JsonFileSource { jsonc: true, allow_trailing_comma: false })
        } else {
            None
        }
    } else {
        None
    }
}

/// What the JSON dialects' own error says of an extension that names none
/// of them.
pub open spec fn unknown_extension_text(extension: Seq<char>) -> Seq<char> {
    "The parser can't parse the extension '"@ + extension + "' yet"@
}

/// The script source that a path names, if it names one: what its last
/// component and that component's extension name.
pub open spec fn js_source_of_path(path: Seq<char>) -> Option<JsFileSource> {
    js_source_by_names(path_file_name(path), path_extension(path))
}

/// The JSON source that a path names, if it names one: what its last
/// component and that component's extension name.
pub open spec fn json_source_of_path(path: Seq<char>) -> Option<JsonFileSource> {
    json_source_by_names(path_file_name(path), path_extension(path))
}

/// Calls `biome_js_syntax::JsFileSource::try_from(&Path)` and copies the fields
/// of the source it finds. That function takes the path's file name and
/// extension, fails if either is missing, and looks both up in the table
/// that [`js_source_by_names`] writes out.
#[verifier::external_body]
fn js_source_for_path(path: &str) -> (r: Option<JsFileSource>)
    ensures
        r == js_source_of_path(path@),
{
    let s = SyntaxJsSource::try_from(Path::new(path)).ok()?;
    Some(JsFileSource {
        language: match s.language() {
            SyntaxLanguage::JavaScript => JsLanguage::JavaScript,
            SyntaxLanguage::TypeScript { definition_file } => JsLanguage::TypeScript { definition_file },
        },
        variant: match s.variant() {
            SyntaxVariant::Standard => JsVariant::Standard, SyntaxVariant::Jsx => JsVariant::Jsx,
            SyntaxVariant::StandardRestricted => JsVariant::StandardRestricted },
        module_kind: match s.module_kind() { SyntaxModuleKind::Script => ModuleKind::Script, SyntaxModuleKind::Module => ModuleKind::Module },
        embedding: match s.as_embedding_kind() {
            SyntaxEmbedding::Astro => EmbeddingKind::Astro, SyntaxEmbedding::Vue => EmbeddingKind::Vue,
            SyntaxEmbedding::Svelte => EmbeddingKind::Svelte, SyntaxEmbedding::None => EmbeddingKind::Standalone },
    })
}

/// Calls `biome_json_syntax::JsonFileSource::try_from(&Path)` and copies the
/// two flags of the source it finds, or else the text of the error. That
/// function takes the path's file name and extension, fails if either is
/// missing, and looks both up in the table that [`json_source_by_names`]
/// writes out. Of the error's text the contract states the one that names
/// the extension; the two that print the path are left open.
#[verifier::external_body]
fn json_source_for_path(path: &str) -> (r: Result<JsonFileSource, String>)
    ensures
        match r {
            Ok(source) => json_source_of_path(path@) == Some(source),
            Err(message) => json_source_of_path(path@) is None && (path_file_name(path@) is Some
                && path_extension(path@) is Some ==> message@ == unknown_extension_text(
                path_extension(path@)->Some_0,
            )),
        },
{
    match SyntaxJsonSource::try_from(Path::new(path)) {
        Ok(found) => Ok(
            JsonFileSource { jsonc: found.is_jsonc(), allow_trailing_comma: found.allows_trailing_comma() },
        ),
        Err(error) => Err(error.to_string()),
    }
}

/// Distinct descriptors have distinct codes, and every code is below
/// [`FILE_SOURCE_COUNT`].
pub proof fn lemma_code_injective(a: DocumentFileSource, b: DocumentFileSource)
    ensures
        0 <= a.code() < FILE_SOURCE_COUNT,
        a.code() == b.code() ==> a == b,
{
}

} // verus!
