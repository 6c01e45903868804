use workspace_server::file_source::{
    DocumentFileSource, EmbeddingKind, JsFileSource, JsLanguage, JsVariant, JsonFileSource,
    ModuleKind, PackageType,
};
use workspace_server::source_registry::FileSources;

fn js(language: JsLanguage, variant: JsVariant, module_kind: ModuleKind) -> DocumentFileSource {
    DocumentFileSource::Js(JsFileSource {
        language,
        variant,
        module_kind,
        embedding: EmbeddingKind::Standalone,
    })
}

#[test]
fn from_path_tells_scripts_by_extension() {
    assert_eq!(
        DocumentFileSource::from_path("/r/a.js"),
        js(JsLanguage::JavaScript, JsVariant::Jsx, ModuleKind::Module)
    );
    assert_eq!(
        DocumentFileSource::from_path("/r/a.cjs"),
        js(JsLanguage::JavaScript, JsVariant::Standard, ModuleKind::Script)
    );
    assert_eq!(
        DocumentFileSource::from_path("/r/a.ts"),
        js(
            JsLanguage::TypeScript { definition_file: false },
            JsVariant::Standard,
            ModuleKind::Module
        )
    );
    assert_eq!(
        DocumentFileSource::from_path("/r/a.tsx"),
        js(
            JsLanguage::TypeScript { definition_file: false },
            JsVariant::Jsx,
            ModuleKind::Module
        )
    );
    assert_eq!(
        DocumentFileSource::from_path("/r/a.mts"),
        js(
            JsLanguage::TypeScript { definition_file: false },
            JsVariant::StandardRestricted,
            ModuleKind::Module
        )
    );
    assert_eq!(
        DocumentFileSource::from_path("/r/types.d.ts"),
        js(
            JsLanguage::TypeScript { definition_file: true },
            JsVariant::Standard,
            ModuleKind::Module
        )
    );
}

#[test]
fn from_path_tells_embedded_scripts() {
    assert_eq!(
        DocumentFileSource::from_path("/r/a.vue"),
        DocumentFileSource::Js(JsFileSource {
            language: JsLanguage::JavaScript,
            variant: JsVariant::Standard,
            module_kind: ModuleKind::Module,
            embedding: EmbeddingKind::Vue,
        })
    );
    assert_eq!(
        DocumentFileSource::from_path("/r/a.astro"),
        DocumentFileSource::Js(JsFileSource {
            language: JsLanguage::TypeScript { definition_file: false },
            variant: JsVariant::Standard,
            module_kind: ModuleKind::Module,
            embedding: EmbeddingKind::Astro,
        })
    );
    assert_eq!(
        DocumentFileSource::from_path("/r/a.svelte"),
        DocumentFileSource::Js(JsFileSource {
            language: JsLanguage::JavaScript,
            variant: JsVariant::Standard,
            module_kind: ModuleKind::Module,
            embedding: EmbeddingKind::Svelte,
        })
    );
}

#[test]
fn from_path_tells_json_dialects() {
    assert_eq!(
        DocumentFileSource::from_path("/r/package.json"),
        DocumentFileSource::Json(JsonFileSource { jsonc: false, allow_trailing_comma: false })
    );
    assert_eq!(
        DocumentFileSource::from_path("/r/settings.jsonc"),
        DocumentFileSource::Json(JsonFileSource { jsonc: true, allow_trailing_comma: false })
    );
    assert_eq!(
        DocumentFileSource::json_from_path("/r/settings.jsonc"),
        Some(JsonFileSource { jsonc: true, allow_trailing_comma: false })
    );
    assert_eq!(DocumentFileSource::json_from_path("/r/a.js"), None);
}

#[test]
fn from_path_gives_unknown_for_other_files() {
    assert_eq!(DocumentFileSource::from_path("/r/notes.txt"), DocumentFileSource::Unknown);
    assert_eq!(DocumentFileSource::from_path("/r/Makefile"), DocumentFileSource::Unknown);
    assert_eq!(DocumentFileSource::from_path(""), DocumentFileSource::Unknown);
}

#[test]
fn or_prefers_the_known_source() {
    let known = DocumentFileSource::Json(JsonFileSource::json());
    let other = DocumentFileSource::Js(JsFileSource::ts());
    assert_eq!(DocumentFileSource::Unknown.or(known), known);
    assert_eq!(known.or(other), known);
    assert_eq!(DocumentFileSource::Unknown.or(DocumentFileSource::Unknown), DocumentFileSource::Unknown);
}

#[test]
fn commonjs_manifest_turns_js_into_script() {
    let source = DocumentFileSource::Js(JsFileSource::jsx());
    assert_eq!(
        source.for_manifest(Some(PackageType::Commonjs), Some("js")),
        DocumentFileSource::Js(JsFileSource::jsx().with_module_kind(ModuleKind::Script))
    );
}

#[test]
fn commonjs_manifest_leaves_other_extensions_alone() {
    let source = DocumentFileSource::Js(JsFileSource::js_module());
    assert_eq!(source.for_manifest(Some(PackageType::Commonjs), Some("mjs")), source);
    assert_eq!(source.for_manifest(Some(PackageType::Commonjs), Some("cjs")), source);
    assert_eq!(source.for_manifest(Some(PackageType::Commonjs), Some("jsx")), source);
    assert_eq!(source.for_manifest(Some(PackageType::Commonjs), None), source);
}

#[test]
fn commonjs_manifest_leaves_typescript_and_json_alone() {
    let ts = DocumentFileSource::Js(JsFileSource::ts());
    assert_eq!(ts.for_manifest(Some(PackageType::Commonjs), Some("js")), ts);
    let json = DocumentFileSource::Json(JsonFileSource::json());
    assert_eq!(json.for_manifest(Some(PackageType::Commonjs), Some("js")), json);
    assert_eq!(
        DocumentFileSource::Unknown.for_manifest(Some(PackageType::Commonjs), Some("js")),
        DocumentFileSource::Unknown
    );
}

#[test]
fn module_manifest_or_none_keeps_the_module_kind() {
    let source = DocumentFileSource::Js(JsFileSource::js_module());
    assert_eq!(source.for_manifest(Some(PackageType::Module), Some("js")), source);
    assert_eq!(source.for_manifest(None, Some("js")), source);
}

#[test]
fn registry_starts_empty() {
    let registry = FileSources::new();
    assert_eq!(registry.len(), 0);
    assert_eq!(registry.get_source(0), None);
    assert_eq!(registry.position(DocumentFileSource::Unknown), None);
}

#[test]
fn insert_source_appends_in_order() {
    let mut registry = FileSources::new();
    let a = DocumentFileSource::Js(JsFileSource::js_module());
    let b = DocumentFileSource::Json(JsonFileSource::json());
    let c = DocumentFileSource::Unknown;
    assert_eq!(registry.insert_source(a), 0);
    assert_eq!(registry.insert_source(b), 1);
    assert_eq!(registry.insert_source(c), 2);
    assert_eq!(registry.len(), 3);
    assert_eq!(registry.get_source(0), Some(a));
    assert_eq!(registry.get_source(1), Some(b));
    assert_eq!(registry.get_source(2), Some(c));
    assert_eq!(registry.position(b), Some(1));
}

#[test]
fn insert_source_is_idempotent() {
    let mut registry = FileSources::new();
    let a = DocumentFileSource::Js(JsFileSource::ts());
    let b = DocumentFileSource::Json(JsonFileSource::json());
    let first = registry.insert_source(a);
    registry.insert_source(b);
    for _ in 0..5 {
        assert_eq!(registry.insert_source(a), first);
    }
    assert_eq!(registry.len(), 2);
}

#[test]
fn get_source_out_of_range_is_none() {
    let mut registry = FileSources::new();
    registry.insert_source(DocumentFileSource::Unknown);
    assert_eq!(registry.get_source(1), None);
    assert_eq!(registry.get_source(usize::MAX), None);
}

#[test]
fn registry_holds_every_source_once() {
    let mut registry = FileSources::new();
    let languages = [
        JsLanguage::JavaScript,
        JsLanguage::TypeScript { definition_file: false },
        JsLanguage::TypeScript { definition_file: true },
    ];
    let variants = [JsVariant::Standard, JsVariant::StandardRestricted, JsVariant::Jsx];
    let kinds = [ModuleKind::Script, ModuleKind::Module];
    let embeddings = [
        EmbeddingKind::Astro,
        EmbeddingKind::Vue,
        EmbeddingKind::Svelte,
        EmbeddingKind::Standalone,
    ];
    let mut all = vec![DocumentFileSource::Unknown];
    for jsonc in [false, true] {
        for allow_trailing_comma in [false, true] {
            all.push(DocumentFileSource::Json(JsonFileSource { jsonc, allow_trailing_comma }));
        }
    }
    for language in languages {
        for variant in variants {
            for module_kind in kinds {
                for embedding in embeddings {
                    all.push(DocumentFileSource::Js(JsFileSource {
                        language,
                        variant,
                        module_kind,
                        embedding,
                    }));
                }
            }
        }
    }
    for round in 0..2 {
        for (i, source) in all.iter().enumerate() {
            assert_eq!(registry.insert_source(*source), i, "round {}", round);
        }
    }
    assert_eq!(registry.len(), 77);
    assert_eq!(registry.len(), workspace_server::file_source::FILE_SOURCE_COUNT);
}
