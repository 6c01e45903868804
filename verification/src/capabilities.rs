//! Which operations each language supports, and the parsers behind the
//! `parse` capability.

use crate::document::Parsed;
use crate::file_source::{
    DocumentFileSource, EmbeddingKind, JsFileSource, JsLanguage, JsVariant, JsonFileSource,
    ModuleKind,
};
use biome_js_parser::{parse_js_with_cache, JsParserOptions};
use biome_js_syntax::JsFileSource as SyntaxJsSource;
use biome_js_syntax::LanguageVariant as SyntaxVariant;
use biome_js_syntax::ModuleKind as SyntaxModuleKind;
use biome_json_parser::{parse_json_with_cache, JsonParserOptions};
use biome_parser::AnyParse;
use crate::projects::Settings;
use biome_rowan::NodeCache;
use vstd::prelude::*;

verus! {

/// The language implementation that carries out a capability.
#[derive(Clone, Copy, Debug, PartialEq, Eq, Structural)]
pub enum Handler {
    Js,
    Json,
}

/// Who parses a file of the language.
#[derive(Clone, Copy, Debug, PartialEq, Eq, Structural)]
pub struct ParserCapabilities {
    pub parse: Option<Handler>,
}

/// Who prints the debugging views of a file of the language.
#[derive(Clone, Copy, Debug, PartialEq, Eq, Structural)]
pub struct DebugCapabilities {
    pub debug_syntax_tree: Option<Handler>,
    pub debug_control_flow: Option<Handler>,
    pub debug_formatter_ir: Option<Handler>,
}

/// Who analyzes a file of the language.
#[derive(Clone, Copy, Debug, PartialEq, Eq, Structural)]
pub struct AnalyzerCapabilities {
    pub lint: Option<Handler>,
    pub code_actions: Option<Handler>,
    pub rename: Option<Handler>,
    pub fix_all: Option<Handler>,
}

/// Who formats a file of the language.
#[derive(Clone, Copy, Debug, PartialEq, Eq, Structural)]
pub struct FormatterCapabilities {
    pub format: Option<Handler>,
    pub format_range: Option<Handler>,
    pub format_on_type: Option<Handler>,
}

/// Who searches a file of the language for a pattern.
#[derive(Clone, Copy, Debug, PartialEq, Eq, Structural)]
pub struct SearchCapabilities {
    pub search: Option<Handler>,
}

/// The operations a language supports. An entry is `None` where the language
/// has no implementation of the operation.
#[derive(Clone, Copy, Debug, PartialEq, Eq, Structural)]
pub struct Capabilities {
    pub parser: ParserCapabilities,
    pub debug: DebugCapabilities,
    pub analyzer: AnalyzerCapabilities,
    pub formatter: FormatterCapabilities,
    pub search: SearchCapabilities,
}

/// What a parser hands back: the parse, and the file source it settled on if
/// that is worth recording in place of the one it was given.
pub struct ParseResult {
    pub any_parse: Parsed,
    pub language: Option<DocumentFileSource>,
}

/// The table of capabilities by language.
#[derive(Clone, Copy, Debug)]
pub struct Features {}

/// A language without any capability.
pub open spec fn no_capabilities() -> Capabilities {
    Capabilities {
        parser: ParserCapabilities { parse: None },
        debug: DebugCapabilities {
            debug_syntax_tree: None,
            debug_control_flow: None,
            debug_formatter_ir: None,
        },
        analyzer: AnalyzerCapabilities { lint: None, code_actions: None, rename: None, fix_all: None },
        formatter: FormatterCapabilities { format: None, format_range: None, format_on_type: None },
        search: SearchCapabilities { search: None },
    }
}

/// Standalone scripts support every operation.
pub open spec fn js_capabilities() -> Capabilities {
    Capabilities {
        parser: ParserCapabilities { parse: Some(Handler::Js) },
        debug: DebugCapabilities {
            debug_syntax_tree: Some(Handler::Js),
            debug_control_flow: Some(Handler::Js),
            debug_formatter_ir: Some(Handler::Js),
        },
        analyzer: AnalyzerCapabilities {
            lint: Some(Handler::Js),
            code_actions: Some(Handler::Js),
            rename: Some(Handler::Js),
            fix_all: Some(Handler::Js),
        },
        formatter: FormatterCapabilities {
            format: Some(Handler::Js),
            format_range: Some(Handler::Js),
            format_on_type: Some(Handler::Js),
        },
        search: SearchCapabilities { search: Some(Handler::Js) },
    }
}

/// JSON supports parsing, linting and formatting, but has no control flow,
/// no rename and no pattern search.
pub open spec fn json_capabilities() -> Capabilities {
    Capabilities {
        parser: ParserCapabilities { parse: Some(Handler::Json) },
        debug: DebugCapabilities {
            debug_syntax_tree: Some(Handler::Json),
            debug_control_flow: None,
            debug_formatter_ir: Some(Handler::Json),
        },
        analyzer: AnalyzerCapabilities {
            lint: Some(Handler::Json),
            code_actions: Some(Handler::Json),
            rename: None,
            fix_all: Some(Handler::Json),
        },
        formatter: FormatterCapabilities {
            format: Some(Handler::Json),
            format_range: Some(Handler::Json),
            format_on_type: Some(Handler::Json),
        },
        search: SearchCapabilities { search: None },
    }
}

/// The capabilities of a file source: those of scripts for a script that is a
/// file of its own, those of JSON for JSON, and none for anything else.
pub open spec fn capabilities_of(source: DocumentFileSource) -> Capabilities {
    match source {
        DocumentFileSource::Js(js) => if js.embedding is Standalone {
            js_capabilities()
        } else {
            no_capabilities()
        },
        DocumentFileSource::Json(_) => json_capabilities(),
        DocumentFileSource::Unknown => no_capabilities(),
    }
}

/// The longest text, in bytes, that the parsers take: they count the
/// positions in a text in 32 bits.
pub const MAX_PARSE_SIZE: usize = 4294967295;

/// Whether a text is short enough for the parsers.
pub open spec fn parseable(text: Seq<char>) -> bool {
    vstd::utf8::encode_utf8(text).len() <= MAX_PARSE_SIZE
}

/// The length of a text in bytes.
pub fn text_size(text: &str) -> (r: usize)
    ensures
        r == vstd::utf8::encode_utf8(text@).len(),
        parseable(text@) <==> r <= MAX_PARSE_SIZE,
{
    text.as_bytes().len()
}

/// Whether the script parser reports an error for a text read as the given
/// source, with or without decorators on the parameters of a class.
pub uninterp spec fn js_parse_has_errors(
    text: Seq<char>,
    source: JsFileSource,
    parameter_decorators: bool,
) -> bool;

/// Whether the JSON parser reports an error for a text, with comments and
/// trailing commas allowed or not.
pub uninterp spec fn json_parse_has_errors(
    text: Seq<char>,
    allow_comments: bool,
    allow_trailing_commas: bool,
) -> bool;

/// Whether decorators on the parameters of a class are parsed: they are if
/// the project's settings say so.
pub open spec fn parameter_decorators(settings: Option<Settings>) -> bool {
    settings matches Some(s) && s.languages.javascript.parse_class_parameter_decorators
}

/// Whether comments are allowed in a JSON text: they are if the dialect has
/// them or the project's settings allow them everywhere.
pub open spec fn json_comments(source: JsonFileSource, settings: Option<Settings>) -> bool {
    source.jsonc || (settings matches Some(s) && s.languages.json.allow_comments)
}

/// Whether trailing commas are allowed in a JSON text: they are if the
/// source allows them or the project's settings allow them everywhere.
pub open spec fn json_trailing_commas(source: JsonFileSource, settings: Option<Settings>) -> bool {
    source.allow_trailing_comma || (settings matches Some(s)
        && s.languages.json.allow_trailing_commas)
}

/// Whether parsing `text` as `source` under the given settings reports an
/// error.
pub open spec fn parse_has_errors(
    source: DocumentFileSource,
    text: Seq<char>,
    settings: Option<Settings>,
) -> bool {
    match source {
        DocumentFileSource::Js(js) => js_parse_has_errors(text, js, parameter_decorators(settings)),
        DocumentFileSource::Json(json) => json_parse_has_errors(
            text,
            json_comments(json, settings),
            json_trailing_commas(json, settings),
        ),
        DocumentFileSource::Unknown => false,
    }
}

/// The file source a parse reports back: the JSON parser reports the dialect
/// it read, the script parser reports none.
pub open spec fn reported_source(source: DocumentFileSource) -> Option<DocumentFileSource> {
    match source {
        DocumentFileSource::Json(_) => Some(source),
        _ => None,
    }
}

/// Calls `biome_js_parser::parse_js_with_cache` on a source rebuilt field by
/// field, and wraps the tree as an `AnyParse`. Of the result the contract
/// names one thing, whether the parser reported an error, which
/// `AnyParse::has_errors` answers; the tree itself stays unspecified. The
/// parse of a root node is a root, so `as_send` has a value. The lexer keeps
/// positions in 32 bits and panics on a range that wraps, so the text is at
/// most `u32::MAX` bytes long.
#[verifier::external_body]
fn parse_js_text(text: &str, source: JsFileSource, decorators: bool, cache: &mut NodeCache) -> (r:
    Parsed)
    requires
        source.embedding is Standalone,
        vstd::utf8::encode_utf8(text@).len() <= u32::MAX,
    ensures
        r.has_errors == js_parse_has_errors(text@, source, decorators),
{
    let language = match source.language {
        JsLanguage::JavaScript => SyntaxJsSource::js_module(),
        JsLanguage::TypeScript { definition_file: false } => SyntaxJsSource::ts(),
        JsLanguage::TypeScript { definition_file: true } => SyntaxJsSource::d_ts(),
    };
    let variant = match source.variant {
        JsVariant::Standard => SyntaxVariant::Standard, JsVariant::Jsx => SyntaxVariant::Jsx,
        JsVariant::StandardRestricted => SyntaxVariant::StandardRestricted,
    };
    let kind = match source.module_kind { ModuleKind::Script => SyntaxModuleKind::Script, ModuleKind::Module => SyntaxModuleKind::Module };
    let syntax_source = language.with_variant(variant).with_module_kind(kind);
    let options = JsParserOptions { parse_class_parameter_decorators: decorators };
    let parse = parse_js_with_cache(text, syntax_source, options, cache);
    let tree = AnyParse::new(parse.syntax().as_send().unwrap(), parse.into_diagnostics());
    Parsed { has_errors: tree.has_errors(), tree }
}

/// Calls `biome_json_parser::parse_json_with_cache` with the two options
/// given, and wraps the tree as an `AnyParse`. Of the result the contract
/// names one thing, whether the parser reported an error, which
/// `AnyParse::has_errors` answers. The lexer converts positions to 32 bits
/// and panics on one that does not fit, so the text is at most `u32::MAX`
/// bytes long.
#[verifier::external_body]
fn parse_json_text(text: &str, allow_comments: bool, allow_trailing_commas: bool, cache: &mut NodeCache) -> (r:
    Parsed)
    requires
        vstd::utf8::encode_utf8(text@).len() <= u32::MAX,
    ensures
        r.has_errors == json_parse_has_errors(text@, allow_comments, allow_trailing_commas),
{
    let options = JsonParserOptions { allow_comments, allow_trailing_commas };
    let parse = parse_json_with_cache(text, cache, options);
    let tree = AnyParse::new(parse.syntax().as_send().unwrap(), parse.into_diagnostics());
    Parsed { has_errors: tree.has_errors(), tree }
}

impl Features {
    /// The table of capabilities.
    pub fn new() -> Features {
        Features {  }
    }

    /// The capabilities of a file source.
    pub fn get_capabilities(&self, source: DocumentFileSource) -> (r: Capabilities)
        ensures
            r == capabilities_of(source),
    {
        match source {
            DocumentFileSource::Js(js) => match js.embedding {
                EmbeddingKind::Standalone => Capabilities {
                    parser: ParserCapabilities { parse: Some(Handler::Js) },
                    debug: DebugCapabilities {
                        debug_syntax_tree: Some(Handler::Js),
                        debug_control_flow: Some(Handler::Js),
                        debug_formatter_ir: Some(Handler::Js),
                    },
                    analyzer: AnalyzerCapabilities {
                        lint: Some(Handler::Js),
                        code_actions: Some(Handler::Js),
                        rename: Some(Handler::Js),
                        fix_all: Some(Handler::Js),
                    },
                    formatter: FormatterCapabilities {
                        format: Some(Handler::Js),
                        format_range: Some(Handler::Js),
                        format_on_type: Some(Handler::Js),
                    },
                    search: SearchCapabilities { search: Some(Handler::Js) },
                },
                _ => Self::none(),
            },
            DocumentFileSource::Json(_) => Capabilities {
                parser: ParserCapabilities { parse: Some(Handler::Json) },
                debug: DebugCapabilities {
                    debug_syntax_tree: Some(Handler::Json),
                    debug_control_flow: None,
                    debug_formatter_ir: Some(Handler::Json),
                },
                analyzer: AnalyzerCapabilities {
                    lint: Some(Handler::Json),
                    code_actions: Some(Handler::Json),
                    rename: None,
                    fix_all: Some(Handler::Json),
                },
                formatter: FormatterCapabilities {
                    format: Some(Handler::Json),
                    format_range: Some(Handler::Json),
                    format_on_type: Some(Handler::Json),
                },
                search: SearchCapabilities { search: None },
            },
            DocumentFileSource::Unknown => Self::none(),
        }
    }

    fn none() -> (r: Capabilities)
        ensures
            r == no_capabilities(),
    {
        Capabilities {
            parser: ParserCapabilities { parse: None },
            debug: DebugCapabilities {
                debug_syntax_tree: None,
                debug_control_flow: None,
                debug_formatter_ir: None,
            },
            analyzer: AnalyzerCapabilities {
                lint: None,
                code_actions: None,
                rename: None,
                fix_all: None,
            },
            formatter: FormatterCapabilities { format: None, format_range: None, format_on_type: None },
            search: SearchCapabilities { search: None },
        }
    }

    /// Parses `text` as JSON of the given dialect under the given settings.
    /// The text is no longer than the parsers take.
    pub fn parse_json(
        &self,
        source: JsonFileSource,
        text: &str,
        settings: Option<Settings>,
        cache: &mut NodeCache,
    ) -> (r: ParseResult)
        requires
            parseable(text@),
        ensures
            r.any_parse.has_errors == parse_has_errors(
                DocumentFileSource::Json(source),
                text@,
                settings,
            ),
            r.language == Some(DocumentFileSource::Json(source)),
    {
        let (comments, commas) = match settings {
            Some(s) => (s.languages.json.allow_comments, s.languages.json.allow_trailing_commas),
            None => (false, false),
        };
        ParseResult {
            any_parse: parse_json_text(
                text,
                source.jsonc || comments,
                source.allow_trailing_comma || commas,
                cache,
            ),
            language: Some(DocumentFileSource::Json(source)),
        }
    }

    /// Parses `text` as `source` under the given settings, if the source's
    /// language has a parser. The helper in `cache` is used and updated by the
    /// parse. The text is no longer than the parsers take.
    pub fn parse(
        &self,
        source: DocumentFileSource,
        text: &str,
        settings: Option<Settings>,
        cache: &mut NodeCache,
    ) -> (r: Option<ParseResult>)
        requires
            parseable(text@),
        ensures
            r is Some <==> capabilities_of(source).parser.parse is Some,
            r matches Some(p) ==> p.any_parse.has_errors == parse_has_errors(source, text@, settings)
                && p.language == reported_source(source),
    {
        match source {
            DocumentFileSource::Js(js) => match js.embedding {
                EmbeddingKind::Standalone => {
                    let decorators = match settings {
                        Some(s) => s.languages.javascript.parse_class_parameter_decorators,
                        None => false,
                    };
                    Some(
                        ParseResult {
                            any_parse: parse_js_text(text, js, decorators, cache),
                            language: None,
                        },
                    )
                },
                _ => None,
            },
            DocumentFileSource::Json(json) => Some(self.parse_json(json, text, settings, cache)),
            DocumentFileSource::Unknown => None,
        }
    }
}

} // verus!
