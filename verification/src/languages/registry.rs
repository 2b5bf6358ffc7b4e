//! The languages that this library supports, found by file extension.

use crate::languages::cpp::CppSupport;
use crate::languages::css::CssSupport;
use crate::languages::go::Go;
use crate::languages::html::Html;
use crate::languages::java::Java;
use crate::languages::javascript::JavaScript;
use crate::languages::json::Json;
use crate::languages::markdown::Markdown;
use crate::languages::python::Python;
use crate::languages::rust::Rust;
use crate::languages::scala::ScalaSupport;
use crate::languages::toml::Toml;
use crate::languages::typescript::{Tsx, TypeScript};
use crate::languages::vue::Vue;
use crate::languages::yaml::Yaml;
use crate::languages::{
    call_models, calls_in, export_views, exports_in, extract_all_exports, extract_all_imports,
    extract_calls, extract_symbols, import_views, imports_in, models_of, symbols_at, Call,
    CallModel, Export, ExportModel, Import, ImportModel, LanguageSupport, Symbol, SymbolModel,
};
use crate::paths::{base_name, extension, extension_of, file_name};
use crate::syntax::{Grammar, SyntaxNode};
use crate::text::{chars_of, lower, lowercase_of, same};
use vstd::prelude::*;

verus! {

/// A supported language.
#[derive(Debug, Clone, Copy, PartialEq, Eq, Structural)]
pub enum LanguageId {
    Python,
    Rust,
    JavaScript,
    TypeScript,
    Tsx,
    Go,
    Java,
    Cpp,
    Scala,
    Vue,
    Markdown,
    Json,
    Yaml,
    Toml,
    Html,
    Css,
}

/// The language of the files with the extension `ext`, which is in
/// lowercase and without the dot.
pub open spec fn language_of_extension(ext: Seq<char>) -> Option<LanguageId> {
    if ext == "py"@ || ext == "pyi"@ || ext == "pyw"@ {
        Some(LanguageId::Python)
    } else if ext == "rs"@ {
        Some(LanguageId::Rust)
    } else if ext == "js"@ || ext == "mjs"@ || ext == "cjs"@ || ext == "jsx"@ {
        Some(LanguageId::JavaScript)
    } else if ext == "ts"@ || ext == "mts"@ || ext == "cts"@ {
        Some(LanguageId::TypeScript)
    } else if ext == "tsx"@ {
        Some(LanguageId::Tsx)
    } else if ext == "go"@ {
        Some(LanguageId::Go)
    } else if ext == "java"@ {
        Some(LanguageId::Java)
    } else if ext == "cpp"@ || ext == "cc"@ || ext == "cxx"@ || ext == "hpp"@ || ext == "hh"@
        || ext == "hxx"@ {
        Some(LanguageId::Cpp)
    } else if ext == "scala"@ || ext == "sc"@ {
        Some(LanguageId::Scala)
    } else if ext == "vue"@ {
        Some(LanguageId::Vue)
    } else if ext == "md"@ || ext == "markdown"@ {
        Some(LanguageId::Markdown)
    } else if ext == "json"@ || ext == "jsonc"@ {
        Some(LanguageId::Json)
    } else if ext == "yaml"@ || ext == "yml"@ {
        Some(LanguageId::Yaml)
    } else if ext == "toml"@ {
        Some(LanguageId::Toml)
    } else if ext == "html"@ || ext == "htm"@ {
        Some(LanguageId::Html)
    } else if ext == "css"@ || ext == "scss"@ {
        Some(LanguageId::Css)
    } else {
        None
    }
}

/// Tests whether `ext` is the word `word`.
fn is_word(ext: &Vec<char>, word: &str) -> (r: bool)
    ensures
        r == (ext@ == word@),
{
    let w = chars_of(word);
    same(ext, &w)
}

/// The language of the files with the extension `ext`, whatever the case
/// of its letters; `None` for an extension that no language has.
pub fn support_for_extension(ext: &str) -> (r: Option<LanguageId>)
    ensures
        r == language_of_extension(lowercase_of(ext@)),
{
    let ext = lower(&chars_of(ext));
    if is_word(&ext, "py") || is_word(&ext, "pyi") || is_word(&ext, "pyw") {
        Some(LanguageId::Python)
    } else if is_word(&ext, "rs") {
        Some(LanguageId::Rust)
    } else if is_word(&ext, "js") || is_word(&ext, "mjs") || is_word(&ext, "cjs") || is_word(
        &ext,
        "jsx",
    ) {
        Some(LanguageId::JavaScript)
    } else if is_word(&ext, "ts") || is_word(&ext, "mts") || is_word(&ext, "cts") {
        Some(LanguageId::TypeScript)
    } else if is_word(&ext, "tsx") {
        Some(LanguageId::Tsx)
    } else if is_word(&ext, "go") {
        Some(LanguageId::Go)
    } else if is_word(&ext, "java") {
        Some(LanguageId::Java)
    } else if is_word(&ext, "cpp") || is_word(&ext, "cc") || is_word(&ext, "cxx") || is_word(
        &ext,
        "hpp",
    ) || is_word(&ext, "hh") || is_word(&ext, "hxx") {
        Some(LanguageId::Cpp)
    } else if is_word(&ext, "scala") || is_word(&ext, "sc") {
        Some(LanguageId::Scala)
    } else if is_word(&ext, "vue") {
        Some(LanguageId::Vue)
    } else if is_word(&ext, "md") || is_word(&ext, "markdown") {
        Some(LanguageId::Markdown)
    } else if is_word(&ext, "json") || is_word(&ext, "jsonc") {
        Some(LanguageId::Json)
    } else if is_word(&ext, "yaml") || is_word(&ext, "yml") {
        Some(LanguageId::Yaml)
    } else if is_word(&ext, "toml") {
        Some(LanguageId::Toml)
    } else if is_word(&ext, "html") || is_word(&ext, "htm") {
        Some(LanguageId::Html)
    } else if is_word(&ext, "css") || is_word(&ext, "scss") {
        Some(LanguageId::Css)
    } else {
        None
    }
}

/// The language of the file at `path`, by the extension of its name.
pub open spec fn language_of_path(path: Seq<char>) -> Option<LanguageId> {
    match extension_of(base_name(path)) {
        Some(ext) => language_of_extension(lowercase_of(ext)),
        None => None,
    }
}

/// The language of the file at `path`; `None` where the name has no
/// extension or one that no language has.
pub fn support_for_path(path: &str) -> (r: Option<LanguageId>)
    ensures
        r == language_of_path(path@),
{
    let name = file_name(&chars_of(path));
    match extension(&name) {
        Some(ext) => {
            let text = crate::text::string_of(&ext);
            support_for_extension(text.as_str())
        },
        None => None,
    }
}

/// Every supported language.
pub fn supported_languages() -> (r: Vec<LanguageId>)
    ensures
        r@ == seq![
            LanguageId::Python,
            LanguageId::Rust,
            LanguageId::JavaScript,
            LanguageId::TypeScript,
            LanguageId::Tsx,
            LanguageId::Go,
            LanguageId::Java,
            LanguageId::Cpp,
            LanguageId::Scala,
            LanguageId::Vue,
            LanguageId::Markdown,
            LanguageId::Json,
            LanguageId::Yaml,
            LanguageId::Toml,
            LanguageId::Html,
            LanguageId::Css,
        ],
{
    vec![
        LanguageId::Python,
        LanguageId::Rust,
        LanguageId::JavaScript,
        LanguageId::TypeScript,
        LanguageId::Tsx,
        LanguageId::Go,
        LanguageId::Java,
        LanguageId::Cpp,
        LanguageId::Scala,
        LanguageId::Vue,
        LanguageId::Markdown,
        LanguageId::Json,
        LanguageId::Yaml,
        LanguageId::Toml,
        LanguageId::Html,
        LanguageId::Css,
    ]
}

/// What a source file holds.
pub struct Extraction {
    pub symbols: Vec<Symbol>,
    pub imports: Vec<Import>,
    pub exports: Vec<Export>,
    pub calls: Vec<Call>,
}

/// What a source file holds: the model of `Extraction`.
pub struct ExtractionModel {
    pub symbols: Seq<SymbolModel>,
    pub imports: Seq<ImportModel>,
    pub exports: Seq<ExportModel>,
    pub calls: Seq<CallModel>,
}

impl View for Extraction {
    type V = ExtractionModel;

    open spec fn view(&self) -> ExtractionModel {
        ExtractionModel {
            symbols: models_of(self.symbols@),
            imports: import_views(self.imports@),
            exports: export_views(self.exports@),
            calls: call_models(self.calls@),
        }
    }
}

/// What `lang` finds in a syntax tree.
pub open spec fn extraction_by<L: LanguageSupport>(lang: &L, tree: SyntaxNode) -> ExtractionModel {
    ExtractionModel {
        symbols: symbols_at(lang, tree, false),
        imports: imports_in(lang, tree),
        exports: exports_in(lang, tree),
        calls: calls_in(lang, tree, None),
    }
}

/// What `lang` finds in a syntax tree: its symbols, imports, exports and
/// calls.
pub fn extract_by<L: LanguageSupport>(lang: &L, tree: &SyntaxNode) -> (r: Extraction)
    ensures
        r@ == extraction_by(lang, *tree),
{
    Extraction {
        symbols: extract_symbols(lang, tree),
        imports: extract_all_imports(lang, tree),
        exports: extract_all_exports(lang, tree),
        calls: extract_calls(lang, tree),
    }
}

impl LanguageId {
    /// The grammar that parses the language, where this library has one.
    pub open spec fn grammar_of(&self) -> Option<Grammar> {
        match self {
            LanguageId::Python => Some(Grammar::Python),
            LanguageId::Rust => Some(Grammar::Rust),
            LanguageId::JavaScript => Some(Grammar::JavaScript),
            LanguageId::TypeScript => Some(Grammar::TypeScript),
            LanguageId::Tsx => Some(Grammar::Tsx),
            LanguageId::Go => Some(Grammar::Go),
            LanguageId::Java => Some(Grammar::Java),
            LanguageId::Cpp => Some(Grammar::Cpp),
            LanguageId::Scala => None,
            LanguageId::Vue => None,
            LanguageId::Markdown => Some(Grammar::Markdown),
            LanguageId::Json => Some(Grammar::Json),
            LanguageId::Yaml => Some(Grammar::Yaml),
            LanguageId::Toml => Some(Grammar::Toml),
            LanguageId::Html => Some(Grammar::Html),
            LanguageId::Css => Some(Grammar::Css),
        }
    }

    /// What the language finds in a syntax tree.
    pub open spec fn extraction_of(&self, tree: SyntaxNode) -> ExtractionModel {
        match self {
            LanguageId::Python => extraction_by(&Python, tree),
            LanguageId::Rust => extraction_by(&Rust, tree),
            LanguageId::JavaScript => extraction_by(&JavaScript, tree),
            LanguageId::TypeScript => extraction_by(&TypeScript, tree),
            LanguageId::Tsx => extraction_by(&Tsx, tree),
            LanguageId::Go => extraction_by(&Go, tree),
            LanguageId::Java => extraction_by(&Java, tree),
            LanguageId::Cpp => extraction_by(&CppSupport, tree),
            LanguageId::Scala => extraction_by(&ScalaSupport, tree),
            LanguageId::Vue => extraction_by(&Vue, tree),
            LanguageId::Markdown => extraction_by(&Markdown, tree),
            LanguageId::Json => extraction_by(&Json, tree),
            LanguageId::Yaml => extraction_by(&Yaml, tree),
            LanguageId::Toml => extraction_by(&Toml, tree),
            LanguageId::Html => extraction_by(&Html, tree),
            LanguageId::Css => extraction_by(&CssSupport, tree),
        }
    }

    /// The grammar that parses the language.
    pub fn grammar(&self) -> (r: Option<Grammar>)
        ensures
            r == self.grammar_of(),
    {
        match self {
            LanguageId::Python => Python.grammar(),
            LanguageId::Rust => Rust.grammar(),
            LanguageId::JavaScript => JavaScript.grammar(),
            LanguageId::TypeScript => TypeScript.grammar(),
            LanguageId::Tsx => Tsx.grammar(),
            LanguageId::Go => Go.grammar(),
            LanguageId::Java => Java.grammar(),
            LanguageId::Cpp => CppSupport.grammar(),
            LanguageId::Scala => ScalaSupport.grammar(),
            LanguageId::Vue => Vue.grammar(),
            LanguageId::Markdown => Markdown.grammar(),
            LanguageId::Json => Json.grammar(),
            LanguageId::Yaml => Yaml.grammar(),
            LanguageId::Toml => Toml.grammar(),
            LanguageId::Html => Html.grammar(),
            LanguageId::Css => CssSupport.grammar(),
        }
    }

    /// The name of the language.
    pub open spec fn name_of(&self) -> Seq<char> {
        match self {
            LanguageId::Python => "Python"@,
            LanguageId::Rust => "Rust"@,
            LanguageId::JavaScript => "JavaScript"@,
            LanguageId::TypeScript => "TypeScript"@,
            LanguageId::Tsx => "TSX"@,
            LanguageId::Go => "Go"@,
            LanguageId::Java => "Java"@,
            LanguageId::Cpp => "C++"@,
            LanguageId::Scala => "Scala"@,
            LanguageId::Vue => "Vue"@,
            LanguageId::Markdown => "Markdown"@,
            LanguageId::Json => "JSON"@,
            LanguageId::Yaml => "YAML"@,
            LanguageId::Toml => "TOML"@,
            LanguageId::Html => "HTML"@,
            LanguageId::Css => "CSS"@,
        }
    }

    /// The key under which packages of the language are indexed; empty
    /// where the language has none.
    pub open spec fn key_of(&self) -> Seq<char> {
        match self {
            LanguageId::Python => "python"@,
            LanguageId::Rust => "rust"@,
            LanguageId::JavaScript => "js"@,
            LanguageId::TypeScript => "js"@,
            LanguageId::Tsx => "js"@,
            LanguageId::Go => "go"@,
            LanguageId::Java => "java"@,
            _ => ""@,
        }
    }

    /// The name of the language.
    pub fn name(&self) -> (r: &'static str)
        ensures
            r@ == self.name_of(),
    {
        match self {
            LanguageId::Python => Python.name(),
            LanguageId::Rust => Rust.name(),
            LanguageId::JavaScript => JavaScript.name(),
            LanguageId::TypeScript => TypeScript.name(),
            LanguageId::Tsx => Tsx.name(),
            LanguageId::Go => Go.name(),
            LanguageId::Java => Java.name(),
            LanguageId::Cpp => CppSupport.name(),
            LanguageId::Scala => ScalaSupport.name(),
            LanguageId::Vue => Vue.name(),
            LanguageId::Markdown => Markdown.name(),
            LanguageId::Json => Json.name(),
            LanguageId::Yaml => Yaml.name(),
            LanguageId::Toml => Toml.name(),
            LanguageId::Html => Html.name(),
            LanguageId::Css => CssSupport.name(),
        }
    }

    /// The key under which packages of the language are indexed.
    pub fn lang_key(&self) -> (r: &'static str)
        ensures
            r@ == self.key_of(),
    {
        match self {
            LanguageId::Python => Python.lang_key(),
            LanguageId::Rust => Rust.lang_key(),
            LanguageId::JavaScript => JavaScript.lang_key(),
            LanguageId::TypeScript => TypeScript.lang_key(),
            LanguageId::Tsx => Tsx.lang_key(),
            LanguageId::Go => Go.lang_key(),
            LanguageId::Java => Java.lang_key(),
            LanguageId::Cpp => CppSupport.lang_key(),
            LanguageId::Scala => ScalaSupport.lang_key(),
            LanguageId::Vue => Vue.lang_key(),
            LanguageId::Markdown => Markdown.lang_key(),
            LanguageId::Json => Json.lang_key(),
            LanguageId::Yaml => Yaml.lang_key(),
            LanguageId::Toml => Toml.lang_key(),
            LanguageId::Html => Html.lang_key(),
            LanguageId::Css => CssSupport.lang_key(),
        }
    }

    /// What the language finds in a syntax tree.
    pub fn extract(&self, tree: &SyntaxNode) -> (r: Extraction)
        ensures
            r@ == self.extraction_of(*tree),
    {
        match self {
            LanguageId::Python => extract_by(&Python, tree),
            LanguageId::Rust => extract_by(&Rust, tree),
            LanguageId::JavaScript => extract_by(&JavaScript, tree),
            LanguageId::TypeScript => extract_by(&TypeScript, tree),
            LanguageId::Tsx => extract_by(&Tsx, tree),
            LanguageId::Go => extract_by(&Go, tree),
            LanguageId::Java => extract_by(&Java, tree),
            LanguageId::Cpp => extract_by(&CppSupport, tree),
            LanguageId::Scala => extract_by(&ScalaSupport, tree),
            LanguageId::Vue => extract_by(&Vue, tree),
            LanguageId::Markdown => extract_by(&Markdown, tree),
            LanguageId::Json => extract_by(&Json, tree),
            LanguageId::Yaml => extract_by(&Yaml, tree),
            LanguageId::Toml => extract_by(&Toml, tree),
            LanguageId::Html => extract_by(&Html, tree),
            LanguageId::Css => extract_by(&CssSupport, tree),
        }
    }
}


impl LanguageId {
    /// Whether files of the language can hold symbols: whether the
    /// language knows a kind of node that defines a function, a container
    /// or a type.
    pub fn has_symbols(&self) -> (r: bool)
        ensures
            r == match self {
                LanguageId::Html => false,
                LanguageId::Css => false,
                _ => true,
            },
    {
        match self {
            LanguageId::Python => has_kinds(&Python),
            LanguageId::Rust => has_kinds(&Rust),
            LanguageId::JavaScript => has_kinds(&JavaScript),
            LanguageId::TypeScript => has_kinds(&TypeScript),
            LanguageId::Tsx => has_kinds(&Tsx),
            LanguageId::Go => has_kinds(&Go),
            LanguageId::Java => has_kinds(&Java),
            LanguageId::Cpp => has_kinds(&CppSupport),
            LanguageId::Scala => has_kinds(&ScalaSupport),
            LanguageId::Vue => has_kinds(&Vue),
            LanguageId::Markdown => has_kinds(&Markdown),
            LanguageId::Json => has_kinds(&Json),
            LanguageId::Yaml => has_kinds(&Yaml),
            LanguageId::Toml => has_kinds(&Toml),
            LanguageId::Html => has_kinds(&Html),
            LanguageId::Css => has_kinds(&CssSupport),
        }
    }
}

/// Whether `lang` knows a kind of node that defines a function, a
/// container or a type.
pub fn has_kinds<L: LanguageSupport>(lang: &L) -> (r: bool)
    ensures
        r == (lang.function_kind_list().len() > 0 || lang.container_kind_list().len() > 0
            || lang.type_kind_list().len() > 0),
{
    let functions = lang.function_kinds();
    let containers = lang.container_kinds();
    let types = lang.type_kinds();
    assert(crate::languages::words(functions@).len() == functions.len());
    assert(crate::languages::words(containers@).len() == containers.len());
    assert(crate::languages::words(types@).len() == types.len());
    functions.len() > 0 || containers.len() > 0 || types.len() > 0
}

/// Whether the file at `path` is of a language whose files can hold
/// symbols.
pub fn has_language_support(path: &str) -> (r: bool)
    ensures
        r == match language_of_path(path@) {
            Some(LanguageId::Html) => false,
            Some(LanguageId::Css) => false,
            Some(_) => true,
            None => false,
        },
{
    match support_for_path(path) {
        Some(language) => language.has_symbols(),
        None => false,
    }
}

} // verus!
