use moss::languages::cpp::CppSupport;
use moss::languages::css::CssSupport;
use moss::languages::ecmascript;
use moss::languages::go::Go;
use moss::languages::html::Html;
use moss::languages::java::Java;
use moss::languages::javascript::JavaScript;
use moss::languages::json::Json;
use moss::languages::markdown::Markdown;
use moss::languages::python::Python;
use moss::languages::registry::{
    support_for_extension, support_for_path, supported_languages, LanguageId,
};
use moss::languages::rust::Rust;
use moss::languages::scala::ScalaSupport;
use moss::languages::toml::Toml;
use moss::languages::typescript::{Tsx, TypeScript};
use moss::languages::vue::Vue;
use moss::languages::yaml::Yaml;
use moss::languages::{
    callee_name, extract_all_exports, extract_all_imports, extract_calls, extract_symbols,
    LanguageSupport, Symbol, SymbolKind, Visibility, VisibilityMechanism,
};
use moss::syntax::{parse_source, Grammar, SyntaxNode};

fn find<'a>(node: &'a SyntaxNode, kind: &str) -> Option<&'a SyntaxNode> {
    if node.kind == kind {
        return Some(node);
    }
    for child in &node.children {
        if let Some(found) = find(child, kind) {
            return Some(found);
        }
    }
    None
}

fn outline(symbols: &[Symbol], depth: usize, out: &mut Vec<String>) {
    for s in symbols {
        out.push(format!(
            "{}{} {} [{}] {}-{} {:?}",
            "  ".repeat(depth),
            s.kind.as_str(),
            s.name,
            s.signature,
            s.start_line,
            s.end_line,
            s.visibility
        ));
        outline(&s.children, depth + 1, out);
    }
}

fn outline_of<L: LanguageSupport>(lang: &L, grammar: Grammar, source: &str) -> Vec<String> {
    let tree = parse_source(grammar, source).unwrap();
    let mut out = Vec::new();
    outline(&extract_symbols(lang, &tree), 0, &mut out);
    out
}

#[test]
fn registry_by_extension() {
    assert_eq!(support_for_extension("py"), Some(LanguageId::Python));
    assert_eq!(support_for_extension("PY"), Some(LanguageId::Python));
    assert_eq!(support_for_extension("pyi"), Some(LanguageId::Python));
    assert_eq!(support_for_extension("rs"), Some(LanguageId::Rust));
    assert_eq!(support_for_extension("mjs"), Some(LanguageId::JavaScript));
    assert_eq!(support_for_extension("cts"), Some(LanguageId::TypeScript));
    assert_eq!(support_for_extension("tsx"), Some(LanguageId::Tsx));
    assert_eq!(support_for_extension("go"), Some(LanguageId::Go));
    assert_eq!(support_for_extension("java"), Some(LanguageId::Java));
    assert_eq!(support_for_extension("hpp"), Some(LanguageId::Cpp));
    assert_eq!(support_for_extension("sc"), Some(LanguageId::Scala));
    assert_eq!(support_for_extension("vue"), Some(LanguageId::Vue));
    assert_eq!(support_for_extension("markdown"), Some(LanguageId::Markdown));
    assert_eq!(support_for_extension("jsonc"), Some(LanguageId::Json));
    assert_eq!(support_for_extension("yml"), Some(LanguageId::Yaml));
    assert_eq!(support_for_extension("toml"), Some(LanguageId::Toml));
    assert_eq!(support_for_extension("htm"), Some(LanguageId::Html));
    assert_eq!(support_for_extension("scss"), Some(LanguageId::Css));
    assert_eq!(support_for_extension("exe"), None);
    assert_eq!(support_for_extension(""), None);
    assert_eq!(support_for_path("src/lib/Main.JAVA"), Some(LanguageId::Java));
    assert_eq!(support_for_path("src/Makefile"), None);
    assert_eq!(support_for_path("a.b/c"), None);
    assert_eq!(support_for_path(".toml"), None);
    let all = supported_languages();
    assert_eq!(all.len(), 16);
    assert_eq!(all[0], LanguageId::Python);
    assert_eq!(LanguageId::Go.name(), "Go");
    assert_eq!(LanguageId::Tsx.lang_key(), "js");
    assert_eq!(LanguageId::Vue.grammar(), None);
    assert_eq!(LanguageId::Cpp.grammar(), Some(Grammar::Cpp));
}

#[test]
fn every_extension_of_a_language_leads_back_to_it() {
    assert!(Go.extensions().iter().all(|e| support_for_extension(e) == Some(LanguageId::Go)));
    assert!(Python.extensions().iter().all(|e| support_for_extension(e) == Some(LanguageId::Python)));
    assert!(JavaScript.extensions().iter().all(|e| support_for_extension(e) == Some(LanguageId::JavaScript)));
    assert!(TypeScript.extensions().iter().all(|e| support_for_extension(e) == Some(LanguageId::TypeScript)));
    assert!(Tsx.extensions().iter().all(|e| support_for_extension(e) == Some(LanguageId::Tsx)));
    assert!(CppSupport.extensions().iter().all(|e| support_for_extension(e) == Some(LanguageId::Cpp)));
    assert!(ScalaSupport.extensions().iter().all(|e| support_for_extension(e) == Some(LanguageId::Scala)));
    assert!(Markdown.extensions().iter().all(|e| support_for_extension(e) == Some(LanguageId::Markdown)));
}

#[test]
fn language_tables() {
    assert_eq!(Go.name(), "Go");
    assert_eq!(Go.grammar_name(), "go");
    assert_eq!(Go.lang_key(), "go");
    assert_eq!(Go.grammar(), Some(Grammar::Go));
    assert!(Go.container_kinds().is_empty());
    assert_eq!(Go.function_kinds(), vec!["function_declaration", "method_declaration"]);
    assert_eq!(Go.type_kinds(), vec!["type_spec"]);
    assert_eq!(Go.import_kinds(), vec!["import_declaration"]);
    assert_eq!(Go.public_symbol_kinds().len(), 5);
    assert_eq!(Go.visibility_mechanism(), VisibilityMechanism::NamingConvention);
    assert_eq!(Go.scope_creating_kinds().len(), 5);
    assert_eq!(Go.control_flow_kinds().len(), 9);
    assert_eq!(Go.complexity_nodes().len(), 8);
    assert_eq!(Go.nesting_nodes().len(), 6);
    assert_eq!(Java.container_kinds(), vec!["class_declaration", "interface_declaration", "enum_declaration"]);
    assert_eq!(Java.visibility_mechanism(), VisibilityMechanism::AccessModifier);
    assert_eq!(JavaScript.function_kinds().len(), 3);
    assert_eq!(TypeScript.function_kinds().len(), 2);
    assert_eq!(TypeScript.type_kinds().len(), 4);
    assert_eq!(JavaScript.visibility_mechanism(), VisibilityMechanism::ExplicitExport);
    assert_eq!(Tsx.name(), "TSX");
    assert_eq!(CppSupport.visibility_mechanism(), VisibilityMechanism::HeaderBased);
    assert!(CppSupport.scope_creating_kinds().is_empty());
    assert_eq!(CssSupport.name(), "CSS");
    assert!(CssSupport.function_kinds().is_empty());
    assert_eq!(Html.visibility_mechanism(), VisibilityMechanism::NotApplicable);
    assert_eq!(Json.container_kinds(), vec!["object"]);
    assert_eq!(Yaml.container_kinds(), vec!["block_mapping", "flow_mapping"]);
    assert_eq!(Toml.container_kinds(), vec!["table", "table_array_element"]);
    assert_eq!(Markdown.container_kinds(), vec!["atx_heading", "setext_heading"]);
    assert_eq!(Vue.grammar(), None);
    assert_eq!(ScalaSupport.grammar(), None);
    assert_eq!(SymbolKind::Interface.as_str(), "interface");
    assert_eq!(SymbolKind::Heading.as_str(), "heading");
    assert_eq!(ecmascript::js_extensions(), vec!["js", "jsx", "mjs", "cjs"]);
    assert_eq!(ecmascript::ts_extensions().len(), 6);
}

const GO: &str = "package main\n\nimport (\n\t\"fmt\"\n\tstr \"strings\"\n\t. \"math\"\n\t_ \"embed\"\n)\nimport \"os\"\n\ntype Shape interface {\n\tArea() float64\n}\n\ntype point struct {\n\tx int\n}\n\ntype ID int\n\nfunc (p point) Area() float64 {\n\treturn 0\n}\n\nfunc helper(a int, b string) {\n\tfmt.Println(a)\n}\n\nconst Max = 3\nvar hidden = 1\n";

#[test]
fn go_symbols() {
    assert_eq!(
        outline_of(&Go, Grammar::Go, GO),
        vec![
            "interface Shape [type Shape] 11-13 Public",
            "struct point [type point] 15-17 Private",
            "type ID [type ID] 19-19 Public",
            "function Area [func Area()] 21-23 Public",
            "function helper [func helper(a int, b string)] 25-27 Private",
        ]
    );
}

#[test]
fn go_imports_and_exports() {
    let tree = parse_source(Grammar::Go, GO).unwrap();
    let imports = extract_all_imports(&Go, &tree);
    let got: Vec<(String, Option<String>, bool, usize)> =
        imports.iter().map(|i| (i.module.clone(), i.alias.clone(), i.is_wildcard, i.line)).collect();
    assert_eq!(
        got,
        vec![
            ("fmt".to_string(), None, false, 3),
            ("strings".to_string(), Some("str".to_string()), false, 3),
            ("math".to_string(), Some(".".to_string()), true, 3),
            ("embed".to_string(), Some("_".to_string()), false, 3),
            ("os".to_string(), None, false, 9),
        ]
    );
    assert!(imports.iter().all(|i| i.names.is_empty() && !i.is_relative));
    let exports = extract_all_exports(&Go, &tree);
    let got: Vec<(String, SymbolKind, usize)> =
        exports.iter().map(|e| (e.name.clone(), e.kind, e.line)).collect();
    assert_eq!(
        got,
        vec![
            ("Shape".to_string(), SymbolKind::Type, 11),
            ("ID".to_string(), SymbolKind::Type, 19),
            ("Area".to_string(), SymbolKind::Method, 21),
            ("Max".to_string(), SymbolKind::Constant, 29),
        ]
    );
    let func = find(&tree, "function_declaration").unwrap();
    assert!(!Go.is_public(func));
    assert_eq!(Go.get_visibility(func), Visibility::Private);
    let method = find(&tree, "method_declaration").unwrap();
    assert!(Go.is_public(method));
    assert!(Go.extract_container(method).is_none());
    let spec = find(&tree, "import_spec").unwrap();
    assert_eq!(Go::parse_import_spec(spec, 7).unwrap().line, 7);
    assert!(Go.extract_imports(func).is_empty());
}

#[test]
fn go_export_follows_the_uppercase_letter() {
    let tree = parse_source(Grammar::Go, "package p\nfunc \u{c9}t\u{e9}() {}\nfunc \u{e9}t\u{e9}() {}\nfunc _X() {}\n").unwrap();
    let symbols = extract_symbols(&Go, &tree);
    let vis: Vec<Visibility> = symbols.iter().map(|s| s.visibility).collect();
    assert_eq!(vis, vec![Visibility::Public, Visibility::Private, Visibility::Private]);
}

const JAVA: &str = "package p;\n\nimport java.util.List;\n\npublic class Shop {\n    private int n;\n\n    public Shop() {}\n\n    protected void open(String who) {}\n\n    void close() {}\n\n    private static class Till {\n        private void ring() {}\n    }\n}\n\ninterface Seller {}\n\nenum Day { MON }\n";

#[test]
fn java_symbols_and_exports() {
    assert_eq!(
        outline_of(&Java, Grammar::Java, JAVA),
        vec![
            "class Shop [class Shop] 5-17 Public",
            "  method Shop [Shop()] 8-8 Public",
            "  method open [open(String who)] 10-10 Protected",
            "  method close [close()] 12-12 Public",
            "  class Till [class Till] 14-16 Private",
            "    method ring [ring()] 15-15 Private",
            "interface Seller [interface Seller] 19-19 Public",
            "enum Day [enum Day] 21-21 Public",
        ]
    );
    let tree = parse_source(Grammar::Java, JAVA).unwrap();
    let exports = extract_all_exports(&Java, &tree);
    let got: Vec<(String, SymbolKind)> = exports.iter().map(|e| (e.name.clone(), e.kind)).collect();
    assert_eq!(
        got,
        vec![
            ("Shop".to_string(), SymbolKind::Class),
            ("close".to_string(), SymbolKind::Method),
            ("Seller".to_string(), SymbolKind::Interface),
            ("Day".to_string(), SymbolKind::Enum),
        ]
    );
    let class = find(&tree, "class_declaration").unwrap();
    assert!(Java.is_public(class));
    assert_eq!(Java.get_visibility(class), Visibility::Public);
    assert!(extract_all_imports(&Java, &tree).is_empty());
}

const JS: &str = "import def, { a, b as c } from './mod';\nimport * as ns from \"lib\";\nimport 'side';\n\nexport function run(x, y) { go(x); }\nexport class Box {\n  size() { return this.n; }\n}\nexport const one = 1, two = 2;\nfunction* gen() {}\nclass Hidden {}\n";

#[test]
fn javascript_symbols_imports_exports() {
    assert_eq!(
        outline_of(&JavaScript, Grammar::JavaScript, JS),
        vec![
            "function run [function run(x, y)] 5-5 Public",
            "class Box [class Box] 6-8 Public",
            "  method size [size()] 7-7 Public",
            "function gen [function gen()] 10-10 Public",
            "class Hidden [class Hidden] 11-11 Public",
        ]
    );
    let tree = parse_source(Grammar::JavaScript, JS).unwrap();
    let imports = extract_all_imports(&JavaScript, &tree);
    let got: Vec<(String, Vec<String>, bool, usize)> =
        imports.iter().map(|i| (i.module.clone(), i.names.clone(), i.is_relative, i.line)).collect();
    assert_eq!(
        got,
        vec![
            ("./mod".to_string(), vec!["def".to_string(), "a".to_string(), "b".to_string()], true, 1),
            // the grammar gives the name of a namespace import no field: it binds nothing here
            ("lib".to_string(), vec![], false, 2),
            ("side".to_string(), vec![], false, 3),
        ]
    );
    let exports = extract_all_exports(&JavaScript, &tree);
    let got: Vec<(String, SymbolKind, usize)> =
        exports.iter().map(|e| (e.name.clone(), e.kind, e.line)).collect();
    assert_eq!(
        got,
        vec![
            ("run".to_string(), SymbolKind::Function, 5),
            ("Box".to_string(), SymbolKind::Class, 6),
            ("one".to_string(), SymbolKind::Variable, 9),
            ("two".to_string(), SymbolKind::Variable, 9),
        ]
    );
    let calls = extract_calls(&JavaScript, &tree);
    assert_eq!(calls.len(), 1);
    assert_eq!(calls[0].callee, "go");
    assert_eq!(calls[0].caller.as_deref(), Some("run"));
    let clause = find(&tree, "import_clause").unwrap();
    let mut names = vec!["kept".to_string()];
    JavaScript::collect_import_names(clause, &mut names);
    assert_eq!(names, vec!["kept", "def", "a", "b"]);
    let func = find(&tree, "function_declaration").unwrap();
    assert!(ecmascript::extract_imports(func).is_empty());
    assert!(ecmascript::extract_public_symbols(func).is_empty());
    assert!(ecmascript::extract_type(func, "run").is_none());
    assert_eq!(ecmascript::extract_function(func, true, "run").kind, SymbolKind::Method);
    assert_eq!(ecmascript::extract_container(func, "X").signature, "class X");
}

const TS: &str = "interface Shape { area(): number }\ntype Id = string;\nenum Color { Red }\nclass Box {\n  size(): number { return 1; }\n}\nfunction run(x: number): void {}\n";

#[test]
fn typescript_symbols() {
    let want = vec![
        "interface Shape [interface Shape] 1-1 Public",
        "type Id [type Id] 2-2 Public",
        "enum Color [enum Color] 3-3 Public",
        "class Box [class Box] 4-6 Public",
        "  method size [function size()] 5-5 Public",
        "function run [function run(x: number)] 7-7 Public",
    ];
    assert_eq!(outline_of(&TypeScript, Grammar::TypeScript, TS), want);
    assert_eq!(outline_of(&Tsx, Grammar::Tsx, TS), want);
    let tree = parse_source(Grammar::TypeScript, TS).unwrap();
    assert!(extract_all_imports(&TypeScript, &tree).is_empty());
    assert!(extract_all_exports(&TypeScript, &tree).is_empty());
}

const CPP: &str = "#include <vector>\n\nclass Box {\npublic:\n  int size() { return n; }\n};\n\nstruct Pt { int x; };\n\nint main(int argc, char** argv) {\n  return run(argc);\n}\n";

#[test]
fn cpp_symbols() {
    assert_eq!(
        outline_of(&CppSupport, Grammar::Cpp, CPP),
        vec![
            "class Box [class Box] 3-6 Public",
            "  method size [size] 5-5 Public",
            "struct Pt [struct Pt] 8-8 Public",
            "function main [main] 10-12 Public",
        ]
    );
    let tree = parse_source(Grammar::Cpp, CPP).unwrap();
    let calls = extract_calls(&CppSupport, &tree);
    assert_eq!(calls.len(), 1);
    assert_eq!((calls[0].callee.as_str(), calls[0].caller.as_deref(), calls[0].line), ("run", Some("main"), 11));
    let def = find(&tree, "function_definition").unwrap();
    assert_eq!(moss::languages::cpp::find_identifier(def).unwrap(), "size");
}

const PYTHON: &str = "import os, sys as system\nfrom . import sibling\nfrom pkg.mod import a, b as c\nfrom lib import *\n\nclass Greeter:\n    def hello(self, name):\n        def inner():\n            pass\n        print(name)\n\n    def __init__(self):\n        pass\n\n    def _bye(self):\n        pass\n\nasync def main():\n    await run()\n\ndef _private():\n    pass\n";

#[test]
fn python_symbols_imports_exports_calls() {
    assert_eq!(
        outline_of(&Python, Grammar::Python, PYTHON),
        vec![
            "class Greeter [class Greeter] 6-16 Public",
            "  method hello [def hello(self, name)] 7-10 Public",
            "    function inner [def inner()] 8-9 Public",
            "  method __init__ [def __init__(self)] 12-13 Public",
            "  method _bye [def _bye(self)] 15-16 Private",
            "function main [def main()] 18-19 Public",
            "function _private [def _private()] 21-22 Private",
        ]
    );
    let tree = parse_source(Grammar::Python, PYTHON).unwrap();
    let imports = extract_all_imports(&Python, &tree);
    let got: Vec<(String, Vec<String>, Option<String>, bool, bool, usize)> = imports
        .iter()
        .map(|i| (i.module.clone(), i.names.clone(), i.alias.clone(), i.is_wildcard, i.is_relative, i.line))
        .collect();
    assert_eq!(
        got,
        vec![
            ("os".to_string(), vec![], None, false, false, 1),
            ("sys".to_string(), vec![], Some("system".to_string()), false, false, 1),
            (".".to_string(), vec!["sibling".to_string()], None, false, true, 2),
            ("pkg.mod".to_string(), vec!["a".to_string(), "b".to_string()], None, false, false, 3),
            ("lib".to_string(), vec![], None, true, false, 4),
        ]
    );
    let exports = extract_all_exports(&Python, &tree);
    let got: Vec<(String, SymbolKind)> = exports.iter().map(|e| (e.name.clone(), e.kind)).collect();
    assert_eq!(
        got,
        vec![
            ("Greeter".to_string(), SymbolKind::Class),
            ("hello".to_string(), SymbolKind::Function),
            ("inner".to_string(), SymbolKind::Function),
            ("__init__".to_string(), SymbolKind::Function),
            ("main".to_string(), SymbolKind::Function),
        ]
    );
    let calls = extract_calls(&Python, &tree);
    let got: Vec<(Option<String>, String, usize)> =
        calls.iter().map(|c| (c.caller.clone(), c.callee.clone(), c.line)).collect();
    assert_eq!(
        got,
        vec![
            (Some("hello".to_string()), "print".to_string(), 10),
            (Some("main".to_string()), "run".to_string(), 19),
        ]
    );
}

const RUST: &str = "use std::fmt;\nuse crate::a::*;\n\npub struct Point { x: i32 }\n\nimpl Point {\n    pub fn new(x: i32) -> Point { make(x) }\n    fn hidden(&self) {}\n}\n\npub trait Shape {\n    fn area(&self) -> f64;\n}\n\nenum Kind { A }\ntype Id = u32;\n\nfn free() {}\n";

#[test]
fn rust_symbols_imports_exports() {
    assert_eq!(
        outline_of(&Rust, Grammar::Rust, RUST),
        vec![
            "struct Point [struct Point] 4-4 Public",
            "class Point [impl Point] 6-9 Public",
            "  method new [fn new(x: i32)] 7-7 Public",
            "  method hidden [fn hidden(&self)] 8-8 Private",
            "trait Shape [trait Shape] 11-13 Public",
            "enum Kind [enum Kind] 15-15 Private",
            "type Id [type Id] 16-16 Private",
            "function free [fn free()] 18-18 Private",
        ]
    );
    let tree = parse_source(Grammar::Rust, RUST).unwrap();
    let imports = extract_all_imports(&Rust, &tree);
    let got: Vec<(String, bool, bool, usize)> =
        imports.iter().map(|i| (i.module.clone(), i.is_wildcard, i.is_relative, i.line)).collect();
    assert_eq!(
        got,
        vec![
            ("std::fmt".to_string(), false, false, 1),
            ("crate::a::*".to_string(), true, true, 2),
        ]
    );
    let exports = extract_all_exports(&Rust, &tree);
    let got: Vec<(String, SymbolKind)> = exports.iter().map(|e| (e.name.clone(), e.kind)).collect();
    assert_eq!(
        got,
        vec![
            ("Point".to_string(), SymbolKind::Struct),
            ("new".to_string(), SymbolKind::Function),
            ("Shape".to_string(), SymbolKind::Trait),
        ]
    );
}

#[test]
fn data_languages() {
    let tree = parse_source(Grammar::Json, "{\"name\": \"x\", \"deps\": {\"a\": 1}}").unwrap();
    let pair = find(&tree, "pair").unwrap();
    let sym = Json.extract_container(pair).unwrap();
    assert_eq!((sym.name.as_str(), sym.kind, sym.signature.as_str()), ("name", SymbolKind::Variable, "name"));
    assert!(Json.extract_container(&tree).is_none());
    assert!(Json.extract_function(pair, false).is_none());
    assert!(extract_symbols(&Json, &tree).is_empty());

    let tree = parse_source(Grammar::Yaml, "name: x\nlist:\n  - a\n").unwrap();
    let pair = find(&tree, "block_mapping_pair").unwrap();
    let sym = Yaml.extract_container(pair).unwrap();
    assert_eq!(sym.name, "name");
    assert_eq!(sym.start_line, 1);

    let tree = parse_source(Grammar::Toml, "[package]\nname = \"x\"\n\n[[bin]]\nname = \"y\"\n").unwrap();
    assert_eq!(
        {
            let mut out = Vec::new();
            outline(&extract_symbols(&Toml, &tree), 0, &mut out);
            out
        },
        vec!["module package [[package]] 1-4 Public", "module bin [[bin]] 4-6 Public"]
    );

    let tree = parse_source(Grammar::Html, "<p>hi</p>").unwrap();
    assert!(extract_symbols(&Html, &tree).is_empty());
    let tree = parse_source(Grammar::Css, "a { color: red }").unwrap();
    assert!(extract_symbols(&CssSupport, &tree).is_empty());
    assert!(CssSupport.is_public(&tree));
    assert!(CssSupport.extract_type(&tree).is_none());
}

#[test]
fn markdown_headings() {
    let tree = parse_source(Grammar::Markdown, "# Title\n\ntext\n\n## Sub  \n\nmore\n").unwrap();
    let mut out = Vec::new();
    outline(&extract_symbols(&Markdown, &tree), 0, &mut out);
    assert_eq!(
        out,
        // the kind of a marker ends in no digit, so that every heading has level 1
        vec!["heading Title [# Title] 1-2 Public", "heading Sub [# Sub] 5-6 Public"]
    );
    assert_eq!(moss::languages::markdown::number_signs(3), vec!['#', '#', '#']);
}

#[test]
fn scala_and_vue_read_nodes_by_hand() {
    // no grammar for these two here: the nodes are written out
    let leaf = |kind: &str, field: Option<&str>, text: &str| SyntaxNode {
        kind: kind.to_string(),
        field: field.map(|f| f.to_string()),
        named: true,
        text: text.to_string(),
        start_line: 2,
        start_column: 0,
        end_line: 3,
        children: vec![],
    };
    let mut def = leaf("function_definition", None, "def area(r: Double): Double = r");
    def.children = vec![
        leaf("identifier", Some("name"), "area"),
        leaf("parameters", Some("parameters"), "(r: Double)"),
        leaf("type_identifier", Some("return_type"), "Double"),
    ];
    let sym = ScalaSupport.extract_function(&def, true).unwrap();
    assert_eq!(sym.signature, "def area(r: Double): Double");
    assert_eq!(sym.kind, SymbolKind::Method);
    assert_eq!((sym.start_line, sym.end_line), (2, 3));
    let mut object = leaf("object_definition", None, "object Main");
    object.children = vec![leaf("identifier", Some("name"), "Main"), def];
    let sym = ScalaSupport.extract_container(&object).unwrap();
    assert_eq!((sym.kind, sym.signature.as_str()), (SymbolKind::Module, "object Main"));
    let tree = extract_symbols(&ScalaSupport, &object);
    assert_eq!(tree.len(), 1);
    assert_eq!(tree[0].children.len(), 1);
    assert_eq!(tree[0].children[0].name, "area");
    let mut f = leaf("function_declaration", None, "function go() {}");
    f.children = vec![leaf("identifier", Some("name"), "go")];
    let sym = Vue.extract_function(&f, true).unwrap();
    assert_eq!((sym.kind, sym.signature.as_str()), (SymbolKind::Function, "function go"));
    assert!(Vue.extract_function(&leaf("function_declaration", None, ""), false).is_none());
}

#[test]
fn callee_is_the_last_name() {
    assert_eq!(callee_name("obj.method"), "method");
    assert_eq!(callee_name("a::b::c"), "c");
    assert_eq!(callee_name("a::b.c"), "c");
    assert_eq!(callee_name("plain"), "plain");
    assert_eq!(callee_name("a:::b"), ":b");
    assert_eq!(callee_name(""), "");
}
