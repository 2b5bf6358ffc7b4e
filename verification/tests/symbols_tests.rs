use moss::symbols::{
    grammar_for_path, lines_between, python_calls, python_symbols, rust_calls, rust_symbols,
    SymbolKind, SymbolParser,
};
use moss::syntax::{parse_source, Grammar, SyntaxNode};

const PY: &str = "import os\n\nclass Greeter:\n    def hello(self, name):\n        print(name)\n\n    def _bye(self):\n        pass\n\ndef main():\n    g = Greeter()\n    g.hello(\"x\")\n";

const RS: &str = "struct Point { x: i32 }\n\nimpl Point {\n    fn new() -> Point {\n        Point { x: helper::make(1) }\n    }\n}\n\nfn free() {\n    let p = Point::new();\n    p.show();\n}\n\ntrait Shape {}\nenum Kind { A }\n";

#[test]
fn parse_gives_a_tree_with_lines_from_one() {
    let tree = parse_source(Grammar::Python, PY).unwrap();
    assert_eq!(tree.kind, "module");
    assert_eq!(tree.start_line, 1);
    assert!(tree.end_line >= 12);
    assert_eq!(tree.text, PY);
    assert!(!tree.children.is_empty());
    assert_eq!(tree.children[0].kind, "import_statement");
    assert_eq!(tree.children[0].text, "import os");
    let class = &tree.children[1];
    assert_eq!(class.kind, "class_definition");
    assert_eq!(class.start_line, 3);
    assert_eq!(class.end_line, 8);
    let name = class.child_by_field_name("name").unwrap();
    assert_eq!(name.text, "Greeter");
    assert_eq!(name.kind, "identifier");
    assert!(name.named);
    assert!(class.child_by_field_name("nothing").is_none());
    assert!(class.is_kind("class_definition"));
    assert!(class.child_of_kind("block", "block").is_some());
}

fn count(node: &SyntaxNode) -> usize {
    1 + node.children.iter().map(count).sum::<usize>()
}

#[test]
fn parse_keeps_every_node() {
    let tree = parse_source(Grammar::Python, "x = 1\n").unwrap();
    // module, expression_statement, assignment, identifier, =, integer
    assert_eq!(count(&tree), 6);
    let stmt = &tree.children[0];
    let assign = &stmt.children[0];
    assert_eq!(assign.kind, "assignment");
    assert_eq!(assign.children.len(), 3);
    assert_eq!(assign.children[0].field.as_deref(), Some("left"));
    assert_eq!(assign.children[1].kind, "=");
    assert!(!assign.children[1].named);
    assert_eq!(assign.children[2].field.as_deref(), Some("right"));
    assert_eq!(assign.children[2].text, "1");
    assert_eq!(assign.children[2].start_column, 4);
}

#[test]
fn python_symbols_in_document_order() {
    let tree = parse_source(Grammar::Python, PY).unwrap();
    let symbols = python_symbols(&tree);
    let got: Vec<(String, SymbolKind, u32, u32, Option<String>)> = symbols
        .into_iter()
        .map(|s| (s.name, s.kind, s.start_line, s.end_line, s.parent))
        .collect();
    assert_eq!(
        got,
        vec![
            ("Greeter".to_string(), SymbolKind::Class, 3, 8, None),
            ("hello".to_string(), SymbolKind::Method, 4, 5, Some("Greeter".to_string())),
            ("_bye".to_string(), SymbolKind::Method, 7, 8, Some("Greeter".to_string())),
            ("main".to_string(), SymbolKind::Function, 10, 12, None),
        ]
    );
}

#[test]
fn rust_symbols_in_document_order() {
    let tree = parse_source(Grammar::Rust, RS).unwrap();
    let symbols = rust_symbols(&tree);
    let got: Vec<(String, SymbolKind, u32, Option<String>)> =
        symbols.into_iter().map(|s| (s.name, s.kind, s.start_line, s.parent)).collect();
    assert_eq!(
        got,
        vec![
            ("Point".to_string(), SymbolKind::Class, 1, None),
            ("new".to_string(), SymbolKind::Method, 4, Some("Point".to_string())),
            ("free".to_string(), SymbolKind::Function, 9, None),
            ("Shape".to_string(), SymbolKind::Class, 14, None),
            ("Kind".to_string(), SymbolKind::Class, 15, None),
        ]
    );
}

#[test]
fn calls_name_the_last_segment() {
    let tree = parse_source(Grammar::Python, PY).unwrap();
    assert_eq!(
        python_calls(&tree),
        vec![("print".to_string(), 4), ("Greeter".to_string(), 10), ("hello".to_string(), 11)]
    );
    let tree = parse_source(Grammar::Rust, RS).unwrap();
    assert_eq!(
        rust_calls(&tree),
        vec![("make".to_string(), 4), ("new".to_string(), 9), ("show".to_string(), 10)]
    );
}

#[test]
fn symbol_parser_by_extension() {
    let mut parser = SymbolParser::new();
    assert_eq!(parser.parse_file("src/a.py", PY).len(), 4);
    assert_eq!(parser.parse_file("src/a.rs", RS).len(), 5);
    assert!(parser.parse_file("src/a.txt", PY).is_empty());
    assert!(parser.parse_file("Makefile", PY).is_empty());
    assert_eq!(grammar_for_path("x/y.py"), Some(Grammar::Python));
    assert_eq!(grammar_for_path("x/y.rs"), Some(Grammar::Rust));
    assert_eq!(grammar_for_path("x/.rs"), None);
    let found = parser.find_symbol("a.py", PY, "hello").unwrap();
    assert_eq!(found.kind, SymbolKind::Method);
    assert_eq!(found.kind.as_str(), "method");
    assert!(parser.find_symbol("a.py", PY, "nope").is_none());
    assert_eq!(SymbolKind::Function.as_str(), "function");
    assert_eq!(SymbolKind::Class.as_str(), "class");
}

#[test]
fn symbol_source_is_its_lines() {
    let mut parser = SymbolParser::new();
    assert_eq!(
        parser.extract_symbol_source("a.py", PY, "hello"),
        Some("    def hello(self, name):\n        print(name)".to_string())
    );
    assert_eq!(parser.extract_symbol_source("a.py", PY, "nope"), None);
    assert_eq!(lines_between("a\nb\nc\n", 2, 3), "b\nc");
    assert_eq!(lines_between("a\nb\nc", 2, 9), "b\nc");
    assert_eq!(lines_between("a\r\nb\r\n", 1, 2), "a\nb");
    assert_eq!(lines_between("a\nb", 5, 9), "");
}

#[test]
fn calls_in_source_try_python_then_rust() {
    let mut parser = SymbolParser::new();
    assert_eq!(
        parser.find_calls_in_source("def foo():\n    bar()\n"),
        vec![("bar".to_string(), 1)]
    );
    // what reads as Python with calls is taken as Python
    let rust = "fn f() {\n    let v = a::b::make();\n}\n";
    let as_python = python_calls(&parse_source(Grammar::Python, rust).unwrap());
    assert!(!as_python.is_empty());
    assert_eq!(parser.find_calls_in_source(rust), as_python);
    // without a call that Python sees, the source is read as Rust
    let only_rust = "let v = S::<T>::make::<U>;";
    let seen = parser.find_calls_in_source(only_rust);
    let as_python = python_calls(&parse_source(Grammar::Python, only_rust).unwrap());
    let as_rust = rust_calls(&parse_source(Grammar::Rust, only_rust).unwrap());
    assert_eq!(seen, if as_python.is_empty() { as_rust } else { as_python });
    assert!(parser.find_calls_in_source("").is_empty());
}
