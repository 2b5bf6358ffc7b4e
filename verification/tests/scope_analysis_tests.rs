use moss::scope_analysis::{build_python_scope, build_rust_scope, ScopeAnalyzer};
use moss::scopes::{BindingKind, Scope, ScopeKind};
use moss::syntax::{parse_source, Grammar};

fn outline(scope: &Scope, depth: usize, out: &mut Vec<String>) {
    let names: Vec<String> = scope
        .bindings
        .iter()
        .map(|b| format!("{}:{}@{}", b.kind.as_str(), b.name, b.line))
        .collect();
    out.push(format!(
        "{}{} {} {}-{} [{}]",
        "  ".repeat(depth),
        scope.kind.as_str(),
        scope.name.as_deref().unwrap_or("-"),
        scope.start_line,
        scope.end_line,
        names.join(" ")
    ));
    for child in &scope.children {
        outline(child, depth + 1, out);
    }
}

fn scopes_of(path: &str, content: &str) -> Vec<String> {
    let mut analyzer = ScopeAnalyzer::new();
    let result = analyzer.analyze(path, content);
    assert_eq!(result.file_path, path);
    let mut out = Vec::new();
    outline(&result.root, 0, &mut out);
    out
}

const PY: &str = "import os\nimport a.b as c\nfrom m import x as y, z\n\nclass K:\n    field: int = 1\n\n    def method(self, a, b=2, *args, **kw):\n        total = a\n        for i, (j, k) in pairs:\n            inner = i\n        with open(p) as f, lock:\n            pass\n        try:\n            pass\n        except E as err:\n            pass\n        return [q for q in a]\n\ndef top(n: int):\n    g = lambda u, v: u\n    n += 1\n";

#[test]
fn python_scopes() {
    // the grammar gives `as` targets of `with` and `except`, and the names of typed
    // parameters, no field: they bind nothing here; what stands right of an
    // assignment is not looked into
    assert_eq!(
        scopes_of("a.py", PY),
        vec![
            "module - 1-23 [import:os@1 import:c@2 import:m@3 import:y@3 import:z@3 class:K@5 function:top@20]",
            "  class K 5-18 [variable:field@6 function:method@8]",
            "    method method 8-18 [variable:total@9 for:i@10 for:j@10 for:k@10 parameter:self@8 parameter:a@8 parameter:b@8 parameter:args@8 parameter:kw@8]",
            "      loop - 11-11 [variable:inner@11]",
            "      comprehension - 18-18 [for:q@18]",
            "  function top 20-22 [variable:g@21 variable:n@22]",
        ]
    );
}

const RS: &str = "use std::fmt;\nuse a::{b, c as d, e::f};\nuse g as h;\n\nstruct S { x: i32 }\nenum E { A }\n\nimpl S {\n    fn new(&self, (a, b): (i32, i32), _: u8) -> S {\n        let Point { x, y: py } = p;\n        let mut m = 1;\n        let _ = 2;\n        for i in 0..3 {\n            let inner = i;\n        }\n        {\n            let deep = 1;\n        }\n        S { x }\n    }\n}\n\nfn free() {}\n";

#[test]
fn rust_scopes() {
    // a list of paths in braces is no direct part of a `use` declaration in this
    // grammar, and a field written without a pattern is no identifier: neither binds
    assert_eq!(
        scopes_of("a.rs", RS),
        vec![
            "module - 1-24 [import:fmt@1 import:h@3 class:S@5 class:E@6 function:free@23]",
            "  impl S 8-21 [function:new@9]",
            "    method new 9-20 [parameter:self@9 variable:a@9 variable:b@9]",
            "      block - 9-20 [variable:py@10 variable:m@11 variable:i@13]",
            "        loop - 13-15 [variable:inner@14]",
            "        block - 16-18 [variable:deep@17]",
            "  function free 23-23 []",
        ]
    );
}

#[test]
fn files_that_are_not_parsed_have_one_scope() {
    assert_eq!(scopes_of("notes.txt", "a\nb\nc\n"), vec!["module - 1-3 []"]);
    assert_eq!(scopes_of("empty", ""), vec!["module - 1-0 []"]);
}

#[test]
fn scopes_answer_queries() {
    let mut analyzer = ScopeAnalyzer::new();
    let result = analyzer.analyze("a.py", PY);
    let at_11: Vec<&str> = result.bindings_at_line(11).into_iter().map(|b| b.name.as_str()).collect();
    assert!(at_11.contains(&"inner"));
    assert!(at_11.contains(&"total"));
    assert!(!at_11.contains(&"top"));
    assert_eq!(result.find_definition("a", 12).unwrap().kind, BindingKind::Parameter);
    assert!(result.find_definition("g", 20).is_none());
    assert_eq!(result.find_definition("g", 21).unwrap().kind, BindingKind::Variable);
    assert!(result.format().starts_with("# Scopes in a.py\n\nmodule <anonymous> (lines 1-23)"));
}

#[test]
fn scopes_of_a_subtree() {
    let tree = parse_source(Grammar::Python, "def f(a):\n    b = a\n").unwrap();
    let scope = build_python_scope(&tree, ScopeKind::Module, Some("m".to_string()));
    assert_eq!(scope.name.as_deref(), Some("m"));
    assert_eq!(scope.children.len(), 1);
    assert_eq!(scope.children[0].kind, ScopeKind::Function);
    let tree = parse_source(Grammar::Rust, "fn f(a: u8) { let b = a; }").unwrap();
    let scope = build_rust_scope(&tree, ScopeKind::Impl, None);
    assert_eq!(scope.children[0].kind, ScopeKind::Method);
}
