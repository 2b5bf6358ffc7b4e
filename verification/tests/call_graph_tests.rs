use moss::call_graph::{extract_file, CallGraph, QueryError, SourceFile};
use moss::languages::SymbolKind;

fn file(path: &str, mtime: i64, content: &str) -> SourceFile {
    SourceFile { path: path.to_string(), mtime, content: content.to_string() }
}

fn project() -> Vec<SourceFile> {
    vec![
        file("src/a.py", 10, "def foo(): bar()"),
        file("src/b.py", 10, "def bar(): pass"),
    ]
}

#[test]
fn scenario_two_python_files() {
    let mut graph = CallGraph::new();
    let (symbols, calls, imports) = graph.refresh_call_graph(&project());
    assert_eq!((symbols, calls, imports), (2, 1, 0));
    let (symbol_count, call_count, _) = graph.call_graph_stats();
    assert!(symbol_count >= 2);
    assert!(call_count >= 1);
    let callers = graph.find_callers("bar").unwrap();
    let got: Vec<(String, Option<String>, usize)> =
        callers.into_iter().map(|c| (c.file, c.symbol, c.line)).collect();
    assert_eq!(got, vec![("src/a.py".to_string(), Some("foo".to_string()), 1)]);
}

#[test]
fn empty_index_is_told_apart_from_no_match() {
    let mut graph = CallGraph::new();
    assert!(graph.is_empty());
    assert_eq!(graph.find_callers("bar").unwrap_err(), QueryError::EmptyIndex);
    assert_eq!(graph.find_symbols("bar", None, false, 10).unwrap_err(), QueryError::EmptyIndex);
    graph.refresh_call_graph(&project());
    assert!(!graph.is_empty());
    assert!(graph.find_callers("nobody").unwrap().is_empty());
    assert!(graph.find_symbols("nobody", None, false, 10).unwrap().is_empty());
}

#[test]
fn refresh_twice_gives_the_same() {
    let mut graph = CallGraph::new();
    let first = graph.refresh_call_graph(&project());
    let stats = graph.call_graph_stats();
    let second = graph.refresh_call_graph(&project());
    assert_eq!(first, second);
    assert_eq!(stats, graph.call_graph_stats());
    assert_eq!(graph.file_count(), 2);
}

#[test]
fn incremental_refresh_reads_changed_files_only() {
    let mut graph = CallGraph::new();
    graph.refresh_call_graph(&project());
    assert!(!graph.needs_update("src/a.py", 10));
    assert!(graph.needs_update("src/a.py", 11));
    assert!(graph.needs_update("src/new.py", 0));
    // a.py is handed over with other content but an old time: it must not be read
    let files = vec![
        file("src/a.py", 10, "def changed(): other()"),
        file("src/b.py", 20, "def bar(): baz()\ndef extra(): pass"),
    ];
    let (symbols, calls, imports) = graph.incremental_call_graph_refresh(&files);
    assert_eq!((symbols, calls, imports), (2, 1, 0));
    let a = graph.find_symbols("foo", None, false, 10).unwrap();
    assert_eq!(a.len(), 1);
    assert_eq!(a[0].file, "src/a.py");
    assert!(graph.find_symbols("changed", None, false, 10).unwrap().is_empty());
    assert_eq!(graph.find_symbols("extra", None, false, 10).unwrap().len(), 1);
    assert_eq!(graph.find_callers("baz").unwrap().len(), 1);
    assert_eq!(graph.find_callers("bar").unwrap().len(), 1);
    assert_eq!(graph.call_graph_stats(), (3, 2, 0));
    // nothing is stale now
    assert_eq!(graph.incremental_call_graph_refresh(&files), (0, 0, 0));
}

#[test]
fn callers_come_by_file_then_line() {
    let mut graph = CallGraph::new();
    let files = vec![
        file("z.py", 1, "def z1():\n    t()\n\ndef z2():\n    t()\n"),
        file("a.py", 1, "def a1():\n    pass\n\ndef a2():\n    x.t()\n    t()\n"),
    ];
    graph.refresh_call_graph(&files);
    let got: Vec<(String, Option<String>, usize)> = graph
        .find_callers("t")
        .unwrap()
        .into_iter()
        .map(|c| (c.file, c.symbol, c.line))
        .collect();
    assert_eq!(
        got,
        vec![
            ("a.py".to_string(), Some("a2".to_string()), 5),
            ("a.py".to_string(), Some("a2".to_string()), 6),
            ("z.py".to_string(), Some("z1".to_string()), 2),
            ("z.py".to_string(), Some("z2".to_string()), 5),
        ]
    );
}

#[test]
fn calls_outside_functions_have_no_caller() {
    let mut graph = CallGraph::new();
    graph.refresh_call_graph(&vec![file("m.py", 1, "setup()\n")]);
    let callers = graph.find_callers("setup").unwrap();
    assert_eq!(callers.len(), 1);
    assert_eq!(callers[0].symbol, None);
    assert_eq!(callers[0].line, 1);
}

#[test]
fn find_symbols_by_kind_fuzzy_and_limit() {
    let mut graph = CallGraph::new();
    let files = vec![
        file("b.py", 1, "class Parser:\n    def parse(self):\n        pass\n\ndef parse_all():\n    pass\n"),
        file("a.py", 1, "def parse():\n    pass\n"),
    ];
    graph.refresh_call_graph(&files);
    let exact = graph.find_symbols("parse", None, false, 10).unwrap();
    let got: Vec<(String, String, SymbolKind, Option<String>)> =
        exact.iter().map(|m| (m.file.clone(), m.name.clone(), m.kind, m.parent.clone())).collect();
    assert_eq!(
        got,
        vec![
            ("a.py".to_string(), "parse".to_string(), SymbolKind::Function, None),
            ("b.py".to_string(), "parse".to_string(), SymbolKind::Method, Some("Parser".to_string())),
        ]
    );
    assert_eq!(exact[0].score, u32::MAX);
    assert_eq!((exact[1].start_line, exact[1].end_line), (2, 3));
    let methods = graph.find_symbols("parse", Some(SymbolKind::Method), false, 10).unwrap();
    assert_eq!(methods.len(), 1);
    assert_eq!(methods[0].file, "b.py");
    let fuzzy = graph.find_symbols("parse", None, true, 10).unwrap();
    assert_eq!(fuzzy.len(), 4);
    // the name itself comes first, whatever the matcher thinks of the others
    assert_eq!(fuzzy[0].name, "parse");
    assert_eq!(fuzzy[1].name, "parse");
    assert!(fuzzy[2].score >= fuzzy[3].score);
    assert!(fuzzy[2].score < u32::MAX);
    let capped = graph.find_symbols("parse", None, true, 1).unwrap();
    assert_eq!(capped.len(), 1);
    assert_eq!(capped[0].file, "a.py");
    assert!(graph.find_symbols("parse", None, true, 0).unwrap().is_empty());
}

#[test]
fn unsupported_and_unparsed_files_are_passed_over() {
    assert!(extract_file("notes.txt", "def foo(): pass").is_none());
    assert!(extract_file("App.vue", "<template/>").is_none());
    assert!(extract_file("x.py", "def foo(): pass").is_some());
    let mut graph = CallGraph::new();
    let n = graph.refresh_call_graph(&vec![file("notes.txt", 1, "def foo(): pass")]);
    assert_eq!(n, (0, 0, 0));
    assert!(graph.is_empty());
}

#[test]
fn replace_and_clear() {
    let mut graph = CallGraph::new();
    let first = extract_file("x.py", "def foo(): bar()").unwrap();
    assert_eq!(graph.replace_file("x.py", 1, first), (1, 1, 0));
    let second = extract_file("x.py", "import os\nclass A:\n    def m(self): pass\n").unwrap();
    assert_eq!(graph.replace_file("x.py", 2, second), (2, 0, 1));
    assert_eq!(graph.file_count(), 1);
    assert_eq!(graph.call_graph_stats(), (2, 0, 1));
    assert!(graph.find_callers("bar").unwrap().is_empty());
    graph.clear();
    assert!(graph.is_empty());
}

#[test]
fn stale_files_that_can_be_read_get_an_entry() {
    let mut graph = CallGraph::new();
    let files = vec![
        file("src/a.py", 5, "def foo(): bar()"),
        file("notes.txt", 5, "def nothing(): pass"),
        file("src/lib.rs", 5, "fn run() { go(); }"),
    ];
    let counts = graph.incremental_call_graph_refresh(&files);
    assert_eq!(counts, (2, 2, 0));
    assert_eq!(graph.file_count(), 2);
    assert_eq!(graph.facts_at(0).path, "src/a.py");
    assert_eq!(graph.facts_at(0).mtime, 5);
    assert_eq!(graph.facts_at(1).path, "src/lib.rs");
    assert_eq!(graph.find_callers("go").unwrap().len(), 1);
}

#[test]
fn of_two_files_with_one_path_the_newer_is_stored() {
    let mut graph = CallGraph::new();
    let files = vec![
        file("src/a.py", 5, "def first(): pass"),
        file("src/a.py", 7, "def second(): pass"),
        file("src/a.py", 6, "def third(): pass"),
    ];
    graph.incremental_call_graph_refresh(&files);
    assert_eq!(graph.file_count(), 1);
    assert_eq!(graph.facts_at(0).mtime, 7);
    assert_eq!(graph.find_symbols("second", None, false, 10).unwrap().len(), 1);
    assert!(graph.find_symbols("first", None, false, 10).unwrap().is_empty());
    assert!(graph.find_symbols("third", None, false, 10).unwrap().is_empty());
}

#[test]
fn reading_a_file_twice_gives_the_same() {
    let source = "def foo():\n    bar()\n\nclass K:\n    def m(self): pass\n";
    let a = extract_file("x.py", source).unwrap();
    let b = extract_file("x.py", source).unwrap();
    assert_eq!(a.symbols.len(), b.symbols.len());
    assert_eq!(a.calls.len(), b.calls.len());
    for (x, y) in a.symbols.iter().zip(b.symbols.iter()) {
        assert_eq!(x.name, y.name);
        assert_eq!(x.start_line, y.start_line);
        assert_eq!(x.end_line, y.end_line);
        assert_eq!(x.children.len(), y.children.len());
    }
    for (x, y) in a.calls.iter().zip(b.calls.iter()) {
        assert_eq!(x.callee, y.callee);
        assert_eq!(x.line, y.line);
    }
}
