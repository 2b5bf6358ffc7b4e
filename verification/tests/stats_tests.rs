use moss::call_graph::{CallGraph, FileFacts, StoredSymbol};
use moss::ecosystems::{
    available_ecosystems, find_ecosystem_by_name, print_human, Dependency, Ecosystem, Feature,
    PackageInfo,
};
use moss::file_index::IndexedFile;
use moss::inventory_stats::{
    count_entries, extension_counts, extension_label, files_with_symbols, list_files,
    numbered_line, search_limit,
};
use moss::languages::{Call, SymbolKind};
use moss::packages::PackageIndex;
use moss::path_resolve::{score, MAX_QUERY_LEN};
use moss::version::Version;

fn entry(path: &str, is_dir: bool) -> IndexedFile {
    IndexedFile { path: path.to_string(), is_dir, mtime: 0 }
}

#[test]
fn counts_and_listings() {
    let files = vec![entry("src", true), entry("src/a.rs", false), entry("src/b.rs", false), entry("README", false)];
    assert_eq!(count_entries(&files), (3, 1));
    assert_eq!(count_entries(&vec![]), (0, 0));
    assert_eq!(list_files(&files, "src", 10), vec!["src/a.rs", "src/b.rs"]);
    assert_eq!(list_files(&files, "src", 1), vec!["src/a.rs"]);
    assert_eq!(list_files(&files, "", 2), vec!["src/a.rs", "src/b.rs"]);
    assert!(list_files(&files, "", 0).is_empty());
    assert!(list_files(&files, "docs", 10).is_empty());
    assert_eq!(search_limit(".rs", 20), 500);
    assert_eq!(search_limit(".rs", 30), 30);
    assert_eq!(search_limit("rs", 20), 20);
}

#[test]
fn extensions_are_counted_largest_first() {
    assert_eq!(extension_label("src/a.rs", false), "rs");
    assert_eq!(extension_label("src/a.rs", true), "rs");
    assert_eq!(extension_label("bin/tool", true), "(binary)");
    assert_eq!(extension_label("Makefile", false), "(no ext)");
    assert_eq!(extension_label(".gitignore", false), "(no ext)");
    let labels: Vec<String> = ["py", "rs", "md", "rs", "py", "rs", "toml"].iter().map(|s| s.to_string()).collect();
    assert_eq!(
        extension_counts(&labels),
        vec![("rs".to_string(), 3), ("py".to_string(), 2), ("md".to_string(), 1), ("toml".to_string(), 1)]
    );
    assert!(extension_counts(&vec![]).is_empty());
}

#[test]
fn package_as_text() {
    let info = PackageInfo {
        name: "serde".to_string(),
        version: "1.0.0".to_string(),
        description: Some("A framework".to_string()),
        license: Some("MIT".to_string()),
        homepage: None,
        repository: Some("https://example.org/serde".to_string()),
        features: vec![
            Feature { name: "std".to_string(), description: None, dependencies: vec![] },
            Feature {
                name: "default".to_string(),
                description: None,
                dependencies: vec!["std".to_string(), "alloc".to_string()],
            },
        ],
        dependencies: vec![
            Dependency { name: "a".to_string(), version_req: Some("^1".to_string()), optional: false },
            Dependency { name: "b".to_string(), version_req: None, optional: true },
        ],
    };
    assert_eq!(
        print_human(&info, "cargo"),
        vec![
            "serde 1.0.0 (cargo)",
            "A framework",
            "",
            "license: MIT",
            "repository: https://example.org/serde",
            "",
            "features:",
            "  std",
            "  default = [std, alloc]",
            "",
            "dependencies:",
            "  a ^1",
            "  b * (optional)",
        ]
    );
    let bare = PackageInfo {
        name: "x".to_string(),
        version: "0.1".to_string(),
        description: None,
        license: None,
        homepage: None,
        repository: None,
        features: vec![],
        dependencies: vec![],
    };
    assert_eq!(print_human(&bare, "cargo"), vec!["x 0.1 (cargo)", ""]);
    assert_eq!(find_ecosystem_by_name("cargo"), Some(Ecosystem::Cargo));
    assert_eq!(find_ecosystem_by_name("npm"), None);
    assert_eq!(available_ecosystems(), vec!["cargo"]);
    assert_eq!(Ecosystem::Cargo.name(), "cargo");
}

#[test]
fn kinds_from_words() {
    for kind in [
        SymbolKind::Function,
        SymbolKind::Method,
        SymbolKind::Class,
        SymbolKind::Struct,
        SymbolKind::Interface,
        SymbolKind::Enum,
        SymbolKind::Type,
        SymbolKind::Variable,
        SymbolKind::Constant,
        SymbolKind::Module,
        SymbolKind::Trait,
        SymbolKind::Heading,
    ] {
        assert_eq!(SymbolKind::from_word(kind.as_str()), Some(kind));
    }
    assert_eq!(SymbolKind::from_word("Function"), None);
    assert_eq!(SymbolKind::from_word(""), None);
}

fn facts(path: &str) -> FileFacts {
    FileFacts {
        path: path.to_string(),
        mtime: 7,
        symbols: vec![StoredSymbol {
            name: "f".to_string(),
            kind: SymbolKind::Function,
            start_line: 1,
            end_line: 2,
            parent: None,
        }],
        calls: vec![Call { caller: Some("f".to_string()), callee: "g".to_string(), line: 2 }],
        imports: vec![],
    }
}

#[test]
fn stores_load_what_was_saved() {
    let graph = CallGraph::from_facts(vec![facts("a.py"), facts("b.py")]).unwrap();
    assert_eq!(graph.file_count(), 2);
    assert_eq!(graph.facts_at(1).path, "b.py");
    assert_eq!(graph.call_graph_stats(), (2, 2, 0));
    assert_eq!(graph.find_callers("g").unwrap().len(), 2);
    assert!(!graph.needs_update("a.py", 7));
    assert!(graph.needs_update("a.py", 8));
    assert!(CallGraph::from_facts(vec![facts("a.py"), facts("a.py")]).is_none());
    assert!(CallGraph::from_facts(vec![]).unwrap().is_empty());
    let mut index = PackageIndex::open_in_memory().unwrap();
    let id = index.insert_package("go", "a", "/a", Version { major: 1, minor: 0 }, None).unwrap();
    index.insert_symbol(id, "s", "function", "", 1).unwrap();
    index.clear().unwrap();
    assert_eq!((index.package_count(), index.symbol_count()), (0, 0));
}

#[test]
fn scores_are_given_within_the_matchers_limits() {
    assert!(score("abc", "a_b_c").is_some());
    assert_eq!(score("abc", "xyz"), None);
    assert_eq!(score("", "anything"), Some(0));
    let long = "a".repeat(MAX_QUERY_LEN + 1);
    assert_eq!(score(&long, &long), None);
    let fits = "a".repeat(300);
    assert!(score(&fits, &fits).is_some());
    assert_eq!(MAX_QUERY_LEN, 2048);
    // the longest query, matched character by character behind one other
    let longest = "a".repeat(MAX_QUERY_LEN);
    let behind = format!("b{}", longest);
    assert!(score(&longest, &behind).is_some());
    let spaced = format!("b {}", "a ".repeat(MAX_QUERY_LEN / 2));
    assert!(score(&longest, &spaced).is_none());
    let words = "ab ".repeat(MAX_QUERY_LEN / 3);
    assert!(score(&words, "ab").is_some());
    let too_long = format!("b{}", "a".repeat(4000));
    assert_eq!(score(&"a".repeat(4000), &too_long), None);
}

#[test]
fn long_queries_resolve_without_a_score() {
    let query = "a".repeat(4000);
    let entries = vec![entry(&format!("b{}", query), false)];
    assert!(moss::path_resolve::resolve(&query, &entries).is_empty());
}

#[test]
fn files_that_can_hold_symbols() {
    let files = vec![
        entry("src", true),
        entry("src/a.rs", false),
        entry("site/index.html", false),
        entry("site/style.css", false),
        entry("notes.txt", false),
        entry("lib.py", true),
        entry("tool/run.py", false),
    ];
    assert_eq!(files_with_symbols(&files), vec!["src/a.rs", "tool/run.py"]);
    assert!(files_with_symbols(&vec![]).is_empty());
}

#[test]
fn lines_with_their_numbers() {
    assert_eq!(numbered_line(1, "fn main() {"), "   1 fn main() {");
    assert_eq!(numbered_line(42, ""), "  42 ");
    assert_eq!(numbered_line(9999, "x"), "9999 x");
    assert_eq!(numbered_line(12345, "x"), "12345 x");
    assert_eq!(numbered_line(0, "x"), "   0 x");
}
