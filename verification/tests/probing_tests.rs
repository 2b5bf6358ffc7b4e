use moss::external_packages::{
    find_go_mod_cache, find_go_stdlib, find_python_stdlib, get_go_version, get_python_version,
    python_interpreter,
};
use moss::file_index::{is_binary_file, FileIndex, IndexError, IndexedFile, SCHEMA_VERSION};
use moss::languages::registry::{has_language_support, LanguageId};
use moss::syntax::{Grammar, Parsers};
use moss::text::split_whitespace;

fn dir(path: &str) -> IndexedFile {
    IndexedFile { path: path.to_string(), is_dir: true, mtime: 0 }
}

fn file(path: &str, mtime: i64) -> IndexedFile {
    IndexedFile { path: path.to_string(), is_dir: false, mtime }
}

#[test]
fn versions_from_tool_output() {
    assert_eq!(get_go_version("go version go1.21.0 linux/amd64"), Some("1.21".to_string()));
    assert_eq!(get_go_version("go version go1.22 darwin/arm64\n"), Some("1.22".to_string()));
    assert_eq!(get_go_version("go version devel"), None);
    assert_eq!(get_go_version("go go1 gogo1.2.3"), Some("1.2".to_string()));
    assert_eq!(get_go_version(""), None);
    assert_eq!(get_python_version(" 3.12\n"), "3.12");
    let words: Vec<String> = split_whitespace(&" a\t bc \n d".chars().collect())
        .into_iter()
        .map(|w| w.into_iter().collect())
        .collect();
    assert_eq!(words, vec!["a", "bc", "d"]);
    assert!(split_whitespace(&"  \n ".chars().collect()).is_empty());
}

#[test]
fn interpreters_and_libraries() {
    let e = vec![
        dir("/usr/lib/python3.12"),
        dir("/win/Lib"),
        file("/p/venv/bin/python", 0),
        dir("/goroot/src"),
        dir("/opt/go/src"),
        dir("/home/u/go/pkg/mod"),
        dir("/cache"),
    ];
    assert_eq!(python_interpreter("/p", &e), "/p/venv/bin/python");
    assert_eq!(python_interpreter("/q", &e), "python3");
    assert_eq!(find_python_stdlib("/usr\n3.12\n", &e), Some("/usr/lib/python3.12".to_string()));
    assert_eq!(find_python_stdlib(" /win \n 3.11 \n", &e), Some("/win/Lib".to_string()));
    assert_eq!(find_python_stdlib("/usr\n", &e), None);
    assert_eq!(find_python_stdlib("/none\n3.12\n", &e), None);
    assert_eq!(find_go_stdlib(Some("/goroot"), None, &e), Some("/goroot/src".to_string()));
    assert_eq!(find_go_stdlib(Some("/nope"), Some("/goroot\n"), &e), Some("/goroot/src".to_string()));
    assert_eq!(find_go_stdlib(None, None, &e), Some("/opt/go/src".to_string()));
    assert_eq!(find_go_stdlib(None, None, &vec![]), None);
    assert_eq!(find_go_mod_cache(Some("/cache"), Some("/home/u"), None, &e), Some("/cache".to_string()));
    assert_eq!(find_go_mod_cache(Some("/nope"), Some("/home/u"), None, &e), Some("/home/u/go/pkg/mod".to_string()));
    assert_eq!(find_go_mod_cache(None, None, Some("/home/u"), &e), Some("/home/u/go/pkg/mod".to_string()));
    assert_eq!(find_go_mod_cache(None, Some("/else"), None, &e), None);
}

#[test]
fn binary_files_hold_a_zero_byte_early() {
    assert!(!is_binary_file(&b"plain text".to_vec()));
    assert!(is_binary_file(&vec![1, 2, 0, 3]));
    assert!(!is_binary_file(&vec![]));
    let mut late = vec![1u8; 8192];
    late.push(0);
    assert!(!is_binary_file(&late));
    late[8191] = 0;
    assert!(is_binary_file(&late));
}

#[test]
fn incremental_refresh_counts_what_changed() {
    let mut index = FileIndex::open(SCHEMA_VERSION, 0, vec![]);
    let first = vec![file("a", 1), file("b", 1), file("c", 1)];
    assert_eq!(index.incremental_refresh(first.clone(), 10), Ok(3));
    assert_eq!(index.incremental_refresh(first, 11), Ok(0));
    assert_eq!(index.last_refresh(), 11);
    // b changed, c is gone, d is new
    let second = vec![file("a", 1), file("b", 2), file("d", 1), file("", 9)];
    assert_eq!(index.incremental_refresh(second, 12), Ok(3));
    let paths: Vec<String> = index.all_files().unwrap().into_iter().map(|f| f.path).collect();
    assert_eq!(paths, vec!["a", "b", "d"]);
    assert_eq!(
        index.incremental_refresh(vec![file("x", 1), file("x", 2)], 13),
        Err(IndexError::DuplicatePath)
    );
    assert_eq!(index.count(), Ok(3));
    assert_eq!(index.last_refresh(), 12);
}

#[test]
fn grammars_and_support_by_path() {
    assert_eq!(Grammar::from_path("a/b.PY"), Some(Grammar::Python));
    assert_eq!(Grammar::from_path("a/b.h"), Some(Grammar::C));
    assert_eq!(Grammar::from_path("a/b.rb"), Some(Grammar::Ruby));
    assert_eq!(Grammar::from_path("a/b.zsh"), Some(Grammar::Bash));
    assert_eq!(Grammar::from_path("a/b.toml"), Some(Grammar::Toml));
    assert_eq!(Grammar::from_path("a/b"), None);
    assert_eq!(Grammar::from_path("a/b.vue"), None);
    let mut parsers = Parsers::new();
    let (grammar, tree) = parsers.parse("x.c", "int main() { return 0; }").unwrap();
    assert_eq!(grammar, Grammar::C);
    assert_eq!(tree.kind, "translation_unit");
    let (_, tree) = parsers.parse("x.rb", "def f\nend\n").unwrap();
    assert_eq!(tree.kind, "program");
    let (_, tree) = parsers.parse("x.sh", "echo hi\n").unwrap();
    assert_eq!(tree.kind, "program");
    assert!(parsers.parse("x.txt", "text").is_none());
    assert!(has_language_support("a.py"));
    assert!(has_language_support("a.md"));
    assert!(!has_language_support("a.css"));
    assert!(!has_language_support("a.html"));
    assert!(!has_language_support("a.txt"));
    assert!(LanguageId::Json.has_symbols());
}
