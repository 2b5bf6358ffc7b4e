use moss::file_index::{all_paths_differ, watched_dirs, FileIndex, IndexError, IndexedFile, SCHEMA_VERSION};

fn entry(path: &str, is_dir: bool) -> IndexedFile {
    IndexedFile { path: path.to_string(), is_dir, mtime: 100 }
}

fn walk() -> Vec<IndexedFile> {
    vec![
        entry("", true),
        entry("src", true),
        entry("src/moss", true),
        entry("src/moss/cli.py", false),
        entry("src/moss/dwim.py", false),
    ]
}

#[test]
fn test_index_creation() {
    let mut index = FileIndex::open(SCHEMA_VERSION, 0, vec![]);
    assert!(index.needs_refresh(&vec![]));

    let count = index.refresh(walk(), 1_000).unwrap();
    assert!(count >= 2);
    assert_eq!(count, 4);

    // Should find files by name
    let matches = index.find_by_name("cli.py").unwrap();
    assert_eq!(matches.len(), 1);
    assert!(matches[0].path.ends_with("cli.py"));
}

#[test]
fn test_find_by_stem() {
    let mut index = FileIndex::open(SCHEMA_VERSION, 0, vec![]);
    index
        .refresh(vec![entry("src", true), entry("src/test.py", false), entry("src/test.rs", false)], 5)
        .unwrap();

    let matches = index.find_by_stem("test").unwrap();
    assert_eq!(matches.len(), 2);
}

#[test]
fn refresh_twice_is_the_same() {
    let mut index = FileIndex::open(SCHEMA_VERSION, 0, vec![]);
    let first = index.refresh(walk(), 1_000).unwrap();
    let files_first: Vec<(String, bool, i64)> =
        index.all_files().unwrap().into_iter().map(|f| (f.path, f.is_dir, f.mtime)).collect();
    let second = index.refresh(walk(), 2_000).unwrap();
    let files_second: Vec<(String, bool, i64)> =
        index.all_files().unwrap().into_iter().map(|f| (f.path, f.is_dir, f.mtime)).collect();
    assert_eq!(first, second);
    assert_eq!(files_first, files_second);
    assert_eq!(index.count(), Ok(4));
    assert_eq!(index.last_refresh(), 2_000);
}

#[test]
fn refresh_with_a_path_twice_changes_nothing() {
    let mut index = FileIndex::open(SCHEMA_VERSION, 0, vec![]);
    index.refresh(walk(), 1_000).unwrap();
    let bad = vec![entry("a", false), entry("b", false), entry("a", true)];
    assert_eq!(index.refresh(bad, 2_000), Err(IndexError::DuplicatePath));
    assert_eq!(index.count(), Ok(4));
    assert_eq!(index.last_refresh(), 1_000);
    assert!(!all_paths_differ(&vec![entry("a", false), entry("a", false)]));
    assert!(all_paths_differ(&walk()));
}

#[test]
fn needs_refresh_cases() {
    let stored = vec![entry("src", true)];
    // another schema version drops the entries
    let index = FileIndex::open(SCHEMA_VERSION + 1, 50, stored.clone());
    assert_eq!(index.count(), Ok(0));
    assert!(index.needs_refresh(&vec![]));
    // never refreshed
    let index = FileIndex::open(SCHEMA_VERSION, 0, stored.clone());
    assert!(index.needs_refresh(&vec![]));
    // fresh
    let index = FileIndex::open(SCHEMA_VERSION, 50, stored.clone());
    assert!(!index.needs_refresh(&vec![]));
    assert!(!index.needs_refresh(&vec![10, 50]));
    // a watched directory changed later
    assert!(index.needs_refresh(&vec![10, 51]));
    assert_eq!(watched_dirs(), vec!["src", "lib", "crates"]);
}

#[test]
fn find_by_name_and_stem_exactly() {
    let mut index = FileIndex::open(SCHEMA_VERSION, 0, vec![]);
    index
        .refresh(
            vec![
                entry("cli.py", false),
                entry("src/cli.py", false),
                entry("src/mycli.py", false),
                entry("src/cli.pyc", false),
                entry("src/cli", true),
                entry("src/cli/main.py", false),
            ],
            1,
        )
        .unwrap();
    let names: Vec<String> = index.find_by_name("cli.py").unwrap().into_iter().map(|f| f.path).collect();
    assert_eq!(names, vec!["cli.py", "src/cli.py"]);
    let names: Vec<String> = index.find_by_name("src/cli.py").unwrap().into_iter().map(|f| f.path).collect();
    assert_eq!(names, vec!["src/cli.py"]);
    let stems: Vec<String> = index.find_by_stem("cli").unwrap().into_iter().map(|f| f.path).collect();
    assert_eq!(stems, vec!["cli.py", "src/cli.py", "src/cli.pyc", "src/cli", "src/cli/main.py"]);
    assert!(index.find_by_name("nope").unwrap().is_empty());
}

#[test]
fn a_file_under_the_root_is_found_by_its_stem() {
    let mut index = FileIndex::open(SCHEMA_VERSION, 0, vec![]);
    index.refresh(vec![entry("test.py", false)], 1).unwrap();
    let found: Vec<String> = index.find_by_stem("test").unwrap().into_iter().map(|f| f.path).collect();
    assert_eq!(found, vec!["test.py"]);
    index
        .refresh(
            vec![
                entry("test.py", false),
                entry("src", true),
                entry("src/test.rs", false),
                entry("src/contest.py", false),
                entry("src/deep/test.tar.gz", false),
            ],
            2,
        )
        .unwrap();
    let found: Vec<String> = index.find_by_stem("test").unwrap().into_iter().map(|f| f.path).collect();
    assert_eq!(found, vec!["test.py", "src/test.rs", "src/deep/test.tar.gz"]);
    assert_eq!(index.count().unwrap(), 5);
}
