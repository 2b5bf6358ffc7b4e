use moss::file_index::IndexedFile;
use moss::path_resolve::{
    file_paths, first_file, rank_matches, resolve, resolve_plain, PathMatch, MAX_FUZZY_MATCHES,
};

fn entry(path: &str, is_dir: bool) -> IndexedFile {
    IndexedFile { path: path.to_string(), is_dir, mtime: 0 }
}

fn tree() -> Vec<IndexedFile> {
    vec![
        entry("src", true),
        entry("src/moss", true),
        entry("src/moss/cli.py", false),
        entry("src/moss/dwim.py", false),
        entry("docs/Dwim.md", false),
        entry("README.md", false),
    ]
}

#[test]
fn test_exact_match() {
    let matches = resolve("src/moss/cli.py", &tree());
    assert_eq!(matches.len(), 1);
    assert_eq!(matches[0].path, "src/moss/cli.py");
}

#[test]
fn test_filename_match() {
    let entries = vec![entry("src", true), entry("src/moss", true), entry("src/moss/dwim.py", false)];
    let matches = resolve("dwim.py", &entries);
    assert_eq!(matches.len(), 1);
    assert_eq!(matches[0].path, "src/moss/dwim.py");
}

#[test]
fn test_stem_match() {
    let entries = vec![entry("src", true), entry("src/moss", true), entry("src/moss/dwim.py", false)];
    let matches = resolve("dwim", &entries);
    assert_eq!(matches.len(), 1);
    assert_eq!(matches[0].path, "src/moss/dwim.py");
}

#[test]
fn exact_match_has_the_largest_score() {
    let matches = resolve("src/moss", &tree());
    assert_eq!(matches.len(), 1);
    assert_eq!(matches[0].score, u32::MAX);
    assert_eq!(matches[0].kind, "directory");
    let matches = resolve("README.md", &tree());
    assert_eq!(matches[0].kind, "file");
    assert_eq!(matches[0].score, u32::MAX);
}

#[test]
fn name_matches_ignore_case_and_come_all() {
    let matches = resolve("DWIM", &tree());
    let paths: Vec<&str> = matches.iter().map(|m| m.path.as_str()).collect();
    assert_eq!(paths, vec!["src/moss/dwim.py", "docs/Dwim.md"]);
    assert!(matches.iter().all(|m| m.score == u32::MAX - 1));
    let matches = resolve("moss", &tree());
    assert_eq!(matches.len(), 1);
    assert_eq!(matches[0].kind, "directory");
}

#[test]
fn symbol_part_of_a_query_is_cut_off() {
    let matches = resolve("src/moss/cli.py:main", &tree());
    assert_eq!(matches.len(), 1);
    assert_eq!(matches[0].path, "src/moss/cli.py");
    assert_eq!(matches[0].score, u32::MAX);
}

#[test]
fn fuzzy_matches_fall_by_score_and_stop_at_ten() {
    let mut entries = Vec::new();
    for i in 0..15 {
        entries.push(entry(&format!("pkg/module_{}/handler.py", i), false));
    }
    entries.push(entry("", false));
    let matches = resolve("pkghand", &entries);
    assert_eq!(matches.len(), MAX_FUZZY_MATCHES);
    for pair in matches.windows(2) {
        assert!(pair[0].score >= pair[1].score);
    }
    assert!(matches.iter().all(|m| m.score < u32::MAX - 1 && !m.path.is_empty()));
    assert!(resolve("zzzzqqqq", &entries).is_empty());
}

#[test]
fn fuzzy_score_is_the_matchers() {
    // a match at the start of a word scores higher than one inside a word
    let entries = vec![entry("xxfoo_bar", false), entry("foo_bar_xx", false)];
    let matches = resolve_plain(&"fb".chars().collect(), &entries);
    assert_eq!(matches.len(), 2);
    assert_eq!(matches[0].path, "foo_bar_xx");
    assert!(matches[0].score > matches[1].score);
    assert!(matches[1].score > 0);
}

#[test]
fn ranking_is_stable() {
    let m = |path: &str, score: u32| PathMatch { path: path.to_string(), kind: "file".to_string(), score };
    let ranked = rank_matches(vec![m("a", 5), m("b", 9), m("c", 5), m("d", 9), m("e", 1)]);
    let got: Vec<(&str, u32)> = ranked.iter().map(|x| (x.path.as_str(), x.score)).collect();
    assert_eq!(got, vec![("b", 9), ("d", 9), ("a", 5), ("c", 5), ("e", 1)]);
    assert!(rank_matches(vec![]).is_empty());
    let many: Vec<PathMatch> = (0..12).map(|i| m(&format!("p{}", i), i)).collect();
    let top = rank_matches(many);
    assert_eq!(top.len(), 10);
    assert_eq!(top[0].score, 11);
    assert_eq!(top[9].score, 2);
}

fn found(path: &str, kind: &str) -> PathMatch {
    PathMatch { path: path.to_string(), kind: kind.to_string(), score: 0 }
}

#[test]
fn files_among_matches() {
    let matches = vec![found("src", "directory"), found("src/a.py", "file"), found("b.py", "file")];
    assert_eq!(first_file(&matches), Some(1));
    assert_eq!(file_paths(&matches), vec!["src/a.py", "b.py"]);
    let dirs = vec![found("src", "directory")];
    assert_eq!(first_file(&dirs), None);
    assert!(file_paths(&dirs).is_empty());
    assert_eq!(first_file(&vec![]), None);
}
