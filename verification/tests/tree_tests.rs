use moss::daemon::{DaemonClient, Request};
use moss::file_index::IndexedFile;
use moss::tree::{
    collect_single_chain, default_boilerplate_dirs, generate_tree, parts_of, render_tree,
    TreeNode, TreeOptions,
};

fn entries(dirs: &[&str], files: &[&str]) -> Vec<IndexedFile> {
    let mut out = Vec::new();
    for d in dirs {
        let mut at = String::new();
        for part in d.split('/') {
            if !at.is_empty() {
                at.push('/');
            }
            at.push_str(part);
            if !out.iter().any(|e: &IndexedFile| e.path == at) {
                out.push(IndexedFile { path: at.clone(), is_dir: true, mtime: 0 });
            }
        }
    }
    for f in files {
        out.push(IndexedFile { path: f.to_string(), is_dir: false, mtime: 0 });
    }
    out
}

#[test]
fn test_basic_tree() {
    let walk = entries(&["src/foo"], &["src/main.rs", "src/foo/bar.rs", "README.md"]);
    let result = generate_tree("/tmp/project", &walk, &TreeOptions::default());

    assert!(result.file_count >= 3);
    assert!(result.dir_count >= 2);
    assert!(result.lines.len() > 1);
    assert_eq!(result.root_name, "project");
    assert_eq!(
        result.lines,
        vec![
            "project",
            "\u{251c}\u{2500}\u{2500} src",
            "\u{2502}   \u{251c}\u{2500}\u{2500} foo",
            "\u{2502}   \u{2502}   \u{2514}\u{2500}\u{2500} bar.rs",
            "\u{2502}   \u{2514}\u{2500}\u{2500} main.rs",
            "\u{2514}\u{2500}\u{2500} README.md",
        ]
    );
    assert_eq!((result.file_count, result.dir_count), (3, 2));
}

#[test]
fn test_max_depth() {
    let walk = entries(&["alpha/beta/gamma/delta"], &["alpha/beta/gamma/delta/file.txt"]);
    let result = generate_tree(
        "root",
        &walk,
        &TreeOptions {
            max_depth: Some(2),
            collapse_single: false, // disable collapse to see raw depth
            boilerplate_dirs: vec![], // no boilerplate
        },
    );

    let tree_text = result.lines.join("\n");
    // Should stop at depth 2 (alpha, alpha/beta) - not show gamma or delta
    assert!(
        tree_text.contains("alpha") && tree_text.contains("beta"),
        "Should show alpha and beta: {}",
        tree_text
    );
    assert!(
        !tree_text.contains("gamma") && !tree_text.contains("delta"),
        "Should not show gamma or delta at depth 2: {}",
        tree_text
    );
    // what is left out of the drawing still counts
    assert_eq!((result.file_count, result.dir_count), (1, 4));
}

#[test]
fn test_collapse_single_child() {
    // Create a/b/c chain with file at end
    let walk = entries(&["a/b/c"], &["a/b/c/file.txt"]);

    // With collapse enabled (default)
    let result = generate_tree("root", &walk, &TreeOptions::default());
    // Should show "a/b/c" as single line, not 3 separate entries
    let tree_text = result.lines.join("\n");
    assert!(
        tree_text.contains("a/b/c"),
        "Should collapse single-child chain: {}",
        tree_text
    );
    assert_eq!(
        result.lines,
        vec!["root", "\u{2514}\u{2500}\u{2500} a/b/c", "    \u{2514}\u{2500}\u{2500} file.txt"]
    );

    // With collapse disabled
    let result_raw = generate_tree(
        "root",
        &walk,
        &TreeOptions {
            collapse_single: false,
            ..Default::default()
        },
    );
    let raw_text = result_raw.lines.join("\n");
    // Should show separate entries
    assert!(
        !raw_text.contains("a/b/c"),
        "Should not collapse when disabled: {}",
        raw_text
    );
}

#[test]
fn test_collapse_stops_at_multiple_children() {
    // Create a/b with two children under b
    let walk = entries(&["a/b/c", "a/b/d"], &["a/b/c/file.txt", "a/b/d/file.txt"]);

    let result = generate_tree("root", &walk, &TreeOptions::default());
    let tree_text = result.lines.join("\n");
    // Should collapse a/b but not further since b has 2 children
    assert!(
        tree_text.contains("a/b"),
        "Should collapse a/b: {}",
        tree_text
    );
    assert!(
        !tree_text.contains("a/b/c"),
        "Should not collapse past fork: {}",
        tree_text
    );
}

#[test]
fn test_boilerplate_dirs_dont_count_against_depth() {
    // Create src/commands/view.rs - 'src' is boilerplate
    let walk = entries(&["src/commands"], &["src/commands/view.rs", "README.md"]);

    // With max_depth=1, without boilerplate awareness we'd only see src/
    // With boilerplate awareness, src/ doesn't count, so we see src/commands/
    let boilerplate = vec!["src".to_string()];

    let result = generate_tree(
        "root",
        &walk,
        &TreeOptions {
            max_depth: Some(1),
            collapse_single: false, // disable collapse to see raw structure
            boilerplate_dirs: boilerplate,
        },
    );
    let tree_text = result.lines.join("\n");

    // Should show src/commands because src doesn't count against depth
    assert!(
        tree_text.contains("commands"),
        "Should show commands inside boilerplate src: {}",
        tree_text
    );
    assert!(!tree_text.contains("view.rs"));
}

#[test]
fn test_depth_with_no_boilerplate() {
    // Create alpha/beta/gamma structure
    let walk = entries(&["alpha/beta/gamma"], &["alpha/beta/gamma/file.txt"]);

    // With max_depth=1 and no boilerplate, only 'alpha' should be shown
    let result = generate_tree(
        "root",
        &walk,
        &TreeOptions {
            max_depth: Some(1),
            collapse_single: false,
            boilerplate_dirs: vec![], // no boilerplate
        },
    );
    let tree_text = result.lines.join("\n");

    assert!(
        tree_text.contains("alpha"),
        "Should show 'alpha': {}",
        tree_text
    );
    assert!(
        !tree_text.contains("beta"),
        "Should not show 'beta' at depth 1: {}",
        tree_text
    );
}

#[test]
fn directories_first_then_by_lowercase_name() {
    let walk = entries(&["zeta", "Alpha"], &["beta.txt", "Gamma.txt", "alpha.txt", "zeta/x", "Alpha/y"]);
    let opts = TreeOptions { max_depth: None, collapse_single: false, boilerplate_dirs: vec![] };
    let result = generate_tree("", &walk, &opts);
    let names: Vec<String> = result
        .lines
        .iter()
        .filter(|l| !l.starts_with(' ') && !l.starts_with('\u{2502}'))
        .map(|l| l.trim_start_matches(|c| c == '\u{251c}' || c == '\u{2514}' || c == '\u{2500}' || c == ' ').to_string())
        .collect();
    assert_eq!(names, vec![".", "Alpha", "zeta", "alpha.txt", "beta.txt", "Gamma.txt"]);
    assert_eq!(result.root_name, ".");
}

#[test]
fn add_path_keeps_children_in_order_of_name() {
    let parts = |p: &str| parts_of(&p.chars().collect());
    let none: Vec<String> = vec![];
    let mut tree = TreeNode::new(true);
    for p in ["m/x", "b", "z", "a//y/", "m/a"] {
        tree = tree.add_path(&parts(p), 0, false, None, &none, 0);
    }
    let names: Vec<&str> = tree.children.iter().map(|c| c.0.as_str()).collect();
    assert_eq!(names, vec!["a", "b", "m", "z"]);
    assert!(tree.children[0].1.is_dir);
    assert!(!tree.children[1].1.is_dir);
    let inner: Vec<&str> = tree.children[2].1.children.iter().map(|c| c.0.as_str()).collect();
    assert_eq!(inner, vec!["a", "x"]);
    assert_eq!(parts("a//y/").len(), 2);
    let chain = TreeNode::new(true).add_path(&parts("a/b/c"), 0, true, None, &none, 0);
    let (path, end) = collect_single_chain(&chain.children[0].1, &"a".chars().collect());
    assert_eq!(path.into_iter().collect::<String>(), "a/b/c");
    assert!(end.children.is_empty());
    let mut lines = vec!["kept".chars().collect()];
    render_tree(&chain, &"> ".chars().collect(), &mut lines, true);
    let lines: Vec<String> = lines.into_iter().map(|l| l.into_iter().collect()).collect();
    assert_eq!(lines, vec!["kept", "> \u{2514}\u{2500}\u{2500} a/b/c"]);
    assert_eq!(default_boilerplate_dirs().len(), 7);
}

#[test]
fn daemon_client_socket() {
    let client = DaemonClient::new("/work/project");
    assert_eq!(client.socket_path(), "/work/project/.moss/daemon.sock");
    assert_eq!(Request::Status.command(), "status");
    assert_eq!(Request::Path { query: "x".to_string() }.command(), "path");
    assert_eq!(Request::Expand { symbol: "s".to_string(), file: None }.command(), "expand");
}
