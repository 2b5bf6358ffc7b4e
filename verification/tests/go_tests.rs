use moss::languages::go_mod::{find_go_mod, parse_go_mod_content, resolve_go_import, GoModule};

#[test]
fn test_parse_go_mod() {
    let content = r#"
module github.com/user/project

go 1.21

require (
    github.com/pkg/errors v0.9.1
    golang.org/x/sync v0.3.0
)
"#;
    let module = parse_go_mod_content(content).unwrap();
    assert_eq!(module.path, "github.com/user/project");
    assert_eq!(module.go_version, Some("1.21".to_string()));
}

#[test]
fn test_resolve_internal_import() {
    let module = GoModule {
        path: "github.com/user/project".to_string(),
        go_version: Some("1.21".to_string()),
    };

    // Internal import
    let result = resolve_go_import("github.com/user/project/pkg/utils", &module, "/fake/root");
    assert_eq!(result, Some("/fake/root/pkg/utils".to_string()));

    // External import
    let result = resolve_go_import("github.com/other/lib", &module, "/fake/root");
    assert!(result.is_none());
}

#[test]
fn go_mod_without_module_line_is_none() {
    assert!(parse_go_mod_content("go 1.21\n").is_none());
    assert!(parse_go_mod_content("").is_none());
}

#[test]
fn go_mod_last_module_line_wins() {
    let module = parse_go_mod_content("module a/b\nmodule c/d\n").unwrap();
    assert_eq!(module.path, "c/d");
    assert_eq!(module.go_version, None);
}

#[test]
fn go_import_of_module_itself_is_root() {
    let module = GoModule { path: "example.com/m".to_string(), go_version: None };
    assert_eq!(resolve_go_import("example.com/m", &module, "/r"), Some("/r".to_string()));
    assert_eq!(resolve_go_import("example.com/m/", &module, "/r"), Some("/r".to_string()));
}

#[test]
fn go_mod_places_walk_up() {
    assert_eq!(
        find_go_mod("a/b/c"),
        vec!["a/b/c/go.mod".to_string(), "a/b/go.mod".to_string(), "a/go.mod".to_string()]
    );
    assert_eq!(find_go_mod("a"), vec!["a/go.mod".to_string()]);
}
