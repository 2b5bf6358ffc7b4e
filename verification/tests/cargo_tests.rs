use moss::ecosystems::{
    all, detect, interpret_cargo_output, parse_cargo_info, parse_feature_line, Cargo, Ecosystem,
    PackageError, ToolOutput,
};

#[test]
fn test_parse_cargo_info() {
    let output = r#"serde #serde #serialization #no_std
A generic serialization/deserialization framework
version: 1.0.228
license: MIT OR Apache-2.0
rust-version: 1.56
documentation: https://docs.rs/serde
homepage: https://serde.rs
repository: https://github.com/serde-rs/serde
crates.io: https://crates.io/crates/serde/1.0.228
features:
 +default      = [std]
  std          = [serde_core/std]
  alloc        = [serde_core/alloc]
  derive       = [serde_derive]
note: to see how you depend on serde, run `cargo tree --invert --package serde@1.0.228`"#;

    let info = parse_cargo_info(output, "serde").unwrap();
    assert_eq!(info.name, "serde");
    assert_eq!(info.version, "1.0.228");
    assert_eq!(
        info.description,
        Some("A generic serialization/deserialization framework".to_string())
    );
    assert_eq!(info.license, Some("MIT OR Apache-2.0".to_string()));
    assert_eq!(info.homepage, Some("https://serde.rs".to_string()));
    assert_eq!(
        info.repository,
        Some("https://github.com/serde-rs/serde".to_string())
    );
    assert_eq!(info.features.len(), 4);
    assert_eq!(info.features[0].name, "default");
    assert_eq!(info.features[0].dependencies, vec!["std"]);
}

#[test]
fn test_parse_feature_line() {
    let f = parse_feature_line(" +default      = [std]").unwrap();
    assert_eq!(f.name, "default");
    assert_eq!(f.dependencies, vec!["std"]);

    let f = parse_feature_line("  derive       = [serde_derive]").unwrap();
    assert_eq!(f.name, "derive");
    assert_eq!(f.dependencies, vec!["serde_derive"]);
}

#[test]
fn feature_line_without_equals_is_none() {
    assert!(parse_feature_line("  just a name").is_none());
}

#[test]
fn feature_line_lists_several_and_skips_empty() {
    let f = parse_feature_line("full = [a, b/c, , dep:d]").unwrap();
    assert_eq!(f.name, "full");
    assert_eq!(f.dependencies, vec!["a", "b/c", "dep:d"]);
    let f = parse_feature_line("none = []").unwrap();
    assert!(f.dependencies.is_empty());
    let f = parse_feature_line("odd = std").unwrap();
    assert!(f.dependencies.is_empty());
}

#[test]
fn cargo_info_without_version_is_parse_error() {
    match parse_cargo_info("serde\ndesc\nlicense: MIT\n", "serde") {
        Err(PackageError::ParseError(m)) => assert_eq!(m, "could not find version in output"),
        _ => panic!("expected a parse error"),
    }
}

#[test]
fn cargo_info_second_line_is_never_the_version() {
    // The second line is the description line: a version there is passed over.
    match parse_cargo_info("serde\nversion: 1.0\n", "serde") {
        Err(PackageError::ParseError(_)) => {}
        _ => panic!("expected a parse error"),
    }
    let info = parse_cargo_info("serde\n\nversion: 2.1\n", "serde").unwrap();
    assert_eq!(info.version, "2.1");
    assert_eq!(info.description, None);
}

#[test]
fn cargo_answer_not_found_and_tool_failed() {
    let out = ToolOutput {
        success: false,
        stdout: String::new(),
        stderr: "error: could not find `nope`".to_string(),
    };
    match interpret_cargo_output("nope", &out) {
        Err(PackageError::NotFound(p)) => assert_eq!(p, "nope"),
        _ => panic!("expected not found"),
    }
    let out = ToolOutput { success: false, stdout: String::new(), stderr: "boom".to_string() };
    match interpret_cargo_output("x", &out) {
        Err(PackageError::ToolFailed(m)) => assert_eq!(m, "boom"),
        _ => panic!("expected tool failure"),
    }
}

#[test]
fn cargo_ecosystem_facts() {
    let cargo = Cargo;
    assert_eq!(cargo.name(), "cargo");
    assert_eq!(cargo.manifest_files(), vec!["Cargo.toml"]);
    assert_eq!(cargo.tools(), vec!["cargo"]);
    let locks = cargo.lockfiles();
    assert_eq!(locks.len(), 1);
    assert_eq!(locks[0].filename, "Cargo.lock");
    assert_eq!(locks[0].manager, "cargo");
    let out = ToolOutput { success: true, stdout: String::new(), stderr: String::new() };
    match cargo.fetch_info("serde", "npm", &out) {
        Err(PackageError::ToolFailed(m)) => assert_eq!(m, "unknown tool: npm"),
        _ => panic!("expected tool failure"),
    }
    let ok = ToolOutput {
        success: true,
        stdout: "serde\nA framework\nversion: 1.0.0\n".to_string(),
        stderr: String::new(),
    };
    assert_eq!(cargo.fetch_info("serde", "cargo", &ok).unwrap().version, "1.0.0");
}

#[test]
fn detect_by_manifest() {
    assert_eq!(detect(&vec!["README.md".to_string(), "Cargo.toml".to_string()]), Some(Ecosystem::Cargo));
    assert_eq!(detect(&vec!["package.json".to_string()]), None);
    assert_eq!(all(), vec![Ecosystem::Cargo]);
}
