use moss::external_packages::{
    find_python_site_packages, get_global_cache_dir, get_global_packages_db, is_go_stdlib_import,
    is_python_stdlib_module, resolve_go_import, resolve_go_stdlib_import, resolve_node_import,
    resolve_python_import, resolve_python_stdlib_import,
};
use moss::file_index::IndexedFile;
use moss::languages::ecmascript;
use moss::languages::go::Go;
use moss::languages::python::Python;
use moss::package_indexing::{
    count_and_insert_symbols, index_discovered_package, index_package_symbols, version_bounds,
};
use moss::packages::{PackageIndex, PackageRecord, StoreError, SymbolRecord};
use moss::resolution::{
    get_language_version, is_stdlib_import, resolve_import, resolver_for_path, Environment,
    ImportResolver, Resolver,
};
use moss::version::Version;

fn dir(path: &str) -> IndexedFile {
    IndexedFile { path: path.to_string(), is_dir: true, mtime: 0 }
}

fn file(path: &str) -> IndexedFile {
    IndexedFile { path: path.to_string(), is_dir: false, mtime: 0 }
}

fn site() -> Vec<IndexedFile> {
    vec![
        dir("/sp/requests"),
        file("/sp/requests/__init__.py"),
        file("/sp/requests/api.py"),
        dir("/sp/requests/adapters"),
        file("/sp/requests/adapters/__init__.py"),
        dir("/sp/ns"),
        dir("/sp/ns/inner"),
        file("/sp/six.py"),
    ]
}

#[test]
fn python_imports() {
    let e = site();
    let pkg = resolve_python_import("requests", "/sp", &e).unwrap();
    assert_eq!((pkg.path.as_str(), pkg.name.as_str(), pkg.is_namespace), ("/sp/requests", "requests", false));
    let pkg = resolve_python_import("requests.api", "/sp", &e).unwrap();
    assert_eq!((pkg.path.as_str(), pkg.is_namespace), ("/sp/requests/api.py", false));
    let pkg = resolve_python_import("requests.adapters", "/sp", &e).unwrap();
    assert_eq!((pkg.path.as_str(), pkg.is_namespace), ("/sp/requests/adapters", false));
    let pkg = resolve_python_import("ns", "/sp", &e).unwrap();
    assert!(pkg.is_namespace);
    let pkg = resolve_python_import("ns.inner", "/sp", &e).unwrap();
    assert_eq!((pkg.path.as_str(), pkg.is_namespace), ("/sp/ns/inner", true));
    let pkg = resolve_python_import("six", "/sp", &e).unwrap();
    assert_eq!(pkg.path, "/sp/six.py");
    assert!(resolve_python_import("requests.nope", "/sp", &e).is_none());
    assert!(resolve_python_import("nope", "/sp", &e).is_none());
    assert!(resolve_python_import("six.moves", "/sp", &e).is_some());
    assert!(resolve_python_stdlib_import("six", "/sp", &e).is_some());
    assert!(is_python_stdlib_module("requests.api", "/sp", &e));
    assert!(is_python_stdlib_module("six", "/sp", &e));
    assert!(!is_python_stdlib_module("seven", "/sp", &e));
}

#[test]
fn site_packages_of_a_project() {
    let e = vec![
        dir("/w/p/.venv"),
        dir("/w/p/.venv/lib"),
        dir("/w/p/.venv/lib/other"),
        dir("/w/p/.venv/lib/python3.12"),
        dir("/w/p/.venv/lib/python3.12/site-packages"),
    ];
    assert_eq!(find_python_site_packages("/w/p", &e), Some("/w/p/.venv/lib/python3.12/site-packages".to_string()));
    // from a directory below the project, the environment above is found
    assert_eq!(
        find_python_site_packages("/w/p/sub/dir", &e),
        Some("/w/p/.venv/lib/python3.12/site-packages".to_string())
    );
    assert_eq!(find_python_site_packages("/elsewhere", &e), None);
    let win = vec![dir("/p/venv"), dir("/p/venv/Lib"), dir("/p/venv/Lib/site-packages")];
    assert_eq!(find_python_site_packages("/p", &win), Some("/p/venv/Lib/site-packages".to_string()));
}

#[test]
fn go_imports() {
    assert!(is_go_stdlib_import("fmt"));
    assert!(is_go_stdlib_import("net/http"));
    assert!(!is_go_stdlib_import("github.com/user/repo"));
    assert!(is_go_stdlib_import(""));
    let e = vec![
        dir("/go/src/net/http"),
        dir("/mod/github.com/user"),
        dir("/mod/github.com/user/repo@v1.2.3"),
        dir("/mod/github.com/user/repo@v1.2.3/pkg"),
        dir("/mod/github.com/user/repo@v2.0.0"),
        dir("/mod/github.com/user/repo@v2.0.0/pkg"),
        dir("/mod/github.com/user/repo@v2.0.0/other"),
        dir("/mod/github.com/user/repository@v9"),
    ];
    let pkg = resolve_go_stdlib_import("net/http", "/go/src", &e).unwrap();
    assert_eq!((pkg.path.as_str(), pkg.name.as_str()), ("/go/src/net/http", "net/http"));
    assert!(resolve_go_stdlib_import("net/smtp", "/go/src", &e).is_none());
    assert!(resolve_go_stdlib_import("github.com/user/repo", "/mod", &e).is_none());
    let pkg = resolve_go_import("github.com/user/repo/pkg", "/mod", &e).unwrap();
    assert_eq!(pkg.path, "/mod/github.com/user/repo@v1.2.3/pkg");
    let pkg = resolve_go_import("github.com/user/repo/other", "/mod", &e).unwrap();
    assert_eq!(pkg.path, "/mod/github.com/user/repo@v2.0.0/other");
    let pkg = resolve_go_import("github.com/user/repo", "/mod", &e).unwrap();
    assert_eq!(pkg.path, "/mod/github.com/user/repo@v1.2.3");
    assert!(resolve_go_import("github.com/user/none", "/mod", &e).is_none());
    assert!(resolve_go_import("fmt", "/mod", &e).is_none());
}

fn environment() -> Environment {
    let mut entries = site();
    entries.extend(vec![
        dir("/py"),
        file("/py/os.py"),
        dir("/p/.venv"),
        dir("/p/.venv/Lib"),
        dir("/p/.venv/Lib/site-packages"),
        dir("/p/.venv/Lib/site-packages/attr"),
        dir("/go/src/fmt"),
        dir("/nm/react"),
        file("/p/web/util.ts"),
        dir("/p/web/lib"),
        file("/p/web/lib/index.js"),
    ]);
    Environment {
        python_stdlib: Some("/py".to_string()),
        python_version: Some("3.12".to_string()),
        go_stdlib: Some("/go/src".to_string()),
        go_mod_cache: None,
        go_version: Some("1.21".to_string()),
        node_modules: Some("/nm".to_string()),
        node_version: None,
        entries,
    }
}

#[test]
fn resolution_by_language_of_the_file() {
    let env = environment();
    assert_eq!(resolver_for_path("a/b.py"), Some(Resolver::Python));
    assert_eq!(resolver_for_path("a/b.PY"), None);
    assert_eq!(resolver_for_path("a/b.tsx"), Some(Resolver::TypeScript));
    assert_eq!(resolver_for_path("a/b.rs"), None);
    assert_eq!(resolve_import("x.py", "os", "/p", &env).unwrap().path, "/py/os.py");
    assert_eq!(
        resolve_import("x.py", "attr", "/p", &env).unwrap().path,
        "/p/.venv/Lib/site-packages/attr"
    );
    assert!(resolve_import("x.py", "nope", "/p", &env).is_none());
    assert_eq!(resolve_import("x.go", "fmt", "/p", &env).unwrap().path, "/go/src/fmt");
    assert!(resolve_import("x.go", "github.com/a/b", "/p", &env).is_none());
    assert_eq!(resolve_import("x.js", "react", "/p", &env).unwrap().path, "/nm/react");
    assert!(resolve_import("x.ts", "./react", "/p", &env).is_none());
    assert!(resolve_import("x.ts", "/react", "/p", &env).is_none());
    assert!(resolve_import("x.rb", "react", "/p", &env).is_none());
    assert!(is_stdlib_import("x.py", "os.path", "/p", &env));
    assert!(!is_stdlib_import("x.py", "attr", "/p", &env));
    assert!(is_stdlib_import("x.go", "fmt", "/p", &env));
    assert!(!is_stdlib_import("x.js", "fs", "/p", &env));
    assert_eq!(get_language_version("x.py", &env), Some("3.12".to_string()));
    assert_eq!(get_language_version("x.go", &env), Some("1.21".to_string()));
    assert_eq!(get_language_version("x.mjs", &env), None);
    assert_eq!(get_language_version("x", &env), None);
    assert_eq!(Python.find_package_cache("/p", &env), Some("/p/.venv/Lib/site-packages".to_string()));
    assert_eq!(Go.find_package_cache("/p", &env), None);
    assert_eq!(Go.get_version(&env), Some("1.21".to_string()));
    assert_eq!(ecmascript::get_version(&env), None);
    assert_eq!(ecmascript::find_package_cache(&env), Some("/nm".to_string()));
    assert_eq!(ecmascript::resolve_external_import("react", &env).unwrap().name, "react");
    assert!(resolve_node_import("vue", "/nm", &env.entries).is_none());
}

#[test]
fn local_imports_of_scripts() {
    let env = environment();
    let ts = ecmascript::ts_extensions();
    assert_eq!(
        ecmascript::resolve_local_import("./util", "/p/web/app.ts", &ts, &env.entries),
        Some("/p/web/util.ts".to_string())
    );
    assert_eq!(
        ecmascript::resolve_local_import("./util.ts", "/p/web/app.ts", &ts, &env.entries),
        Some("/p/web/util.ts".to_string())
    );
    assert_eq!(
        ecmascript::resolve_local_import("../util.js", "/p/web/sub/app.ts", &ts, &env.entries),
        Some("/p/web/util.ts".to_string())
    );
    assert_eq!(
        ecmascript::resolve_local_import("./lib", "/p/web/app.ts", &ts, &env.entries),
        Some("/p/web/lib/index.js".to_string())
    );
    assert_eq!(ecmascript::resolve_local_import("./none", "/p/web/app.ts", &ts, &env.entries), None);
    assert_eq!(ecmascript::resolve_local_import("util", "/p/web/app.ts", &ts, &env.entries), None);
    assert_eq!(ecmascript::resolve_local_import(".util", "/p/web/app.ts", &ts, &env.entries), None);
    let js = ecmascript::js_extensions();
    assert_eq!(ecmascript::resolve_local_import("./util", "/p/web/app.js", &js, &env.entries), None);
}

#[test]
fn cache_directories() {
    assert_eq!(get_global_cache_dir(Some("/x"), Some("/h"), None), Some("/x/moss".to_string()));
    assert_eq!(get_global_cache_dir(None, Some("/h"), Some("/u")), Some("/h/.cache/moss".to_string()));
    assert_eq!(get_global_cache_dir(None, None, Some("/u")), Some("/u/.cache/moss".to_string()));
    assert_eq!(get_global_cache_dir(None, None, None), None);
    assert_eq!(get_global_packages_db(Some("/h/.cache/moss")), Some("/h/.cache/moss/packages.db".to_string()));
    assert_eq!(get_global_packages_db(None), None);
}

#[test]
fn package_symbols_are_stored_with_what_they_hold() {
    let mut index = PackageIndex::open_in_memory().unwrap();
    let v = Version { major: 3, minor: 8 };
    let id = index.insert_package("python", "demo", "/sp/demo", v, None).unwrap();
    let source = "class A:\n    def m(self, x):\n        pass\n\ndef f():\n    pass\n";
    assert_eq!(index_package_symbols(&mut index, id, "/sp/demo/__init__.py", source), Ok(3));
    let rows: Vec<(i64, String, String, String, u32)> = index
        .get_symbols(id)
        .unwrap()
        .into_iter()
        .map(|s| (s.id, s.name, s.kind, s.signature, s.line))
        .collect();
    assert_eq!(
        rows,
        vec![
            (1, "A".to_string(), "class".to_string(), "class A".to_string(), 1),
            (2, "m".to_string(), "method".to_string(), "def m(self, x)".to_string(), 2),
            (3, "f".to_string(), "function".to_string(), "def f()".to_string(), 5),
        ]
    );
    // for a package that is not there the index refuses, and says so
    let tree = moss::syntax::parse_source(moss::syntax::Grammar::Python, source).unwrap();
    let symbols = moss::languages::extract_symbols(&Python, &tree);
    assert_eq!(count_and_insert_symbols(&mut index, 99, &symbols), Err(StoreError::UnknownPackage));
    assert_eq!(index.symbol_count(), 3);
    assert_eq!(
        index_package_symbols(&mut index, 99, "/sp/demo/__init__.py", source),
        Err(StoreError::UnknownPackage)
    );
    assert_eq!(index.symbol_count(), 3);
    // a file that cannot be read has no symbols
    assert_eq!(index_package_symbols(&mut index, id, "/sp/demo/README", source), Ok(0));
    assert_eq!(count_and_insert_symbols(&mut index, id, &symbols), Ok(3));
    assert_eq!(index.symbol_count(), 6);
    assert_eq!(index.symbol_at(5).id, 6);
}

fn package_row(id: i64) -> PackageRecord {
    PackageRecord {
        id,
        language: "python".to_string(),
        name: "demo".to_string(),
        path: "/sp/demo".to_string(),
        min_major: 3,
        min_minor: 8,
        max_major: None,
        max_minor: None,
    }
}

fn symbol_row(id: i64, package_id: i64) -> SymbolRecord {
    SymbolRecord {
        id,
        package_id,
        name: "old".to_string(),
        kind: "function".to_string(),
        signature: "def old()".to_string(),
        line: 1,
    }
}

#[test]
fn symbols_are_refused_together_where_identifiers_run_out() {
    let source = "class A:\n    def m(self, x):\n        pass\n\ndef f():\n    pass\n";
    let tree = moss::syntax::parse_source(moss::syntax::Grammar::Python, source).unwrap();
    let symbols = moss::languages::extract_symbols(&Python, &tree);
    // two identifiers are left, three symbols are to be stored
    let mut index =
        PackageIndex::open(vec![package_row(1)], vec![symbol_row(i64::MAX - 2, 1)]).unwrap();
    assert_eq!(count_and_insert_symbols(&mut index, 1, &symbols), Err(StoreError::Full));
    assert_eq!(index.symbol_count(), 1);
    // three are left
    let mut index =
        PackageIndex::open(vec![package_row(1)], vec![symbol_row(i64::MAX - 3, 1)]).unwrap();
    assert_eq!(count_and_insert_symbols(&mut index, 1, &symbols), Ok(3));
    assert_eq!(index.symbol_count(), 4);
    assert_eq!(index.symbol_at(3).id, i64::MAX);
    // a package is not taken in where its symbols cannot be stored
    let mut index =
        PackageIndex::open(vec![package_row(1)], vec![symbol_row(i64::MAX - 2, 1)]).unwrap();
    let v = Version { major: 3, minor: 8 };
    let got = index_discovered_package(&mut index, "python", "other", "/sp/other", v, None, "/sp/other/__init__.py", source);
    assert_eq!(got, Err(StoreError::Full));
    assert_eq!(index.package_count(), 1);
    assert_eq!(index.symbol_count(), 1);
    // nor where no identifier is left for the package
    let mut index = PackageIndex::open(vec![package_row(i64::MAX)], vec![]).unwrap();
    let got = index_discovered_package(&mut index, "python", "other", "/sp/other", v, None, "/sp/other/__init__.py", source);
    assert_eq!(got, Err(StoreError::Full));
    assert_eq!(index.package_count(), 1);
    assert_eq!(index.symbol_count(), 0);
}

#[test]
fn versions_that_a_source_serves() {
    let v = Version { major: 3, minor: 11 };
    assert_eq!(version_bounds(Some(v), true), (v, Some(v)));
    assert_eq!(version_bounds(Some(v), false), (v, None));
    assert_eq!(version_bounds(None, true), (Version { major: 0, minor: 0 }, None));
    assert_eq!(version_bounds(None, false), (Version { major: 0, minor: 0 }, None));
}

#[test]
fn discovered_packages_are_indexed_once() {
    let mut index = PackageIndex::open_in_memory().unwrap();
    let v = Version { major: 1, minor: 21 };
    let got = index_discovered_package(&mut index, "go", "lib", "/m/lib", v, Some(v), "/m/lib/lib.go", "package lib\nfunc Do() {}\n");
    assert_eq!(got, Ok(Some((1, 1))));
    let again = index_discovered_package(&mut index, "go", "lib", "/m/lib", v, Some(v), "/m/lib/lib.go", "package lib\nfunc Do() {}\nfunc More() {}\n");
    assert_eq!(again, Ok(None));
    assert_eq!(index.package_count(), 1);
    assert_eq!(index.symbol_count(), 1);
}

fn project_with_venv() -> Vec<IndexedFile> {
    vec![
        dir("/work/moss"),
        dir("/work/moss/.venv"),
        dir("/work/moss/.venv/lib"),
        dir("/work/moss/.venv/lib/python3.12"),
        dir("/work/moss/.venv/lib/python3.12/site-packages"),
        dir("/work/moss/.venv/lib/python3.12/site-packages/ruff"),
        file("/work/moss/.venv/lib/python3.12/site-packages/ruff/__init__.py"),
    ]
}

#[test]
fn test_find_site_packages() {
    let entries = project_with_venv();
    let site_packages = find_python_site_packages("/work/moss", &entries);
    assert!(site_packages.is_some());
    let sp = site_packages.unwrap();
    assert!(sp.contains("site-packages"));
}

#[test]
fn test_resolve_python_import() {
    let entries = project_with_venv();
    let site_packages = find_python_site_packages("/work/moss", &entries).unwrap();
    assert!(resolve_python_import("pathlib", &site_packages, &entries).is_none());
    let pkg = resolve_python_import("ruff", &site_packages, &entries).unwrap();
    assert!(entries.iter().any(|e| e.path == pkg.path));
    assert_eq!(pkg.name, "ruff");
}
