use moss::packages::{PackageIndex, PackageRecord, StoreError, SymbolRecord};
use moss::version::Version;

#[test]
fn test_package_index() {
    let mut index = PackageIndex::open_in_memory().unwrap();

    // Insert a package
    let pkg_id = index
        .insert_package(
            "python",
            "requests",
            "/path/to/requests",
            Version { major: 3, minor: 8 },
            Some(Version { major: 3, minor: 12 }),
        )
        .unwrap();

    // Insert symbols
    index.insert_symbol(pkg_id, "get", "function", "def get(url, **kwargs) -> Response", 42).unwrap();
    index.insert_symbol(pkg_id, "post", "function", "def post(url, **kwargs) -> Response", 100).unwrap();

    // Find package
    let found = index.find_package("python", "requests", Some(Version { major: 3, minor: 10 })).unwrap();
    assert!(found.is_some());
    let pkg = found.unwrap();
    assert_eq!(pkg.name, "requests");

    // Find with wrong version
    let found = index.find_package("python", "requests", Some(Version { major: 2, minor: 7 })).unwrap();
    assert!(found.is_none());

    // Get symbols
    let symbols = index.get_symbols(pkg_id).unwrap();
    assert_eq!(symbols.len(), 2);
    assert_eq!(symbols[0].name, "get");

    // Find symbol by name
    let results = index.find_symbol("python", "get", None).unwrap();
    assert_eq!(results.len(), 1);
    assert_eq!(results[0].0.name, "requests");
    assert_eq!(results[0].1.name, "get");
}

#[test]
fn cascade_delete_removes_symbols() {
    let mut index = PackageIndex::open_in_memory().unwrap();
    let v = Version { major: 1, minor: 0 };
    let a = index.insert_package("go", "a", "/a", v, None).unwrap();
    let b = index.insert_package("go", "b", "/b", v, None).unwrap();
    index.insert_symbol(a, "A1", "function", "func A1()", 1).unwrap();
    index.insert_symbol(b, "B1", "function", "func B1()", 1).unwrap();
    index.insert_symbol(a, "A2", "function", "func A2()", 2).unwrap();
    index.delete_package(a).unwrap();
    assert!(index.get_symbols(a).unwrap().is_empty());
    assert_eq!(index.get_symbols(b).unwrap().len(), 1);
    assert_eq!(index.is_indexed("go", "a"), Ok(false));
    assert_eq!(index.is_indexed("go", "b"), Ok(true));
    assert_eq!(index.package_count(), 1);
    assert_eq!(index.symbol_count(), 1);
    assert_eq!(index.symbol_at(0).name, "B1");
    assert_eq!(index.package_at(0).name, "b");
}

#[test]
fn identifiers_count_up_from_one() {
    let mut index = PackageIndex::open_in_memory().unwrap();
    let v = Version { major: 1, minor: 0 };
    assert_eq!(index.insert_package("go", "a", "/a", v, None), Ok(1));
    assert_eq!(index.insert_package("go", "b", "/b", v, None), Ok(2));
    assert_eq!(index.insert_symbol(2, "s", "function", "sig", 3), Ok(1));
    assert_eq!(index.insert_symbol(1, "t", "function", "sig", 1), Ok(2));
    // the largest identifier is given again once its row has left
    index.delete_package(2).unwrap();
    assert_eq!(index.insert_package("go", "c", "/c", v, None), Ok(2));
}

#[test]
fn symbol_of_unknown_package_is_refused() {
    let mut index = PackageIndex::open_in_memory().unwrap();
    assert_eq!(index.insert_symbol(7, "s", "function", "sig", 3), Err(StoreError::UnknownPackage));
    assert_eq!(index.symbol_count(), 0);
}

#[test]
fn full_index_is_reported() {
    let pkg = PackageRecord {
        id: i64::MAX,
        language: "go".to_string(),
        name: "a".to_string(),
        path: "/a".to_string(),
        min_major: 1,
        min_minor: 0,
        max_major: None,
        max_minor: None,
    };
    let sym = SymbolRecord {
        id: i64::MAX,
        package_id: i64::MAX,
        name: "s".to_string(),
        kind: "function".to_string(),
        signature: "sig".to_string(),
        line: 1,
    };
    let mut index = PackageIndex::open(vec![pkg], vec![sym]).unwrap();
    let v = Version { major: 1, minor: 0 };
    assert_eq!(index.insert_package("go", "b", "/b", v, None), Err(StoreError::Full));
    assert_eq!(index.insert_symbol(i64::MAX, "t", "function", "sig", 1), Err(StoreError::Full));
    assert_eq!(index.package_count(), 1);
}

#[test]
fn rows_that_break_the_invariant_are_refused() {
    let sym = SymbolRecord {
        id: 1,
        package_id: 5,
        name: "s".to_string(),
        kind: "function".to_string(),
        signature: "sig".to_string(),
        line: 1,
    };
    assert!(PackageIndex::open(vec![], vec![sym]).is_none());
}

#[test]
fn find_package_takes_first_in_range() {
    let mut index = PackageIndex::open_in_memory().unwrap();
    let old = index
        .insert_package("python", "p", "/old", Version { major: 2, minor: 0 }, Some(Version { major: 2, minor: 7 }))
        .unwrap();
    let new = index
        .insert_package("python", "p", "/new", Version { major: 3, minor: 0 }, None)
        .unwrap();
    let any = index.find_package("python", "p", None).unwrap().unwrap();
    assert_eq!(any.id, old);
    let v39 = index.find_package("python", "p", Some(Version { major: 3, minor: 9 })).unwrap().unwrap();
    assert_eq!(v39.id, new);
    assert_eq!(v39.min_version(), Version { major: 3, minor: 0 });
    assert_eq!(v39.max_version(), None);
    assert_eq!(any.max_version(), Some(Version { major: 2, minor: 7 }));
    assert!(index.find_package("go", "p", None).unwrap().is_none());
}

#[test]
fn symbols_come_ordered_by_line() {
    let mut index = PackageIndex::open_in_memory().unwrap();
    let v = Version { major: 1, minor: 0 };
    let a = index.insert_package("go", "a", "/a", v, None).unwrap();
    index.insert_symbol(a, "late", "function", "", 30).unwrap();
    index.insert_symbol(a, "first", "function", "", 10).unwrap();
    index.insert_symbol(a, "same_line", "function", "", 10).unwrap();
    let names: Vec<String> = index.get_symbols(a).unwrap().into_iter().map(|s| s.name).collect();
    assert_eq!(names, vec!["first", "same_line", "late"]);
}

#[test]
fn find_symbol_filters_by_language_and_version() {
    let mut index = PackageIndex::open_in_memory().unwrap();
    let a = index
        .insert_package("python", "a", "/a", Version { major: 3, minor: 8 }, Some(Version { major: 3, minor: 9 }))
        .unwrap();
    let b = index.insert_package("go", "b", "/b", Version { major: 1, minor: 0 }, None).unwrap();
    index.insert_symbol(a, "get", "function", "", 1).unwrap();
    index.insert_symbol(b, "get", "function", "", 2).unwrap();
    assert_eq!(index.find_symbol("python", "get", None).unwrap().len(), 1);
    assert_eq!(index.find_symbol("python", "get", Some(Version { major: 3, minor: 10 })).unwrap().len(), 0);
    assert_eq!(index.find_symbol("go", "get", Some(Version { major: 1, minor: 21 })).unwrap()[0].0.name, "b");
}
