use moss::version::Version;

#[test]
fn test_version_parsing() {
    assert_eq!(Version::parse("3.11"), Some(Version { major: 3, minor: 11 }));
    assert_eq!(Version::parse("1.21"), Some(Version { major: 1, minor: 21 }));
    assert_eq!(Version::parse("invalid"), None);
}

#[test]
fn test_version_comparison() {
    let v39 = Version { major: 3, minor: 9 };
    let v310 = Version { major: 3, minor: 10 };
    let v311 = Version { major: 3, minor: 11 };

    assert!(v39 < v310);
    assert!(v310 < v311);
    assert!(v311 > v39);
}

#[test]
fn test_version_in_range() {
    let v310 = Version { major: 3, minor: 10 };
    let min = Version { major: 3, minor: 9 };
    let max = Version { major: 3, minor: 12 };

    assert!(v310.in_range(min, Some(max)));
    assert!(v310.in_range(min, None));
    assert!(!Version { major: 3, minor: 8 }.in_range(min, Some(max)));
    assert!(!Version { major: 3, minor: 13 }.in_range(min, Some(max)));
}

#[test]
fn version_parse_edges() {
    assert_eq!(Version::parse("3"), None);
    assert_eq!(Version::parse("3."), None);
    assert_eq!(Version::parse(".11"), None);
    assert_eq!(Version::parse("3.11.4"), Some(Version { major: 3, minor: 11 }));
    assert_eq!(Version::parse("+3.011"), Some(Version { major: 3, minor: 11 }));
    assert_eq!(Version::parse("-3.11"), None);
    assert_eq!(Version::parse("3.x"), None);
    assert_eq!(Version::parse("4294967295.0"), Some(Version { major: u32::MAX, minor: 0 }));
    assert_eq!(Version::parse("4294967296.0"), None);
}

#[test]
fn version_range_bounds_are_inclusive() {
    let min = Version { major: 3, minor: 9 };
    let max = Version { major: 3, minor: 12 };
    assert!(min.in_range(min, Some(max)));
    assert!(max.in_range(min, Some(max)));
    assert!(Version { major: 4, minor: 0 }.in_range(min, None));
    assert!(!Version { major: 4, minor: 0 }.in_range(min, Some(max)));
    assert!(!Version { major: 2, minor: 99 }.in_range(min, None));
    assert!(Version { major: 2, minor: 99 }.before(&min));
    assert!(!(min < min));
    assert!(min <= min);
}
