use spotify_tui::update::{
    build_result, check, fresh_result, is_newer, normalize, parse_semver, update_checks_enabled,
    Cache,
};

#[test]
fn semver_compare() {
    assert!(is_newer("v1.2.4", "1.2.3"));
    assert!(!is_newer("v1.2.3", "1.2.3"));
    assert!(!is_newer("v1.2.3", "1.3.0"));
}

#[test]
fn semver_edge_cases() {
    assert!(is_newer(" v2.0 ", "1.9.9"));
    assert!(is_newer("1.2.3-beta", "1.2.2"));
    assert!(!is_newer("1.2.3+build", "1.2.3"));
    assert!(!is_newer("2.0.0", "dev"));
    assert!(!is_newer("", "1.0.0"));
    assert!(!is_newer("abc", "1.0.0"));
    assert!(!is_newer("2", "1.0.0"));
    assert!(is_newer("vv1.0.1", "1.0.0"));
}

#[test]
fn normalize_and_parse() {
    let n: String = normalize("  v1.4.0-rc1 ").into_iter().collect();
    assert_eq!(n, "1.4.0");
    assert_eq!(parse_semver(&['1', '.', '2']), Some([1, 2, 0]));
    assert_eq!(parse_semver(&['1', '.', '2', '.', '3', '.', 'x']), Some([1, 2, 3]));
    assert_eq!(parse_semver(&['1']), None);
    assert_eq!(parse_semver(&['1', '.', 'x']), None);
    assert_eq!(parse_semver(&['+', '1', '.', '2']), Some([1, 2, 0]));
}

#[test]
fn result_message() {
    let r = build_result("1.0.0", "v1.1.0", 77);
    assert!(r.update_available);
    assert_eq!(r.message, "Update available: v1.1.0 (brew upgrade spotify-tui-rs)");
    assert_eq!(r.checked_at, 77);
    let same = build_result("1.1.0", "v1.1.0", 5);
    assert!(!same.update_available);
    assert_eq!(same.message, "");
}

#[test]
fn cache_freshness() {
    let fresh = Cache { latest: "v9.0.0".to_string(), checked_at: 1000 };
    let r = check("1.0.0", false, 1000 + 86399, Some(fresh)).unwrap();
    assert!(r.update_available);
    assert_eq!(r.checked_at, 1000);
    let stale = Cache { latest: "v9.0.0".to_string(), checked_at: 1000 };
    assert!(check("1.0.0", false, 1000 + 86400, Some(stale)).is_none());
    let forced = Cache { latest: "v9.0.0".to_string(), checked_at: 1000 };
    assert!(check("1.0.0", true, 1001, Some(forced)).is_none());
    let empty = Cache { latest: String::new(), checked_at: 1000 };
    assert!(check("1.0.0", false, 1001, Some(empty)).is_none());
    assert!(check("1.0.0", false, 1001, None).is_none());
    let (res, cache) = fresh_result("1.0.0", "v1.0.1", 42);
    assert!(res.update_available);
    assert_eq!(cache.latest, "v1.0.1");
    assert_eq!(cache.checked_at, 42);
}

#[test]
fn update_check_setting() {
    assert!(update_checks_enabled(None));
    assert!(update_checks_enabled(Some(" FALSE ".to_string())));
    assert!(update_checks_enabled(Some("0".to_string())));
    assert!(update_checks_enabled(Some("no".to_string())));
    assert!(!update_checks_enabled(Some("1".to_string())));
    assert!(!update_checks_enabled(Some("yes".to_string())));
}
