use pikman_update_manager::version_diff::get_diff_by_prefix;

fn diff(a: &str, b: &str) -> (String, String, String) {
    get_diff_by_prefix(a, b)
}

#[test]
fn diff_splits_shared_start() {
    assert_eq!(
        diff("1.2.3", "1.2.4"),
        ("1.2.".to_string(), "3".to_string(), "4".to_string())
    );
    assert_eq!(
        diff("2:1.0-1", "2:1.1-1"),
        ("2:1.".to_string(), "0-1".to_string(), "1-1".to_string())
    );
}

#[test]
fn diff_of_unrelated_versions_has_empty_shared_part() {
    assert_eq!(
        diff("1.0", "2.0"),
        ("".to_string(), "1.0".to_string(), "2.0".to_string())
    );
}

#[test]
fn diff_of_identical_versions() {
    assert_eq!(
        diff("5.4.0", "5.4.0"),
        ("5.4.0".to_string(), "".to_string(), "".to_string())
    );
}

#[test]
fn diff_is_symmetric() {
    let (b1, x1, y1) = diff("10.2.1", "10.3");
    let (b2, x2, y2) = diff("10.3", "10.2.1");
    assert_eq!(b1, b2);
    assert_eq!(x1, y2);
    assert_eq!(y1, x2);
}

#[test]
fn diff_trims_repeated_shared_part() {
    assert_eq!(
        diff("aa", "a"),
        ("a".to_string(), "".to_string(), "".to_string())
    );
}

#[test]
fn diff_parts_reassemble() {
    let (base, rest, _) = diff("1.2.3~rc1", "1.2.10");
    assert_eq!(format!("{}{}", base, rest), "1.2.3~rc1");
}
