use pikman_update_manager::apt_packages::{
    join_strings, placeholder_package, upgradable_packages, AptUpgradeEntry,
};

fn entry(name: &str, installed: Option<&str>, delete: bool) -> AptUpgradeEntry {
    AptUpgradeEntry {
        name: name.to_string(),
        arch: "amd64".to_string(),
        installed_version: installed.map(|s| s.to_string()),
        candidate_version: "2.0".to_string(),
        description: None,
        uris: vec!["http://a/x.deb".to_string(), "http://b/x.deb".to_string()],
        maintainer: Some("Dev <dev@example.org>".to_string()),
        size: 10,
        installed_size: 20,
        marked_delete: delete,
    }
}

#[test]
fn join_strings_puts_separator_between() {
    let v = vec!["a".to_string(), "b".to_string(), "c".to_string()];
    assert_eq!(join_strings(&v, ", "), "a, b, c");
    assert_eq!(join_strings(&Vec::new(), ", "), "");
    assert_eq!(join_strings(&vec!["x".to_string()], "\n"), "x");
}

#[test]
fn upgradable_packages_lists_non_removals() {
    let entries = vec![entry("vim", Some("1.0"), false), entry("gone", Some("1.0"), true), entry("new", None, false)];
    let list = upgradable_packages(&entries, "To be installed", "Unknown");
    assert_eq!(list.len(), 2);
    assert_eq!(list[0].name, "vim");
    assert_eq!(list[0].installed_version, "1.0");
    assert_eq!(list[0].description, "Unknown");
    assert_eq!(list[0].source_uri, "http://a/x.deb\nhttp://b/x.deb");
    assert_eq!(list[0].maintainer, "Dev <dev@example.org>");
    assert!(!list[0].is_last);
    assert_eq!(list[1].name, "new");
    assert_eq!(list[1].installed_version, "To be installed");
    assert!(list[1].is_last);
    assert_eq!(list[1].size, 10);
    assert_eq!(list[1].installed_size, 20);
}

#[test]
fn last_flag_missing_when_last_entry_is_removal() {
    let entries = vec![entry("vim", Some("1.0"), false), entry("gone", Some("1.0"), true)];
    let list = upgradable_packages(&entries, "To be installed", "Unknown");
    assert_eq!(list.len(), 1);
    assert!(!list[0].is_last);
}

#[test]
fn placeholder_package_fields() {
    let p = placeholder_package();
    assert_eq!(p.name, "name");
    assert_eq!(p.arch, "arch");
    assert_eq!(p.installed_version, "0.0");
    assert_eq!(p.candidate_version, "0.0");
    assert_eq!(p.description, "??");
    assert_eq!(p.size, 0);
    assert!(!p.is_last);
}
