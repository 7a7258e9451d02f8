use pikman_update_manager::exclusions::{
    exclude_package, exclusion_entry_json, exclusions_from_entries, include_package, is_excluded,
    remove_all_equal,
};

fn names(v: &[&str]) -> Vec<String> {
    v.iter().map(|s| s.to_string()).collect()
}

#[test]
fn excluded_when_a_name_occurs_in_it() {
    let ex = names(&["linux-image"]);
    assert!(is_excluded("linux-image-6.8-amd64", &ex));
    assert!(!is_excluded("vim", &ex));
    assert!(!is_excluded("vim", &Vec::new()));
}

#[test]
fn remove_all_equal_keeps_others_in_order() {
    let mut ex = names(&["a", "b", "a", "c"]);
    remove_all_equal(&mut ex, "a");
    assert_eq!(ex, names(&["b", "c"]));
}

#[test]
fn exclude_then_include_restores() {
    let mut ex = names(&["firefox"]);
    exclude_package(&mut ex, "vim");
    assert_eq!(ex, names(&["firefox", "vim"]));
    assert!(is_excluded("vim", &ex));
    include_package(&mut ex, "vim");
    assert_eq!(ex, names(&["firefox"]));
}

#[test]
fn include_removes_every_copy() {
    let mut ex = names(&["vim", "vim"]);
    include_package(&mut ex, "vim");
    assert!(ex.is_empty());
}

#[test]
fn entry_json_text() {
    assert_eq!(exclusion_entry_json("vim"), "{\"package\":\"vim\"}");
}

#[test]
fn entries_without_names_are_skipped() {
    let entries = vec![Some("a".to_string()), None, Some("b".to_string())];
    assert_eq!(exclusions_from_entries(&entries), names(&["a", "b"]));
    assert!(exclusions_from_entries(&Vec::new()).is_empty());
}
