use pikman_update_manager::template::{fill_template1, fill_template2};

#[test]
fn fill_one_placeholder() {
    assert_eq!(
        fill_template1("{NUM} updates", "NUM", "3"),
        Some("3 updates".to_string())
    );
}

#[test]
fn fill_two_placeholders() {
    assert_eq!(
        fill_template2("Install {NAME} from {REMOTE}?", "NAME", "org.gnome.Maps", "REMOTE", "flathub"),
        Some("Install org.gnome.Maps from flathub?".to_string())
    );
}

#[test]
fn unknown_placeholder_fails() {
    assert_eq!(fill_template1("{OTHER}", "NUM", "3"), None);
}

#[test]
fn template_without_placeholders_is_kept() {
    assert_eq!(fill_template1("nothing", "NUM", "3"), Some("nothing".to_string()));
}
