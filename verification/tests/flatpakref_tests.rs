use pikman_update_manager::flatpakref::{read_flatpakref, FlatpakRefDialog, FlatpakRefSource};

const REF_TEXT: &str = "[Flatpak Ref]\nName=org.gnome.Maps\nBranch=stable\nSuggestRemoteName=flathub\nRuntimeRepo=https://dl.flathub.org/repo/flathub.flatpakrepo\n";

#[test]
fn reads_flatpakref_fields() {
    let f = read_flatpakref(REF_TEXT.to_string()).expect("valid file");
    assert_eq!(f.name, Some("org.gnome.Maps".to_string()));
    assert_eq!(f.suggest_remote_name, Some("flathub".to_string()));
    assert_eq!(
        f.runtime_repo,
        Some("https://dl.flathub.org/repo/flathub.flatpakrepo".to_string())
    );
}

#[test]
fn missing_fields_are_none() {
    let f = read_flatpakref("[Flatpak Ref]\nName=org.gnome.Maps\n".to_string()).expect("valid file");
    assert_eq!(f.name, Some("org.gnome.Maps".to_string()));
    assert_eq!(f.suggest_remote_name, None);
    assert_eq!(f.runtime_repo, None);
}

#[test]
fn invalid_ini_is_none() {
    assert!(read_flatpakref("[Flatpak Ref\nName=x\n".to_string()).is_none());
}

#[test]
fn dialog_starts_disabled() {
    let d = FlatpakRefDialog::new();
    assert!(!d.add_enabled);
    assert_eq!(d.label, "");
    assert_eq!(d.remote_to_add(), None);
}

#[test]
fn dialog_with_full_flatpakref() {
    let mut d = FlatpakRefDialog::new();
    assert!(d.update(FlatpakRefSource::Text(REF_TEXT.to_string()), "Install {NAME} from {REMOTE}"));
    assert!(d.add_enabled);
    assert_eq!(d.label, "Install org.gnome.Maps from flathub");
    assert_eq!(
        d.remote_to_add(),
        Some((
            "flathub".to_string(),
            "https://dl.flathub.org/repo/flathub.flatpakrepo".to_string()
        ))
    );
}

#[test]
fn dialog_empty_path_disables() {
    let mut d = FlatpakRefDialog::new();
    d.update(FlatpakRefSource::Text(REF_TEXT.to_string()), "Install {NAME} from {REMOTE}");
    assert!(d.update(FlatpakRefSource::EmptyPath, "Install {NAME} from {REMOTE}"));
    assert!(!d.add_enabled);
    assert_eq!(d.label, "");
    assert!(d.remote_to_add().is_some());
    assert!(d.update(FlatpakRefSource::Unreadable, "x"));
    assert!(!d.add_enabled);
}

#[test]
fn dialog_without_remote_name() {
    let mut d = FlatpakRefDialog::new();
    assert!(d.update(FlatpakRefSource::Text("[Flatpak Ref]\nName=org.gnome.Maps\n".to_string()), "Install {NAME} from {REMOTE}"));
    assert!(d.add_enabled);
    assert_eq!(d.label, "");
    assert_eq!(d.remote_to_add(), None);
}

#[test]
fn dialog_bad_template_leaves_dialog() {
    let mut d = FlatpakRefDialog::new();
    assert!(!d.update(FlatpakRefSource::Text(REF_TEXT.to_string()), "Install {APP}"));
    assert!(!d.add_enabled);
    assert_eq!(d.label, "");
}
