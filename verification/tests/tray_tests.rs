use pikman_update_manager::tray::{
    count_listed_package, count_text, has_pending_updates, main_page_count_texts, update_icon_name, PikmanTray,
    COUNT_CALCULATING,
};

#[test]
fn icon_for_counts() {
    assert_eq!(update_icon_name(2, 0), "update-high");
    assert_eq!(update_icon_name(1, 0), "update-none");
    assert_eq!(update_icon_name(1, 1), "update-high");
    assert_eq!(update_icon_name(-1, -1), "update-none");
    assert!(has_pending_updates(0, 2));
    assert!(!has_pending_updates(1, 0));
}

#[test]
fn count_texts() {
    assert_eq!(count_text(-1, -1, "calculating"), "calculating");
    assert_eq!(count_text(5, -1, "calculating"), "5");
    assert_eq!(count_text(-1, -2, "calculating"), "-1");
    assert_eq!(COUNT_CALCULATING, -1);
}

#[test]
fn main_page_counts() {
    let (total, apt, flatpak) = main_page_count_texts(-1, -1, "...");
    assert_eq!(total, "...");
    assert_eq!(apt, "...");
    assert_eq!(flatpak, "...");
    let (total, apt, flatpak) = main_page_count_texts(3, 4, "...");
    assert_eq!(total, "7");
    assert_eq!(apt, "3");
    assert_eq!(flatpak, "4");
}

#[test]
fn tray_defaults() {
    let t = PikmanTray::new();
    assert_eq!(t.icon_name(), "help-about");
    assert_eq!(t.apt_item_text(), "?");
    assert_eq!(t.flatpak_item_text(), "?");
}

#[test]
fn tray_update_counts() {
    let mut t = PikmanTray::new();
    assert!(t.update_counts(3, -1, "APT: {NUM}", "Flatpak: {NUM}", "calculating"));
    assert_eq!(t.icon_name(), "update-high");
    assert_eq!(t.apt_item_text(), "APT: 3");
    assert_eq!(t.flatpak_item_text(), "Flatpak: calculating");
}

#[test]
fn tray_bad_template_leaves_tray() {
    let mut t = PikmanTray::new();
    assert!(!t.update_counts(3, 1, "APT: {COUNT}", "Flatpak: {NUM}", "calculating"));
    assert_eq!(t.icon_name(), "help-about");
    assert_eq!(t.apt_item_text(), "?");
}

#[test]
fn counting_listed_packages() {
    let mut count: i32 = 0;
    assert!(!count_listed_package(&mut count, false));
    assert!(count_listed_package(&mut count, true));
    assert_eq!(count, 2);
}
