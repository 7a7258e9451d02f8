use pikman_update_manager::main_window::{
    auto_check_wait_millis, command_line_actions, internet_check_delay_secs, locale_from_lang,
    refresh_plan, take_first_flatpak_run, take_initiated_by_main, Connectivity, LoopMessage,
};

fn args(v: &[&str]) -> Vec<String> {
    v.iter().map(|s| s.to_string()).collect()
}

#[test]
fn locale_from_lang_value() {
    assert_eq!(locale_from_lang("en_US.UTF-8"), "en_US");
    assert_eq!(locale_from_lang("C"), "C");
}

#[test]
fn plain_command_line_presents_window() {
    let a = command_line_actions(&args(&["pikman-update-manager"]), false);
    assert!(a.present_window);
    assert!(!a.open_software_properties);
    assert!(!a.open_flatpak_settings);
    assert_eq!(a.flatpak_installer_entry, None);
    let a = command_line_actions(&args(&["pikman-update-manager"]), true);
    assert!(!a.present_window);
}

#[test]
fn hidden_command_line() {
    let a = command_line_actions(&args(&["x", "--hidden"]), false);
    assert!(!a.present_window);
}

#[test]
fn page_flags() {
    let a = command_line_actions(&args(&["x", "--software-properties", "--flatpak-settings"]), false);
    assert!(a.present_window);
    assert!(a.open_software_properties);
    assert!(a.open_flatpak_settings);
}

#[test]
fn flatpak_installer_argument() {
    let a = command_line_actions(&args(&["x", "--flatpak-installer", "/tmp/app.flatpakref"]), false);
    assert!(!a.present_window);
    assert_eq!(a.flatpak_installer_entry, Some("/tmp/app.flatpakref".to_string()));
    let a = command_line_actions(&args(&["x", "--flatpak-installer"]), false);
    assert_eq!(a.flatpak_installer_entry, Some(String::new()));
}

#[test]
fn refresh_plans() {
    let p = refresh_plan("main_update_page");
    assert!(p.reset_flatpak_ran_once && p.retry_apt && !p.retry_flatpak);
    let p = refresh_plan("apt_manage_page");
    assert!(!p.reset_flatpak_ran_once && p.retry_apt && !p.retry_flatpak);
    let p = refresh_plan("flatpak_update_page");
    assert!(!p.reset_flatpak_ran_once && !p.retry_apt && p.retry_flatpak);
    let p = refresh_plan("about");
    assert!(!p.reset_flatpak_ran_once && !p.retry_apt && !p.retry_flatpak);
}

#[test]
fn connectivity_reconnect_hides_banner() {
    let mut c = Connectivity::new();
    assert!(!c.internet_connected);
    assert!(!c.handle_message(LoopMessage::InternetStatus(false), "No internet"));
    assert!(!c.internet_connected);
    assert!(c.banner_revealed);
    assert_eq!(c.banner_title, "No internet");
    assert!(!c.handle_message(LoopMessage::InternetStatus(true), "No internet"));
    assert!(c.internet_connected);
    assert!(!c.banner_revealed);
    assert!(c.handle_message(LoopMessage::RefreshRequest, "No internet"));
    assert!(c.internet_connected);
}

#[test]
fn connectivity_keeps_other_banner() {
    let mut c = Connectivity::new();
    c.banner_title = "Other".to_string();
    c.banner_revealed = true;
    c.handle_message(LoopMessage::InternetStatus(true), "No internet");
    assert!(c.banner_revealed);
}

#[test]
fn delays() {
    assert_eq!(internet_check_delay_secs(true), 60);
    assert_eq!(internet_check_delay_secs(false), 0);
    assert_eq!(auto_check_wait_millis(true, 3600000), Some(3600000));
    assert_eq!(auto_check_wait_millis(false, 3600000), None);
}

#[test]
fn one_shot_flags() {
    let mut ran = false;
    assert!(take_first_flatpak_run(&mut ran));
    assert!(!take_first_flatpak_run(&mut ran));
    let mut by_main = true;
    assert!(take_initiated_by_main(&mut by_main));
    assert!(!take_initiated_by_main(&mut by_main));
}
