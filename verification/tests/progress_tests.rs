use pikman_update_manager::progress::{
    plain_item_message, AptInstallProgressSocket, AptUpdateProgressSocket, ItemEvent,
    DEFAULT_PULSE_INTERVAL,
};

#[test]
fn install_progress_keeps_its_sockets() {
    let p = AptInstallProgressSocket::new(
        "/tmp/pika_apt_upgrade_percent.sock",
        "/tmp/pika_apt_upgrade_status.sock",
        "Error on {PKGNAME}: {ERROR}".to_string(),
    );
    assert_eq!(p.get_percent_socket_path(), "/tmp/pika_apt_upgrade_percent.sock");
    assert_eq!(p.get_status_socket_path(), "/tmp/pika_apt_upgrade_status.sock");
}

#[test]
fn install_progress_error_message() {
    let p = AptInstallProgressSocket::new("a", "b", "Error on {PKGNAME}: {ERROR}".to_string());
    assert_eq!(
        p.error_message("vim", "broken"),
        Some("Error on vim: broken".to_string())
    );
}

#[test]
fn install_progress_bad_template_gives_none() {
    let p = AptInstallProgressSocket::new("a", "b", "Error on {NAME}".to_string());
    assert_eq!(p.error_message("vim", "broken"), None);
}

#[test]
fn update_progress_starts_with_default_interval() {
    let p = AptUpdateProgressSocket::new("p", "s", "sp", "hit {DESC}", "get {DESC}", "done {SHORT_DESC}", "fail {DESC}");
    assert_eq!(p.pulse_interval(), 1000000);
    assert_eq!(DEFAULT_PULSE_INTERVAL, 1000000);
    assert_eq!(p.get_percent_socket_path(), "p");
    assert_eq!(p.get_status_socket_path(), "s");
    assert_eq!(p.get_speed_socket_path(), "sp");
}

#[test]
fn update_progress_item_messages_use_their_templates() {
    let p = AptUpdateProgressSocket::new("p", "s", "sp", "Hit: {DESC}", "Get: {DESC} ({SHORT_DESC})", "Done: {SHORT_DESC}", "Fail: {DESC}");
    assert_eq!(p.item_message(ItemEvent::Hit, "main", "m", 0), Some("Hit: main m 0".to_string()));
    assert_eq!(p.item_message(ItemEvent::Fetch, "main", "m", 2048), Some("Get: main (m) m 2048".to_string()));
    assert_eq!(p.item_message(ItemEvent::Done, "main", "m", 7), Some("Done: m".to_string()));
    assert_eq!(p.item_message(ItemEvent::Fail, "main", "m", 7), Some("Fail: main".to_string()));
    assert_eq!(p.item_message(ItemEvent::Fetch, "main", "{", 5), Some("Get: main ({) { 5".to_string()));
}

#[test]
fn update_progress_records_pulses() {
    let mut p = AptUpdateProgressSocket::new("p", "s", "sp", "", "", "", "");
    assert_eq!(p.record_pulse(500), 0);
    assert_eq!(p.record_pulse(1500), 500);
    assert_eq!(p.record_pulse(1500), 1500);
    assert_eq!(p.pulse_interval(), 1000000);
}

#[test]
fn plain_item_messages() {
    assert_eq!(plain_item_message(ItemEvent::Hit, "http://x stable InRelease", "InRelease", 120), "Up-to-date: http://x stable InRelease InRelease 120");
    assert_eq!(plain_item_message(ItemEvent::Fetch, "d", "s", 4096), "Downloading: d s 4096");
    assert_eq!(plain_item_message(ItemEvent::Done, "d", "s", 4096), "Download Successful: d s");
    assert_eq!(plain_item_message(ItemEvent::Fail, "d", "s", 4096), "Download Failed!: d s");
}
