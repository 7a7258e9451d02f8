use pikman_update_manager::flatpak::{
    remote_list,
    force_delete_follow_up, list_flatpak_refs, remote_worth_fetching, removal_follow_up,
    RemoteRemovalResult, RemovalFollowUp,
    appstream_sync_status, deselect_ref, flatpak_ref_from_info, flatpak_refs_for_update,
    installation_flag, installation_label, placeholder_ref, remote_add_arguments,
    remote_add_enabled, remote_force_delete_arguments, select_ref, summarize_flatpak_update,
    transaction_percent, pick_remote, FlatpakChangesInfo, FlatpakRefStruct, InstalledRefInfo,
    RemoteCandidate, RemoteRefInfo,
};

fn info(name: Option<&str>, remote: Option<RemoteRefInfo>) -> InstalledRefInfo {
    InstalledRefInfo {
        name: name.map(|s| s.to_string()),
        appdata_name: None,
        arch: None,
        appdata_summary: Some("A map app".to_string()),
        installed_size: 300,
        ref_format: "app/org.gnome.Maps/x86_64/stable".to_string(),
        remote,
    }
}

fn row(format: &str, download: u64, installed: u64) -> FlatpakRefStruct {
    FlatpakRefStruct {
        ref_name: "r".to_string(),
        name: "n".to_string(),
        arch: "x86_64".to_string(),
        summary: "s".to_string(),
        remote_name: "flathub".to_string(),
        installed_size_installed: installed,
        installed_size_remote: installed + 1,
        download_size: download,
        ref_format: format.to_string(),
        is_system: true,
        is_last: false,
    }
}

#[test]
fn ref_from_info_fallbacks() {
    let r = flatpak_ref_from_info(&info(None, None), true, false);
    assert_eq!(r.ref_name, "Unknown");
    assert_eq!(r.name, "Unknown");
    assert_eq!(r.arch, "Unknown Arch");
    assert_eq!(r.summary, "A map app");
    assert_eq!(r.remote_name, "Unknown");
    assert_eq!(r.installed_size_remote, 0);
    assert_eq!(r.download_size, 0);
    assert!(r.is_system);
}

#[test]
fn ref_from_info_with_remote() {
    let remote = RemoteRefInfo { remote_name: Some("flathub".to_string()), installed_size: 310, download_size: 90 };
    let mut i = info(Some("org.gnome.Maps"), Some(remote));
    i.appdata_name = Some("Maps".to_string());
    let r = flatpak_ref_from_info(&i, false, true);
    assert_eq!(r.ref_name, "org.gnome.Maps");
    assert_eq!(r.name, "Maps");
    assert_eq!(r.remote_name, "flathub");
    assert_eq!(r.installed_size_installed, 300);
    assert_eq!(r.installed_size_remote, 310);
    assert_eq!(r.download_size, 90);
    assert!(r.is_last);
    assert!(!r.is_system);
}

#[test]
fn refs_for_update_flags_last() {
    let infos = vec![info(Some("a"), None), info(Some("b"), None)];
    let refs = flatpak_refs_for_update(&infos, false);
    assert_eq!(refs.len(), 2);
    assert!(!refs[0].is_last);
    assert!(refs[1].is_last);
    assert_eq!(refs[1].ref_name, "b");
}

#[test]
fn placeholder_ref_fields() {
    let r = placeholder_ref();
    assert_eq!(r.ref_name, "??");
    assert_eq!(r.ref_format, "??");
    assert_eq!(r.download_size, 0);
}

#[test]
fn select_and_deselect_refs() {
    let mut selected = vec![row("a", 1, 1)];
    select_ref(&mut selected, row("b", 2, 2));
    select_ref(&mut selected, row("b", 3, 3));
    assert_eq!(selected.len(), 3);
    assert_eq!(selected[1].ref_format, "b");
    deselect_ref(&mut selected, "b");
    assert_eq!(selected.len(), 1);
    assert_eq!(selected[0].ref_format, "a");
    let d = selected[0].duplicate();
    assert_eq!(d.ref_format, "a");
    assert_eq!(d.download_size, 1);
}

#[test]
fn labels_and_flags() {
    assert_eq!(installation_label(true), "System");
    assert_eq!(installation_label(false), "User");
    assert_eq!(installation_flag(true), "--system");
    assert_eq!(installation_flag(false), "--user");
    assert_eq!(transaction_percent(42), 42);
    assert_eq!(transaction_percent(-3), 0);
}

#[test]
fn appstream_status_text() {
    assert_eq!(appstream_sync_status("System", &Some("flathub".to_string()), "ok"), "System - flathub: ok");
    assert_eq!(appstream_sync_status("User", &None, "ok"), "User - Unknown remote: ok");
}

#[test]
fn remote_command_arguments() {
    assert_eq!(
        remote_add_arguments("flathub", "https://dl.flathub.org/repo/", false),
        vec!["remote-add", "--if-not-exists", "--user", "flathub", "https://dl.flathub.org/repo/"]
    );
    assert_eq!(
        remote_force_delete_arguments("flathub", true),
        vec!["remote-delete", "--force", "--noninteractive", "--system", "flathub"]
    );
    assert!(remote_add_enabled("a", "b"));
    assert!(!remote_add_enabled("", "b"));
    assert!(!remote_add_enabled("a", ""));
}

#[test]
fn flatpak_summary_uses_selection() {
    let sys_all = vec![row("s1", 10, 100), row("s2", 20, 200)];
    let usr_all = vec![row("u1", 5, 50)];
    let sys_sel = vec![row("s2", 20, 200)];
    let (info, sys, usr) = summarize_flatpak_update(Some(&sys_sel), None, &sys_all, &usr_all);
    assert_eq!(info.system_flatref_count, 1);
    assert_eq!(info.user_flatref_count, 1);
    assert_eq!(info.total_download_size, 25);
    assert_eq!(info.total_installed_size, 0);
    assert_eq!(sys, vec!["s2".to_string()]);
    assert_eq!(usr, vec!["u1".to_string()]);
}

#[test]
fn flatpak_changes_info_steps() {
    let mut i = FlatpakChangesInfo::new();
    i.add_system();
    i.add_user();
    i.add_user();
    i.increase_total_download_size_by(7);
    i.increase_total_installed_size_by(5);
    i.decrease_total_installed_size_by(8);
    assert_eq!(i.system_flatref_count, 1);
    assert_eq!(i.user_flatref_count, 2);
    assert_eq!(i.total_download_size, 7);
    assert_eq!(i.total_installed_size, -3);
}

#[test]
fn picks_first_enabled_named_remote_with_ref() {
    let c = |d: bool, n: bool, f: bool| RemoteCandidate { is_disabled: d, has_name: n, ref_fetched: f };
    assert_eq!(pick_remote(&vec![c(true, true, true), c(false, false, true), c(false, true, false), c(false, true, true), c(false, true, true)]), Some(3));
    assert_eq!(pick_remote(&vec![c(true, true, true)]), None);
    assert_eq!(pick_remote(&Vec::new()), None);
}

#[test]
fn remote_removal_follow_ups() {
    assert!(matches!(removal_follow_up(RemoteRemovalResult::Removed, "in use"), RemovalFollowUp::RetryBoth));
    match removal_follow_up(RemoteRemovalResult::InUse("Remote used".to_string()), "Force it?") {
        RemovalFollowUp::ConfirmForceDelete(t) => assert_eq!(t, "Remote used\nForce it?"),
        _ => panic!("expected a confirmation"),
    }
    match removal_follow_up(RemoteRemovalResult::Failed("boom".to_string()), "Force it?") {
        RemovalFollowUp::ShowError(t) => assert_eq!(t, "boom"),
        _ => panic!("expected an error"),
    }
    assert!(matches!(force_delete_follow_up(None), RemovalFollowUp::RetryBoth));
    match force_delete_follow_up(Some("denied".to_string())) {
        RemovalFollowUp::ShowError(t) => assert_eq!(t, "denied"),
        _ => panic!("expected an error"),
    }
}

#[test]
fn remote_fetch_decision() {
    assert!(remote_worth_fetching(false, true));
    assert!(!remote_worth_fetching(true, true));
    assert!(!remote_worth_fetching(false, false));
}

#[test]
fn listing_flatpak_refs_counts_and_tells_tray() {
    let mut sys = vec![row("s1", 1, 1), row("s2", 1, 1)];
    sys[1].is_last = true;
    let mut usr = vec![row("u1", 1, 1)];
    usr[0].is_system = false;
    usr[0].is_last = true;
    let mut count: i32 = 0;
    assert_eq!(list_flatpak_refs(&mut count, &sys, &usr), (true, true));
    assert_eq!(count, 3);
    let mut count: i32 = 0;
    assert_eq!(list_flatpak_refs(&mut count, &Vec::new(), &Vec::new()), (false, true));
    assert_eq!(count, 0);
    let mut count: i32 = 5;
    assert_eq!(list_flatpak_refs(&mut count, &vec![row("s1", 1, 1)], &Vec::new()), (true, false));
    assert_eq!(count, 6);
}

#[test]
fn remotes_page_list() {
    let sys = vec!["flathub".to_string(), "fedora".to_string()];
    let usr = vec!["flathub-beta".to_string()];
    let list = remote_list(Some(&sys), Some(&usr));
    let got: Vec<(String, bool)> = list.iter().map(|e| (e.name.clone(), e.is_system)).collect();
    assert_eq!(
        got,
        vec![("flathub".to_string(), true), ("fedora".to_string(), true), ("flathub-beta".to_string(), false)]
    );
    let list = remote_list(None, Some(&usr));
    assert_eq!(list.len(), 1);
    assert!(!list[0].is_system);
    assert!(remote_list(None, None).is_empty());
}
