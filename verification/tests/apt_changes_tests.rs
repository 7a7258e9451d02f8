use pikman_update_manager::apt_changes::{
    action_for, kind_of_change, plan_upgrade, removal_list_text, summarize_changes,
    summarize_changes_checked, upgrade_totals,
    AptChangeMarks, AptChangesInfo, AptResolvedChange, AptUpgradeTotals, CandidateSizes,
    ChangeKind, PlannedAction,
};

fn marks(name: &str, up: bool, inst: bool, down: bool, del: bool) -> AptChangeMarks {
    AptChangeMarks {
        name: name.to_string(),
        marked_upgrade: up,
        marked_install: inst,
        marked_downgrade: down,
        marked_delete: del,
    }
}

#[test]
fn action_from_marks() {
    assert!(action_for(&marks("a", true, false, false, false)) == PlannedAction::Install);
    assert!(action_for(&marks("a", false, true, false, false)) == PlannedAction::Install);
    assert!(action_for(&marks("a", false, false, true, true)) == PlannedAction::Install);
    assert!(action_for(&marks("a", false, false, false, true)) == PlannedAction::Delete);
    assert!(action_for(&marks("a", false, false, false, false)) == PlannedAction::Keep);
}

#[test]
fn plan_skips_excluded_packages() {
    let changes = vec![
        marks("vim", true, false, false, false),
        marks("linux-image-6.8", true, false, false, false),
        marks("old-lib", false, false, false, true),
        marks("foo", false, false, false, false),
    ];
    let (plan, removed) = plan_upgrade(&changes, &vec!["linux-image".to_string()]);
    assert_eq!(plan.len(), 3);
    assert_eq!(plan[0].name, "vim");
    assert!(plan[0].action == PlannedAction::Install);
    assert_eq!(plan[1].name, "old-lib");
    assert!(plan[1].action == PlannedAction::Delete);
    assert_eq!(plan[2].name, "foo");
    assert!(plan[2].action == PlannedAction::Keep);
    assert_eq!(removed, vec!["old-lib".to_string()]);
}

#[test]
fn removal_list_lines() {
    let text = removal_list_text(&vec!["a".to_string(), "b".to_string()]);
    assert_eq!(text, "a\nb\n\n");
    assert_eq!(removal_list_text(&Vec::new()), "\n");
}

fn resolved(up: bool, inst: bool, down: bool, del: bool, installed: Option<u64>, size: u64, isize: u64) -> AptResolvedChange {
    AptResolvedChange {
        name: "p".to_string(),
        is_installed: installed.is_some(),
        current_installed_size: installed.unwrap_or(0),
        marked_upgrade: up,
        marked_install: inst,
        marked_downgrade: down,
        marked_delete: del,
        candidate_size: size,
        candidate_installed_size: isize,
    }
}

#[test]
fn kinds_of_changes() {
    assert!(kind_of_change(&resolved(true, false, false, false, Some(1), 0, 0)) == ChangeKind::Upgrade);
    assert!(kind_of_change(&resolved(true, false, false, false, None, 0, 0)) == ChangeKind::Install);
    assert!(kind_of_change(&resolved(false, true, false, false, None, 0, 0)) == ChangeKind::Install);
    assert!(kind_of_change(&resolved(false, false, true, false, Some(1), 0, 0)) == ChangeKind::Downgrade);
    assert!(kind_of_change(&resolved(false, false, false, true, Some(1), 0, 0)) == ChangeKind::Remove);
    assert!(kind_of_change(&resolved(false, false, false, false, Some(1), 0, 0)) == ChangeKind::Unchanged);
}

#[test]
fn summary_of_changes() {
    let changes = vec![
        resolved(true, false, false, false, Some(100), 50, 120),
        resolved(false, true, false, false, None, 30, 70),
        resolved(false, false, true, false, Some(40), 10, 35),
        resolved(false, false, false, true, Some(200), 999, 999),
    ];
    let info = summarize_changes(&changes);
    assert_eq!(info.package_count_upgrade, 1);
    assert_eq!(info.package_count_install, 1);
    assert_eq!(info.package_count_downgrade, 1);
    assert_eq!(info.package_count_remove, 1);
    assert_eq!(info.total_download_size, 90);
    assert_eq!(info.total_installed_size, -100 + 120 + 70 - 40 + 35 - 200);
}

#[test]
fn changes_info_steps() {
    let mut info = AptChangesInfo::new();
    info.add_upgrade();
    info.add_install();
    info.add_install();
    info.add_downgrade();
    info.add_remove();
    info.increase_total_download_size_by(10);
    info.increase_total_installed_size_by(7);
    info.decrease_total_installed_size_by(9);
    assert_eq!(info.package_count_upgrade, 1);
    assert_eq!(info.package_count_install, 2);
    assert_eq!(info.package_count_downgrade, 1);
    assert_eq!(info.package_count_remove, 1);
    assert_eq!(info.total_download_size, 10);
    assert_eq!(info.total_installed_size, -2);
}

#[test]
fn upgrade_totals_skip_excluded() {
    let changes = vec![
        CandidateSizes { name: "vim".to_string(), size: 5, installed_size: 20 },
        CandidateSizes { name: "linux-image-6.8".to_string(), size: 100, installed_size: 400 },
        CandidateSizes { name: "git".to_string(), size: 7, installed_size: 30 },
    ];
    let t = upgrade_totals(&changes, &vec!["linux-image".to_string()]);
    assert_eq!(t.package_count, 2);
    assert_eq!(t.total_download_size, 12);
    assert_eq!(t.total_installed_size, 50);
    let mut u = AptUpgradeTotals::new();
    u.add_package();
    u.increase_total_download_size_by(3);
    u.increase_total_installed_size_by(4);
    assert_eq!((u.package_count, u.total_download_size, u.total_installed_size), (1, 3, 4));
}

#[test]
fn checked_summary_matches_plain_summary() {
    let changes = vec![
        resolved(true, false, false, false, Some(100), 50, 120),
        resolved(false, false, false, true, Some(200), 999, 999),
    ];
    let info = summarize_changes_checked(&changes).expect("fits");
    assert_eq!(info.package_count_upgrade, 1);
    assert_eq!(info.package_count_remove, 1);
    assert_eq!(info.total_download_size, 50);
    assert_eq!(info.total_installed_size, -100 + 120 - 200);
}

#[test]
fn checked_summary_reports_overflow() {
    let changes = vec![
        resolved(false, true, false, false, None, u64::MAX, 1),
        resolved(false, true, false, false, None, 1, 1),
    ];
    assert!(summarize_changes_checked(&changes).is_none());
    assert!(summarize_changes_checked(&Vec::new()).is_some());
}
