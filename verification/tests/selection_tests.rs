use pikman_update_manager::selection::{
    buttons_after_mark_change, flatpak_row_matches_search, is_all_children_unmarked,
    is_widget_select_all_ready, row_matches_search, select_button_target, set_all_row_marks_to,
    toggle_row, SelectButtonLabel,
};

#[test]
fn select_all_ready_when_some_unmarked() {
    assert!(is_widget_select_all_ready(&vec![true, false, true]));
    assert!(!is_widget_select_all_ready(&vec![true, true]));
    assert!(!is_widget_select_all_ready(&Vec::new()));
}

#[test]
fn all_unmarked_check() {
    assert!(is_all_children_unmarked(&vec![false, false]));
    assert!(!is_all_children_unmarked(&vec![false, true]));
    assert!(is_all_children_unmarked(&Vec::new()));
}

#[test]
fn set_all_marks_then_checks() {
    let mut marks = vec![true, false, true];
    set_all_row_marks_to(&mut marks, true);
    assert_eq!(marks, vec![true, true, true]);
    assert!(!is_widget_select_all_ready(&marks));
    assert!(!is_all_children_unmarked(&marks));
    set_all_row_marks_to(&mut marks, false);
    assert_eq!(marks, vec![false, false, false]);
    assert!(is_all_children_unmarked(&marks));
    assert!(is_widget_select_all_ready(&marks));
}

#[test]
fn select_button_click_target() {
    assert!(select_button_target("Select All", "Select All", "Deselect All"));
    assert!(!select_button_target("Deselect All", "Select All", "Deselect All"));
}

#[test]
fn buttons_after_marking() {
    let (label, update) = buttons_after_mark_change(&vec![true, true], true);
    assert!(label == SelectButtonLabel::DeselectAll);
    assert!(update);
    let (label, update) = buttons_after_mark_change(&vec![true, false], true);
    assert!(label == SelectButtonLabel::SelectAll);
    assert!(update);
    let (label, update) = buttons_after_mark_change(&vec![false, false], false);
    assert!(label == SelectButtonLabel::SelectAll);
    assert!(!update);
}

#[test]
fn search_is_case_insensitive() {
    assert!(row_matches_search("LibreOffice-Writer", "office"));
    assert!(row_matches_search("vim", ""));
    assert!(!row_matches_search("vim", "emacs"));
    assert!(row_matches_search("vim", "VI"));
}

#[test]
fn flatpak_search_checks_name_and_ref() {
    assert!(flatpak_row_matches_search("Maps", "org.gnome.Maps", "gnome"));
    assert!(flatpak_row_matches_search("Maps", "org.gnome.Maps", "MAP"));
    assert!(!flatpak_row_matches_search("Maps", "org.gnome.Maps", "kde"));
}

#[test]
fn toggling_rows_keeps_excluded_names_of_unmarked_rows() {
    let names = vec!["vim".to_string(), "git".to_string()];
    let mut marks = vec![true, true];
    let mut excluded: Vec<String> = Vec::new();
    let (label, update) = toggle_row(&mut marks, &mut excluded, &names, 0);
    assert_eq!(marks, vec![false, true]);
    assert_eq!(excluded, vec!["vim".to_string()]);
    assert!(label == SelectButtonLabel::SelectAll);
    assert!(update);
    toggle_row(&mut marks, &mut excluded, &names, 1);
    assert_eq!(excluded, vec!["vim".to_string(), "git".to_string()]);
    let (_, update) = toggle_row(&mut marks, &mut excluded, &names, 1);
    assert!(update);
    let (_, update) = toggle_row(&mut marks, &mut Vec::new(), &names, 1);
    assert!(!update);
    let mut marks = vec![false, true];
    let mut excluded = vec!["vim".to_string()];
    let (label, update) = toggle_row(&mut marks, &mut excluded, &names, 0);
    assert!(excluded.is_empty());
    assert!(label == SelectButtonLabel::DeselectAll);
    assert!(update);
}
