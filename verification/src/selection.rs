use vstd::prelude::*;
use crate::exclusions::{exclude_package, include_package, strings_view};
use crate::text::{contains_str, has_substring, lowercase, to_lowercase, str_eq};

verus! {

/// Some row of the list is unmarked.
pub open spec fn some_unmarked(marks: Seq<bool>) -> bool {
    exists|i: int| 0 <= i < marks.len() && !#[trigger] marks[i]
}

/// No row of the list is marked.
pub open spec fn none_marked(marks: Seq<bool>) -> bool {
    forall|i: int| 0 <= i < marks.len() ==> !#[trigger] marks[i]
}

/// Every row of the list has the mark `value`.
pub open spec fn all_set_to(marks: Seq<bool>, value: bool) -> bool {
    forall|i: int| 0 <= i < marks.len() ==> #[trigger] marks[i] == value
}

/// Whether some row of the list is unmarked, so that the selection button offers to select
/// all of them.
pub fn is_widget_select_all_ready(marks: &Vec<bool>) -> (r: bool)
    ensures
        r == some_unmarked(marks@),
{
    let mut i: usize = 0;
    while i < marks.len()
        invariant
            i <= marks.len(),
            forall|j: int| 0 <= j < i ==> #[trigger] marks@[j],
        decreases marks.len() - i,
    {
        if !marks[i] {
            return true;
        }
        i = i + 1;
    }
    false
}

/// Whether no row of the list is marked, so that there is nothing to update.
pub fn is_all_children_unmarked(marks: &Vec<bool>) -> (r: bool)
    ensures
        r == none_marked(marks@),
{
    let mut i: usize = 0;
    while i < marks.len()
        invariant
            i <= marks.len(),
            forall|j: int| 0 <= j < i ==> !#[trigger] marks@[j],
        decreases marks.len() - i,
    {
        if marks[i] {
            return false;
        }
        i = i + 1;
    }
    true
}

/// Marks or unmarks every row of the list.
pub fn set_all_row_marks_to(marks: &mut Vec<bool>, value: bool)
    ensures
        final(marks)@.len() == old(marks)@.len(),
        all_set_to(final(marks)@, value),
{
    let mut i: usize = 0;
    while i < marks.len()
        invariant
            i <= marks.len(),
            marks@.len() == old(marks)@.len(),
            forall|j: int| 0 <= j < i ==> #[trigger] marks@[j] == value,
        decreases marks.len() - i,
    {
        marks.set(i, value);
        i = i + 1;
    }
}

/// The label the selection button shows.
#[derive(Clone, Copy, PartialEq, Eq, Structural)]
pub enum SelectButtonLabel {
    /// "Select all": some row is unmarked.
    SelectAll,
    /// "Deselect all": every row is marked.
    DeselectAll,
}

/// What a click on the selection button marks every row as: `true` where it shows the
/// select-all label, `false` where it shows the deselect-all label.
pub fn select_button_target(label: &str, select_all_label: &str, deselect_all_label: &str) -> (r:
    bool)
    requires
        label@ == select_all_label@ || label@ == deselect_all_label@,
    ensures
        r == (label@ == select_all_label@),
{
    str_eq(label, select_all_label)
}

/// The state of the page's buttons after a row was marked (`now_marked`) or unmarked: the
/// selection button's label, and whether the update button can be pressed.
pub fn buttons_after_mark_change(marks: &Vec<bool>, now_marked: bool) -> (r: (SelectButtonLabel, bool))
    ensures
        r.0 == (if now_marked && !some_unmarked(marks@) {
            SelectButtonLabel::DeselectAll
        } else {
            SelectButtonLabel::SelectAll
        }),
        r.1 == !none_marked(marks@),
{
    let label = if now_marked {
        if is_widget_select_all_ready(marks) {
            SelectButtonLabel::SelectAll
        } else {
            SelectButtonLabel::DeselectAll
        }
    } else {
        SelectButtonLabel::SelectAll
    };
    (label, !is_all_children_unmarked(marks))
}

/// Whether a row stays visible for a search: an empty search shows every row; otherwise the
/// lowercased search must occur in the lowercased name.
pub open spec fn search_shows(name: Seq<char>, query: Seq<char>) -> bool {
    query.len() == 0 || has_substring(lowercase(name), lowercase(query))
}

/// Whether a package row stays visible for the text in the search bar.
pub fn row_matches_search(name: &str, query: &str) -> (r: bool)
    ensures
        r == search_shows(name@, query@),
{
    if query.is_empty() {
        return true;
    }
    let lname = to_lowercase(name);
    let lquery = to_lowercase(query);
    contains_str(lname.as_str(), lquery.as_str())
}

/// Whether a flatpak row stays visible for the text in the search bar: its name or its
/// ref name must match.
pub fn flatpak_row_matches_search(name: &str, ref_name: &str, query: &str) -> (r: bool)
    ensures
        r == (query@.len() == 0 || search_shows(name@, query@) || search_shows(ref_name@, query@)),
{
    row_matches_search(name, query) || row_matches_search(ref_name, query)
}

/// Once every row is marked, the selection button no longer offers to select all, and the
/// update button can be pressed where there is a row.
pub proof fn law_select_all_marks_everything(marks: Seq<bool>)
    requires
        all_set_to(marks, true),
    ensures
        !some_unmarked(marks),
        marks.len() > 0 ==> !none_marked(marks),
{
    if marks.len() > 0 {
        assert(marks[0]);
    }
}

/// Once every row is unmarked, there is nothing to update, and the selection button offers to
/// select all where there is a row.
pub proof fn law_deselect_all_unmarks_everything(marks: Seq<bool>)
    requires
        all_set_to(marks, false),
    ensures
        none_marked(marks),
        marks.len() > 0 ==> some_unmarked(marks),
{
    if marks.len() > 0 {
        assert(!marks[0]);
    }
}

/// The names of the unmarked rows of an update page.
pub open spec fn unmarked_names(names: Seq<Seq<char>>, marks: Seq<bool>) -> Set<Seq<char>> {
    Set::new(
        |n: Seq<char>|
            exists|j: int| 0 <= j < names.len() && j < marks.len() && !marks[j] && #[trigger] names[j] == n,
    )
}

/// The marks and the excluded list after row `i` is toggled: a row that becomes unmarked has
/// its name added to the excluded list; a row that becomes marked has every copy of its name
/// taken off.
pub open spec fn after_toggle(names: Seq<Seq<char>>, marks: Seq<bool>, excluded: Seq<Seq<char>>, i: int) -> (
    Seq<bool>,
    Seq<Seq<char>>,
) {
    let now_marked = !marks[i];
    (
        marks.update(i, now_marked),
        if now_marked {
            excluded.filter(|s: Seq<char>| s != names[i])
        } else {
            excluded.push(names[i])
        },
    )
}

/// The marks and the excluded list after the rows are toggled in the order `toggles` gives.
pub open spec fn after_toggles(
    names: Seq<Seq<char>>,
    marks: Seq<bool>,
    excluded: Seq<Seq<char>>,
    toggles: Seq<int>,
) -> (Seq<bool>, Seq<Seq<char>>)
    decreases toggles.len(),
{
    if toggles.len() == 0 {
        (marks, excluded)
    } else {
        let before = after_toggles(names, marks, excluded, toggles.drop_last());
        after_toggle(names, before.0, before.1, toggles.last())
    }
}

/// Handles a click on the check button of row `i` of the apt update page: flips its mark,
/// takes its package name off the excluded list (marked) or adds it (unmarked), and returns
/// the new state of the selection and update buttons.
pub fn toggle_row(marks: &mut Vec<bool>, excluded: &mut Vec<String>, names: &Vec<String>, i: usize) -> (r: (
    SelectButtonLabel,
    bool,
))
    requires
        i < old(marks)@.len(),
        old(marks)@.len() == names@.len(),
    ensures
        (final(marks)@, strings_view(final(excluded)@)) == after_toggle(
            strings_view(names@),
            old(marks)@,
            strings_view(old(excluded)@),
            i as int,
        ),
        r.0 == (if final(marks)@[i as int] && !some_unmarked(final(marks)@) {
            SelectButtonLabel::DeselectAll
        } else {
            SelectButtonLabel::SelectAll
        }),
        r.1 == !none_marked(final(marks)@),
{
    let now_marked = !marks[i];
    marks.set(i, now_marked);
    assert(strings_view(names@)[i as int] == names@[i as int]@);
    if now_marked {
        include_package(excluded, names[i].as_str());
    } else {
        exclude_package(excluded, names[i].as_str());
    }
    buttons_after_mark_change(marks, now_marked)
}

proof fn lemma_toggle_keeps_excluded_unmarked(
    names: Seq<Seq<char>>,
    marks: Seq<bool>,
    excluded: Seq<Seq<char>>,
    i: int,
)
    requires
        names.no_duplicates(),
        marks.len() == names.len(),
        0 <= i < names.len(),
        excluded.to_set() == unmarked_names(names, marks),
    ensures
        after_toggle(names, marks, excluded, i).0.len() == names.len(),
        after_toggle(names, marks, excluded, i).1.to_set() == unmarked_names(
            names,
            after_toggle(names, marks, excluded, i).0,
        ),
{
    broadcast use vstd::seq_lib::group_filter_ensures;
    let m2 = after_toggle(names, marks, excluded, i).0;
    let e2 = after_toggle(names, marks, excluded, i).1;
    let ni = names[i];
    assert forall|n: Seq<char>| e2.to_set().contains(n) == unmarked_names(names, m2).contains(n) by {
        assert(excluded.to_set().contains(n) == unmarked_names(names, marks).contains(n));
        if marks[i] {
            // the row becomes unmarked: its name is added
            assert(e2 == excluded.push(ni));
            vstd::seq_lib::lemma_seq_contains_after_push(excluded, ni, n);
            if n == ni {
                assert(!m2[i] && names[i] == n);
            }
            if unmarked_names(names, m2).contains(n) && n != ni {
                let j = choose|j: int|
                    0 <= j < names.len() && j < m2.len() && !m2[j] && #[trigger] names[j] == n;
                assert(j != i);
                assert(!marks[j]);
            }
            if unmarked_names(names, marks).contains(n) {
                let j = choose|j: int|
                    0 <= j < names.len() && j < marks.len() && !marks[j] && #[trigger] names[j] == n;
                assert(j != i);
                assert(!m2[j]);
            }
        } else {
            // the row becomes marked: every copy of its name goes
            let f = |s: Seq<char>| s != ni;
            assert(f =~= (|s: Seq<char>| s != names[i]));
            assert(e2 == excluded.filter(f));
            if excluded.filter(f).contains(n) {
                excluded.lemma_filter_contains_rev(f, n);
                let k = choose|k: int| 0 <= k < excluded.filter(f).len() && excluded.filter(f)[k] == n;
                excluded.lemma_filter_pred(f, k);
            }
            if excluded.contains(n) && n != ni {
                let k = choose|k: int| 0 <= k < excluded.len() && excluded[k] == n;
                excluded.lemma_filter_contains(f, k);
            }
            if unmarked_names(names, m2).contains(n) {
                let j = choose|j: int|
                    0 <= j < names.len() && j < m2.len() && !m2[j] && #[trigger] names[j] == n;
                assert(j != i);
                assert(!marks[j]);
                assert(n != ni);
            }
            assert(e2.to_set().contains(n) == (excluded.contains(n) && n != ni));
            if unmarked_names(names, marks).contains(n) && n != ni {
                let j = choose|j: int|
                    0 <= j < names.len() && j < marks.len() && !marks[j] && #[trigger] names[j] == n;
                assert(j != i);
                assert(!m2[j]);
            }
        }
    }
    assert(e2.to_set() =~= unmarked_names(names, m2));
}

/// On the apt update page, whose rows all start marked with nothing excluded, the excluded
/// list holds, after any sequence of clicks on the rows, exactly the names of the unmarked
/// rows (for rows of distinct package names). The update button then can be pressed exactly
/// where some row is marked, as `toggle_row` returns it.
pub proof fn law_excluded_names_are_unmarked_rows(names: Seq<Seq<char>>, toggles: Seq<int>)
    requires
        names.no_duplicates(),
        forall|k: int| 0 <= k < toggles.len() ==> 0 <= #[trigger] toggles[k] < names.len(),
    ensures
        ({
            let s = after_toggles(names, Seq::new(names.len(), |j: int| true), Seq::empty(), toggles);
            &&& s.0.len() == names.len()
            &&& s.1.to_set() == unmarked_names(names, s.0)
        }),
    decreases toggles.len(),
{
    let start = Seq::new(names.len(), |j: int| true);
    if toggles.len() == 0 {
        assert(Seq::<Seq<char>>::empty().to_set() =~= unmarked_names(names, start));
    } else {
        law_excluded_names_are_unmarked_rows(names, toggles.drop_last());
        let before = after_toggles(names, start, Seq::empty(), toggles.drop_last());
        assert(toggles.last() == toggles[toggles.len() - 1]);
        lemma_toggle_keeps_excluded_unmarked(names, before.0, before.1, toggles.last());
    }
}

} // verus!
