use vstd::prelude::*;
use crate::template::{fill_template1, opt_view, strfmt_output, one_var};
use crate::text::{decimal_text, i64_to_decimal};

verus! {

/// The count the pages report while apt or flatpak is still being asked.
pub const COUNT_CALCULATING: i32 = -1;

/// The icon for a number of pending updates: `"update-high"` for more than one update,
/// `"update-none"` otherwise.
pub open spec fn update_icon(total: int) -> Seq<char> {
    if total > 1 {
        "update-high"@
    } else {
        "update-none"@
    }
}

/// The icon the tray and the main page show for the apt and flatpak counts.
pub fn update_icon_name(apt_update_count: i32, flatpak_update_count: i32) -> (r: &'static str)
    requires
        i32::MIN <= apt_update_count + flatpak_update_count <= i32::MAX,
    ensures
        r@ == update_icon(apt_update_count + flatpak_update_count),
{
    if apt_update_count + flatpak_update_count > 1 {
        "update-high"
    } else {
        "update-none"
    }
}

/// Whether the main page announces pending updates (more than one in all).
pub fn has_pending_updates(apt_update_count: i32, flatpak_update_count: i32) -> (r: bool)
    requires
        i32::MIN <= apt_update_count + flatpak_update_count <= i32::MAX,
    ensures
        r == (apt_update_count + flatpak_update_count > 1),
{
    apt_update_count + flatpak_update_count > 1
}

/// The text for a count: `calculating` where the count is `marker`, its decimal text
/// otherwise.
pub open spec fn count_text_spec(count: int, marker: int, calculating: Seq<char>) -> Seq<char> {
    if count == marker {
        calculating
    } else {
        decimal_text(count)
    }
}

/// The text for an update count; `marker` is the value that stands for a count still being
/// calculated (-1 for one source, -2 for the total of two).
pub fn count_text(count: i64, marker: i64, calculating: &str) -> (r: String)
    ensures
        r@ == count_text_spec(count as int, marker as int, calculating@),
{
    if count == marker {
        calculating.to_string()
    } else {
        i64_to_decimal(count)
    }
}

/// The three counts the main page shows: total, apt and flatpak.
pub fn main_page_count_texts(apt_update_count: i32, flatpak_update_count: i32, calculating: &str) -> (r:
    (String, String, String))
    requires
        i32::MIN <= apt_update_count + flatpak_update_count <= i32::MAX,
    ensures
        r.0@ == count_text_spec(apt_update_count + flatpak_update_count, -2, calculating@),
        r.1@ == count_text_spec(apt_update_count as int, -1, calculating@),
        r.2@ == count_text_spec(flatpak_update_count as int, -1, calculating@),
{
    let total: i64 = apt_update_count as i64 + flatpak_update_count as i64;
    (
        count_text(total, -2, calculating),
        count_text(apt_update_count as i64, -1, calculating),
        count_text(flatpak_update_count as i64, -1, calculating),
    )
}

/// The state of the tray icon: its icon and the labels of its two count items.
pub struct PikmanTray {
    pub icon_name: Option<String>,
    pub apt_item_label: Option<String>,
    pub flatpak_item_label: Option<String>,
}

/// The text a tray field shows: the value where it is set, `fallback` otherwise.
pub open spec fn shown_or(o: Option<String>, fallback: Seq<char>) -> Seq<char> {
    match o {
        Some(s) => s@,
        None => fallback,
    }
}

fn shown_or_exec(o: &Option<String>, fallback: &str) -> (r: String)
    ensures
        r@ == shown_or(*o, fallback@),
{
    match o {
        Some(s) => s.clone(),
        None => fallback.to_string(),
    }
}

/// The label of a tray count item: the count template filled with `NUM` (the count, or
/// `calculating` while it is -1).
pub open spec fn tray_count_label(template: Seq<char>, count: int, calculating: Seq<char>) -> Option<
    Seq<char>,
> {
    strfmt_output(template, one_var("NUM"@, count_text_spec(count, -1, calculating)))
}

impl PikmanTray {
    /// A tray that shows nothing yet.
    pub fn new() -> (r: Self)
        ensures
            r.icon_name is None,
            r.apt_item_label is None,
            r.flatpak_item_label is None,
    {
        PikmanTray { icon_name: None, apt_item_label: None, flatpak_item_label: None }
    }

    /// The icon: the one set, or `"help-about"`.
    pub fn icon_name(&self) -> (r: String)
        ensures
            r@ == shown_or(self.icon_name, "help-about"@),
    {
        shown_or_exec(&self.icon_name, "help-about")
    }

    /// The label of the apt item: the one set, or `"?"`.
    pub fn apt_item_text(&self) -> (r: String)
        ensures
            r@ == shown_or(self.apt_item_label, "?"@),
    {
        shown_or_exec(&self.apt_item_label, "?")
    }

    /// The label of the flatpak item: the one set, or `"?"`.
    pub fn flatpak_item_text(&self) -> (r: String)
        ensures
            r@ == shown_or(self.flatpak_item_label, "?"@),
    {
        shown_or_exec(&self.flatpak_item_label, "?")
    }

    /// Shows new counts: the icon for their sum and both item labels. Returns `false`, and
    /// leaves the tray as it was, where a label template cannot be filled.
    pub fn update_counts(
        &mut self,
        apt_update_count: i32,
        flatpak_update_count: i32,
        apt_template: &str,
        flatpak_template: &str,
        calculating: &str,
    ) -> (ok: bool)
        requires
            i32::MIN <= apt_update_count + flatpak_update_count <= i32::MAX,
        ensures
            ok == (tray_count_label(apt_template@, apt_update_count as int, calculating@) is Some
                && tray_count_label(flatpak_template@, flatpak_update_count as int, calculating@) is Some),
            ok ==> opt_view(final(self).icon_name) == Some(
                update_icon(apt_update_count + flatpak_update_count),
            ),
            ok ==> opt_view(final(self).apt_item_label) == tray_count_label(
                apt_template@,
                apt_update_count as int,
                calculating@,
            ),
            ok ==> opt_view(final(self).flatpak_item_label) == tray_count_label(
                flatpak_template@,
                flatpak_update_count as int,
                calculating@,
            ),
            !ok ==> *final(self) == *old(self),
    {
        let apt_num = count_text(apt_update_count as i64, -1, calculating);
        let flatpak_num = count_text(flatpak_update_count as i64, -1, calculating);
        let apt_label = fill_template1(apt_template, "NUM", apt_num.as_str());
        let flatpak_label = fill_template1(flatpak_template, "NUM", flatpak_num.as_str());
        match (apt_label, flatpak_label) {
            (Some(a), Some(f)) => {
                self.icon_name = Some(update_icon_name(apt_update_count, flatpak_update_count).to_string());
                self.apt_item_label = Some(a);
                self.flatpak_item_label = Some(f);
                true
            },
            _ => false,
        }
    }
}

/// The tray and the main page agree: the icon is the one for pending updates exactly when
/// the main page announces pending updates (more than one in all).
pub proof fn law_icon_marks_pending(total: int)
    ensures
        (update_icon(total) == "update-high"@) == (total > 1),
{
    reveal_strlit("update-high");
    reveal_strlit("update-none");
    assert("update-high"@[7] != "update-none"@[7]);
}

/// Counts one more package listed on the apt update page; returns whether the tray is to be
/// told the counts now, which is after the last package of the list.
pub fn count_listed_package(count: &mut i32, is_last: bool) -> (tell_tray: bool)
    requires
        *old(count) < i32::MAX,
    ensures
        *final(count) == *old(count) + 1,
        tell_tray == is_last,
{
    *count = *count + 1;
    is_last
}

} // verus!
