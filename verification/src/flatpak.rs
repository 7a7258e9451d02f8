use vstd::prelude::*;
use crate::exclusions::strings_view;
use crate::text::str_eq;
use crate::apt_changes::{fits_i64, signed_size};

verus! {

/// A flatpak ref that can be updated, as the flatpak update page lists it.
pub struct FlatpakRefStruct {
    pub ref_name: String,
    pub name: String,
    pub arch: String,
    pub summary: String,
    pub remote_name: String,
    pub installed_size_installed: u64,
    pub installed_size_remote: u64,
    pub download_size: u64,
    pub ref_format: String,
    pub is_system: bool,
    pub is_last: bool,
}

/// The contents of a `FlatpakRefStruct`.
pub ghost struct FlatpakRefView {
    pub ref_name: Seq<char>,
    pub name: Seq<char>,
    pub arch: Seq<char>,
    pub summary: Seq<char>,
    pub remote_name: Seq<char>,
    pub installed_size_installed: u64,
    pub installed_size_remote: u64,
    pub download_size: u64,
    pub ref_format: Seq<char>,
    pub is_system: bool,
    pub is_last: bool,
}

impl View for FlatpakRefStruct {
    type V = FlatpakRefView;

    open spec fn view(&self) -> FlatpakRefView {
        FlatpakRefView {
            ref_name: self.ref_name@,
            name: self.name@,
            arch: self.arch@,
            summary: self.summary@,
            remote_name: self.remote_name@,
            installed_size_installed: self.installed_size_installed,
            installed_size_remote: self.installed_size_remote,
            download_size: self.download_size,
            ref_format: self.ref_format@,
            is_system: self.is_system,
            is_last: self.is_last,
        }
    }
}

/// What the remote offers for an installed ref.
pub struct RemoteRefInfo {
    pub remote_name: Option<String>,
    pub installed_size: u64,
    pub download_size: u64,
}

/// What flatpak reports of an installed ref that has an update.
pub struct InstalledRefInfo {
    pub name: Option<String>,
    pub appdata_name: Option<String>,
    pub arch: Option<String>,
    pub appdata_summary: Option<String>,
    pub installed_size: u64,
    pub ref_format: String,
    /// The ref as the first remote that has it offers it, if any remote does.
    pub remote: Option<RemoteRefInfo>,
}

/// The value, or `fallback` where there is none.
pub open spec fn or_else(o: Option<String>, fallback: Seq<char>) -> Seq<char> {
    match o {
        Some(s) => s@,
        None => fallback,
    }
}

/// The listed ref for an installed ref: unknown names read `"Unknown"`, an unknown
/// architecture `"Unknown Arch"`, a missing summary `"No Summary"`; the display name is the
/// appdata name, else the ref name; without a remote, its name is `"Unknown"` and its sizes 0.
pub open spec fn flatpak_ref_of(info: InstalledRefInfo, is_system: bool, is_last: bool) -> FlatpakRefView {
    FlatpakRefView {
        ref_name: or_else(info.name, "Unknown"@),
        name: match info.appdata_name {
            Some(s) => s@,
            None => or_else(info.name, "Unknown"@),
        },
        arch: or_else(info.arch, "Unknown Arch"@),
        summary: or_else(info.appdata_summary, "No Summary"@),
        remote_name: match info.remote {
            Some(r) => or_else(r.remote_name, "Unknown"@),
            None => "Unknown"@,
        },
        installed_size_installed: info.installed_size,
        installed_size_remote: match info.remote {
            Some(r) => r.installed_size,
            None => 0,
        },
        download_size: match info.remote {
            Some(r) => r.download_size,
            None => 0,
        },
        ref_format: info.ref_format@,
        is_system,
        is_last,
    }
}

fn or_else_exec(o: &Option<String>, fallback: &str) -> (r: String)
    ensures
        r@ == or_else(*o, fallback@),
{
    match o {
        Some(s) => s.clone(),
        None => fallback.to_string(),
    }
}

/// What was learned of one remote while looking for the remote that offers an installed ref.
pub struct RemoteCandidate {
    pub is_disabled: bool,
    pub has_name: bool,
    /// Whether fetching the ref from this remote succeeded.
    pub ref_fetched: bool,
}

/// Whether a remote is the one to take the ref from: enabled, named, and offering the ref.
pub open spec fn remote_offers_ref(c: RemoteCandidate) -> bool {
    !c.is_disabled && c.has_name && c.ref_fetched
}

/// The remote an installed ref is taken from: the first remote, in the order they are listed,
/// that is enabled, has a name and offers the ref; `None` where no remote does.
pub fn pick_remote(remotes: &Vec<RemoteCandidate>) -> (r: Option<usize>)
    ensures
        match r {
            Some(i) => i < remotes@.len() && remote_offers_ref(remotes@[i as int]) && forall|j: int|
                0 <= j < i ==> !remote_offers_ref(#[trigger] remotes@[j]),
            None => forall|j: int| 0 <= j < remotes@.len() ==> !remote_offers_ref(#[trigger] remotes@[j]),
        },
{
    let mut i: usize = 0;
    while i < remotes.len()
        invariant
            i <= remotes.len(),
            forall|j: int| 0 <= j < i ==> !remote_offers_ref(#[trigger] remotes@[j]),
        decreases remotes.len() - i,
    {
        let c = &remotes[i];
        if !c.is_disabled && c.has_name && c.ref_fetched {
            return Some(i);
        }
        i = i + 1;
    }
    None
}

/// The listed ref for an installed ref of the system (`is_system`) or user installation.
pub fn flatpak_ref_from_info(info: &InstalledRefInfo, is_system: bool, is_last: bool) -> (r: FlatpakRefStruct)
    ensures
        r@ == flatpak_ref_of(*info, is_system, is_last),
{
    let ref_name = or_else_exec(&info.name, "Unknown");
    let name = match &info.appdata_name {
        Some(s) => s.clone(),
        None => or_else_exec(&info.name, "Unknown"),
    };
    let (remote_name, installed_size_remote, download_size) = match &info.remote {
        Some(r) => (or_else_exec(&r.remote_name, "Unknown"), r.installed_size, r.download_size),
        None => ("Unknown".to_string(), 0, 0),
    };
    FlatpakRefStruct {
        ref_name,
        name,
        arch: or_else_exec(&info.arch, "Unknown Arch"),
        summary: or_else_exec(&info.appdata_summary, "No Summary"),
        remote_name,
        installed_size_installed: info.installed_size,
        installed_size_remote,
        download_size,
        ref_format: info.ref_format.clone(),
        is_system,
        is_last,
    }
}

/// The contents of each listed ref.
pub open spec fn refs_view(v: Seq<FlatpakRefStruct>) -> Seq<FlatpakRefView> {
    v.map_values(|r: FlatpakRefStruct| r@)
}

/// The listed refs for the installed refs of one installation that have updates, in order;
/// the last one is flagged as last.
pub fn flatpak_refs_for_update(infos: &Vec<InstalledRefInfo>, is_system: bool) -> (r: Vec<FlatpakRefStruct>)
    ensures
        r@.len() == infos@.len(),
        forall|i: int|
            0 <= i < infos@.len() ==> #[trigger] r@[i]@ == flatpak_ref_of(
                infos@[i],
                is_system,
                i == infos@.len() - 1,
            ),
{
    let mut r: Vec<FlatpakRefStruct> = Vec::new();
    let mut i: usize = 0;
    while i < infos.len()
        invariant
            i <= infos.len(),
            r@.len() == i,
            forall|j: int|
                0 <= j < i ==> #[trigger] r@[j]@ == flatpak_ref_of(
                    infos@[j],
                    is_system,
                    j == infos@.len() - 1,
                ),
        decreases infos.len() - i,
    {
        let f = flatpak_ref_from_info(&infos[i], is_system, i + 1 == infos.len());
        r.push(f);
        i = i + 1;
    }
    r
}

/// The placeholder ref a row shows before it is given one.
pub fn placeholder_ref() -> (r: FlatpakRefStruct)
    ensures
        r@ == (FlatpakRefView {
            ref_name: "??"@,
            name: "??"@,
            arch: "??"@,
            summary: "??"@,
            remote_name: "??"@,
            installed_size_installed: 0,
            installed_size_remote: 0,
            download_size: 0,
            ref_format: "??"@,
            is_system: false,
            is_last: false,
        }),
{
    FlatpakRefStruct {
        ref_name: "??".to_string(),
        name: "??".to_string(),
        arch: "??".to_string(),
        summary: "??".to_string(),
        remote_name: "??".to_string(),
        installed_size_installed: 0,
        installed_size_remote: 0,
        download_size: 0,
        ref_format: "??".to_string(),
        is_system: false,
        is_last: false,
    }
}

impl FlatpakRefStruct {
    /// A copy of the ref.
    pub fn duplicate(&self) -> (r: Self)
        ensures
            r@ == self@,
    {
        FlatpakRefStruct {
            ref_name: self.ref_name.clone(),
            name: self.name.clone(),
            arch: self.arch.clone(),
            summary: self.summary.clone(),
            remote_name: self.remote_name.clone(),
            installed_size_installed: self.installed_size_installed,
            installed_size_remote: self.installed_size_remote,
            download_size: self.download_size,
            ref_format: self.ref_format.clone(),
            is_system: self.is_system,
            is_last: self.is_last,
        }
    }
}

/// Adds a ref to those selected for the update (its row was marked).
pub fn select_ref(selected: &mut Vec<FlatpakRefStruct>, flatpak_ref: FlatpakRefStruct)
    ensures
        refs_view(final(selected)@) == refs_view(old(selected)@).push(flatpak_ref@),
{
    let ghost v = flatpak_ref@;
    selected.push(flatpak_ref);
    assert(refs_view(selected@) =~= refs_view(old(selected)@).push(v));
}

/// Drops a ref from those selected for the update (its row was unmarked): every selected ref
/// with that ref format goes, the others keep their order.
pub fn deselect_ref(selected: &mut Vec<FlatpakRefStruct>, ref_format: &str)
    ensures
        refs_view(final(selected)@) == refs_view(old(selected)@).filter(
            |v: FlatpakRefView| v.ref_format != ref_format@,
        ),
{
    let ghost before = refs_view(selected@);
    let mut kept: Vec<FlatpakRefStruct> = Vec::new();
    let mut i: usize = 0;
    while i < selected.len()
        invariant
            i <= selected.len(),
            before == refs_view(selected@),
            refs_view(kept@) == before.take(i as int).filter(
                |v: FlatpakRefView| v.ref_format != ref_format@,
            ),
        decreases selected.len() - i,
    {
        proof {
            reveal_with_fuel(Seq::<_>::filter, 1);
        }
        assert(before.take(i + 1).drop_last() =~= before.take(i as int));
        assert(before.take(i + 1).last() == selected@[i as int]@);
        if !str_eq(selected[i].ref_format.as_str(), ref_format) {
            let r = selected[i].duplicate();
            kept.push(r);
            assert(refs_view(kept@) =~= refs_view(kept@).drop_last().push(r@));
        }
        assert(refs_view(kept@) =~= before.take(i + 1).filter(
            |v: FlatpakRefView| v.ref_format != ref_format@,
        )) by {
            if !(selected@[i as int]@.ref_format != ref_format@) {
                assert(refs_view(kept@) =~= before.take(i as int).filter(
                    |v: FlatpakRefView| v.ref_format != ref_format@,
                ));
            }
        }
        i = i + 1;
    }
    assert(before.take(selected.len() as int) =~= before);
    *selected = kept;
}

/// Selecting a ref whose ref format is not selected yet and then deselecting it again leaves
/// the selection as it was.
pub proof fn law_select_then_deselect_restores(selected: Seq<FlatpakRefView>, r: FlatpakRefView)
    requires
        forall|i: int| 0 <= i < selected.len() ==> (#[trigger] selected[i]).ref_format != r.ref_format,
    ensures
        selected.push(r).filter(|v: FlatpakRefView| v.ref_format != r.ref_format) == selected,
{
    reveal_with_fuel(Seq::<_>::filter, 1);
    assert(selected.push(r).drop_last() =~= selected);
    lemma_filter_keeps_other_formats(selected, r.ref_format);
}

proof fn lemma_filter_keeps_other_formats(selected: Seq<FlatpakRefView>, format: Seq<char>)
    requires
        forall|i: int| 0 <= i < selected.len() ==> (#[trigger] selected[i]).ref_format != format,
    ensures
        selected.filter(|v: FlatpakRefView| v.ref_format != format) == selected,
    decreases selected.len(),
{
    reveal_with_fuel(Seq::<_>::filter, 1);
    if selected.len() > 0 {
        assert forall|i: int| 0 <= i < selected.drop_last().len() implies (
        #[trigger] selected.drop_last()[i]).ref_format != format by {
            assert(selected.drop_last()[i] == selected[i]);
        }
        lemma_filter_keeps_other_formats(selected.drop_last(), format);
        assert(selected.last() == selected[selected.len() - 1]);
        assert(selected.drop_last().push(selected.last()) =~= selected);
    } else {
        assert(selected.filter(|v: FlatpakRefView| v.ref_format != format) =~= selected);
    }
}

/// Whether the remote search fetches the ref from a remote at all: only from an enabled
/// remote that has a name. The search stops at the first fetch that succeeds; `pick_remote`
/// gives where it stops.
pub fn remote_worth_fetching(is_disabled: bool, has_name: bool) -> (r: bool)
    ensures
        r == (!is_disabled && has_name),
{
    !is_disabled && has_name
}

/// How removing a flatpak remote ended.
pub enum RemoteRemovalResult {
    /// The remote was removed.
    Removed,
    /// flatpak refused because refs still use the remote; its error text.
    InUse(String),
    /// Another error; its text.
    Failed(String),
}

/// What the remotes page does after a removal.
pub enum RemovalFollowUp {
    /// Reload both the remotes page and the flatpak update page.
    RetryBoth,
    /// Ask whether to force the removal, with this text.
    ConfirmForceDelete(String),
    /// Show this error.
    ShowError(String),
}

/// What follows a removal: both pages reload after a removal; a remote still in use asks for
/// a forced removal, showing the error, a newline and `in_use_text`; any other error is shown.
pub fn removal_follow_up(result: RemoteRemovalResult, in_use_text: &str) -> (r: RemovalFollowUp)
    ensures
        match result {
            RemoteRemovalResult::Removed => r is RetryBoth,
            RemoteRemovalResult::InUse(e) => r is ConfirmForceDelete && r->ConfirmForceDelete_0@ == e@
                + seq!['\n'] + in_use_text@,
            RemoteRemovalResult::Failed(e) => r is ShowError && r->ShowError_0@ == e@,
        },
{
    match result {
        RemoteRemovalResult::Removed => RemovalFollowUp::RetryBoth,
        RemoteRemovalResult::InUse(e) => {
            let mut body = e;
            body.push('\n');
            body.append(in_use_text);
            RemovalFollowUp::ConfirmForceDelete(body)
        },
        RemoteRemovalResult::Failed(e) => RemovalFollowUp::ShowError(e),
    }
}

/// What follows the forced removal (`remote_force_delete_arguments`) the user confirmed: both
/// pages reload where it succeeded; its error is shown where it failed.
pub fn force_delete_follow_up(error: Option<String>) -> (r: RemovalFollowUp)
    ensures
        match error {
            None => r is RetryBoth,
            Some(e) => r is ShowError && r->ShowError_0@ == e@,
        },
{
    match error {
        None => RemovalFollowUp::RetryBoth,
        Some(e) => RemovalFollowUp::ShowError(e),
    }
}

/// The label of the installation badge of a ref.
pub fn installation_label(is_system: bool) -> (r: &'static str)
    ensures
        r@ == (if is_system { "System"@ } else { "User"@ }),
{
    if is_system {
        "System"
    } else {
        "User"
    }
}

/// The flag that names an installation on the `flatpak` command line.
pub fn installation_flag(is_system: bool) -> (r: &'static str)
    ensures
        r@ == (if is_system { "--system"@ } else { "--user"@ }),
{
    if is_system {
        "--system"
    } else {
        "--user"
    }
}

/// The percentage shown for a transaction's progress: the progress where it is not
/// negative, 0 otherwise.
pub fn transaction_percent(progress: i32) -> (r: u32)
    ensures
        r == (if progress >= 0 { progress as u32 } else { 0u32 }),
{
    if progress >= 0 {
        progress as u32
    } else {
        0
    }
}

/// The status line shown while a remote's appstream data is synced:
/// `"<installation> - <remote>: <status>"`, with `"Unknown remote"` for a nameless remote.
pub fn appstream_sync_status(installation_text: &str, remote_name: &Option<String>, status: &str) -> (r:
    String)
    ensures
        r@ == installation_text@ + " - "@ + or_else(*remote_name, "Unknown remote"@) + ": "@ + status@,
{
    let mut r = installation_text.to_string();
    r.append(" - ");
    let remote = or_else_exec(remote_name, "Unknown remote");
    r.append(remote.as_str());
    r.append(": ");
    r.append(status);
    r
}

/// The arguments of the `flatpak` command that adds the remote a flatpakref suggests.
pub fn remote_add_arguments(remote_name: &str, remote_url: &str, is_system: bool) -> (r: Vec<String>)
    ensures
        strings_view(r@) == seq![
            "remote-add"@,
            "--if-not-exists"@,
            if is_system { "--system"@ } else { "--user"@ },
            remote_name@,
            remote_url@,
        ],
{
    let mut r: Vec<String> = Vec::new();
    r.push("remote-add".to_string());
    r.push("--if-not-exists".to_string());
    r.push(installation_flag(is_system).to_string());
    r.push(remote_name.to_string());
    r.push(remote_url.to_string());
    assert(strings_view(r@) =~= seq![
        "remote-add"@,
        "--if-not-exists"@,
        if is_system { "--system"@ } else { "--user"@ },
        remote_name@,
        remote_url@,
    ]);
    r
}

/// The arguments of the `flatpak` command that force-deletes a remote still in use.
pub fn remote_force_delete_arguments(remote_name: &str, is_system: bool) -> (r: Vec<String>)
    ensures
        strings_view(r@) == seq![
            "remote-delete"@,
            "--force"@,
            "--noninteractive"@,
            if is_system { "--system"@ } else { "--user"@ },
            remote_name@,
        ],
{
    let mut r: Vec<String> = Vec::new();
    r.push("remote-delete".to_string());
    r.push("--force".to_string());
    r.push("--noninteractive".to_string());
    r.push(installation_flag(is_system).to_string());
    r.push(remote_name.to_string());
    assert(strings_view(r@) =~= seq![
        "remote-delete"@,
        "--force"@,
        "--noninteractive"@,
        if is_system { "--system"@ } else { "--user"@ },
        remote_name@,
    ]);
    r
}

/// Whether the remote-add dialog can add: both the name and the URL are filled in.
pub fn remote_add_enabled(name: &str, url: &str) -> (r: bool)
    ensures
        r == (name@.len() > 0 && url@.len() > 0),
{
    !name.is_empty() && !url.is_empty()
}

} // verus!

verus! {

/// Counts and sizes of a flatpak update, as its confirmation dialog shows them.
pub struct FlatpakChangesInfo {
    pub system_flatref_count: u64,
    pub user_flatref_count: u64,
    pub total_download_size: u64,
    pub total_installed_size: i64,
}

impl FlatpakChangesInfo {
    /// An empty summary.
    pub fn new() -> (r: Self)
        ensures
            r.system_flatref_count == 0,
            r.user_flatref_count == 0,
            r.total_download_size == 0,
            r.total_installed_size == 0,
    {
        FlatpakChangesInfo {
            system_flatref_count: 0,
            user_flatref_count: 0,
            total_download_size: 0,
            total_installed_size: 0,
        }
    }

    /// Counts one more ref of the system installation.
    pub fn add_system(&mut self)
        requires
            old(self).system_flatref_count < u64::MAX,
        ensures
            *final(self) == (FlatpakChangesInfo {
                system_flatref_count: (old(self).system_flatref_count + 1) as u64,
                ..*old(self)
            }),
    {
        self.system_flatref_count = self.system_flatref_count + 1;
    }

    /// Counts one more ref of the user installation.
    pub fn add_user(&mut self)
        requires
            old(self).user_flatref_count < u64::MAX,
        ensures
            *final(self) == (FlatpakChangesInfo {
                user_flatref_count: (old(self).user_flatref_count + 1) as u64,
                ..*old(self)
            }),
    {
        self.user_flatref_count = self.user_flatref_count + 1;
    }

    /// Adds to the download total.
    pub fn increase_total_download_size_by(&mut self, value: u64)
        requires
            old(self).total_download_size + value <= u64::MAX,
        ensures
            *final(self) == (FlatpakChangesInfo {
                total_download_size: (old(self).total_download_size + value) as u64,
                ..*old(self)
            }),
    {
        self.total_download_size = self.total_download_size + value;
    }

    /// Adds a size to the installed-size total.
    pub fn increase_total_installed_size_by(&mut self, value: u64)
        requires
            fits_i64(old(self).total_installed_size + signed_size(value)),
        ensures
            *final(self) == (FlatpakChangesInfo {
                total_installed_size: (old(self).total_installed_size + signed_size(value)) as i64,
                ..*old(self)
            }),
    {
        self.total_installed_size = self.total_installed_size + value as i64;
    }

    /// Takes a size off the installed-size total.
    pub fn decrease_total_installed_size_by(&mut self, value: u64)
        requires
            fits_i64(old(self).total_installed_size - signed_size(value)),
        ensures
            *final(self) == (FlatpakChangesInfo {
                total_installed_size: (old(self).total_installed_size - signed_size(value)) as i64,
                ..*old(self)
            }),
    {
        self.total_installed_size = self.total_installed_size - value as i64;
    }
}

/// The sum of the download sizes of some refs.
pub open spec fn download_total(refs: Seq<FlatpakRefStruct>) -> int
    decreases refs.len(),
{
    if refs.len() == 0 {
        0
    } else {
        download_total(refs.drop_last()) + refs.last().download_size
    }
}

/// The ref formats of some refs.
pub open spec fn ref_formats(refs: Seq<FlatpakRefStruct>) -> Seq<Seq<char>> {
    refs.map_values(|r: FlatpakRefStruct| r.ref_format@)
}

/// Whether the installed-size change of a ref can be taken off and added back in an `i64`:
/// its installed size, taken as `i64`, is not `i64::MIN`.
pub open spec fn installed_size_negatable(r: FlatpakRefStruct) -> bool {
    signed_size(r.installed_size_installed) != i64::MIN
}

/// The refs of a selection, where there is one.
pub open spec fn selected_view(o: Option<&Vec<FlatpakRefStruct>>) -> Option<Seq<FlatpakRefStruct>> {
    match o {
        Some(v) => Some(v@),
        None => None,
    }
}

/// The refs an update uses: the selected ones where there is a selection, all otherwise.
pub open spec fn refs_used(selected: Option<Seq<FlatpakRefStruct>>, all: Seq<FlatpakRefStruct>) -> Seq<
    FlatpakRefStruct,
> {
    match selected {
        Some(s) => s,
        None => all,
    }
}

/// Adds the refs of one installation to the summary and collects their ref formats.
fn add_refs(info: &mut FlatpakChangesInfo, refs: &Vec<FlatpakRefStruct>, system: bool) -> (formats: Vec<String>)
    requires
        old(info).total_installed_size == 0,
        old(info).total_download_size + download_total(refs@) <= u64::MAX,
        (if system { old(info).system_flatref_count } else { old(info).user_flatref_count }) + refs@.len()
            <= u64::MAX,
        forall|i: int| 0 <= i < refs@.len() ==> installed_size_negatable(#[trigger] refs@[i]),
    ensures
        final(info).total_installed_size == 0,
        final(info).total_download_size == old(info).total_download_size + download_total(refs@),
        system ==> final(info).system_flatref_count == old(info).system_flatref_count + refs@.len(),
        system ==> final(info).user_flatref_count == old(info).user_flatref_count,
        !system ==> final(info).user_flatref_count == old(info).user_flatref_count + refs@.len(),
        !system ==> final(info).system_flatref_count == old(info).system_flatref_count,
        strings_view(formats@) == ref_formats(refs@),
{
    let mut formats: Vec<String> = Vec::new();
    let mut i: usize = 0;
    while i < refs.len()
        invariant
            i <= refs.len(),
            info.total_installed_size == 0,
            info.total_download_size == old(info).total_download_size + download_total(refs@.take(i as int)),
            old(info).total_download_size + download_total(refs@) <= u64::MAX,
            (if system { old(info).system_flatref_count } else { old(info).user_flatref_count }) + refs@.len()
                <= u64::MAX,
            system ==> info.system_flatref_count == old(info).system_flatref_count + i,
            system ==> info.user_flatref_count == old(info).user_flatref_count,
            !system ==> info.user_flatref_count == old(info).user_flatref_count + i,
            !system ==> info.system_flatref_count == old(info).system_flatref_count,
            forall|j: int| 0 <= j < refs@.len() ==> installed_size_negatable(#[trigger] refs@[j]),
            strings_view(formats@) == ref_formats(refs@.take(i as int)),
        decreases refs.len() - i,
    {
        let r = &refs[i];
        assert(refs@.take(i + 1).drop_last() =~= refs@.take(i as int));
        proof {
            lemma_download_total_prefix(refs@, i + 1);
        }
        if system {
            info.add_system();
        } else {
            info.add_user();
        }
        let installed_size_installed = r.installed_size_installed;
        let installed_size_remote = r.installed_size_installed;
        assert(installed_size_negatable(refs@[i as int]));
        info.decrease_total_installed_size_by(installed_size_installed);
        info.increase_total_installed_size_by(installed_size_remote);
        info.increase_total_download_size_by(r.download_size);
        let f = r.ref_format.clone();
        formats.push(f);
        assert(ref_formats(refs@.take(i + 1)) =~= ref_formats(refs@.take(i as int)).push(f@));
        assert(strings_view(formats@) =~= strings_view(formats@).drop_last().push(f@));
        i = i + 1;
    }
    assert(refs@.take(refs.len() as int) =~= refs@);
    formats
}

proof fn lemma_download_total_prefix(refs: Seq<FlatpakRefStruct>, k: int)
    requires
        0 <= k <= refs.len(),
    ensures
        0 <= download_total(refs.take(k)) <= download_total(refs),
    decreases refs.len(),
{
    if refs.len() > 0 {
        if k == refs.len() {
            assert(refs.take(k) =~= refs);
            lemma_download_total_prefix(refs.drop_last(), 0);
        } else {
            assert(refs.drop_last().take(k) =~= refs.take(k));
            lemma_download_total_prefix(refs.drop_last(), k);
        }
    } else {
        assert(refs.take(k) =~= refs);
    }
}

/// Adds up a flatpak update for its confirmation dialog, with the refs selected in each
/// installation (or all refs of an installation where it has no selection): the number of
/// system and user refs, the bytes to download, and the change of the installed size, which
/// takes off and adds back the same installed size for each ref and so always comes to 0.
/// Also returns the ref formats to update, system ones first.
pub fn summarize_flatpak_update(
    system_selected: Option<&Vec<FlatpakRefStruct>>,
    user_selected: Option<&Vec<FlatpakRefStruct>>,
    system_all: &Vec<FlatpakRefStruct>,
    user_all: &Vec<FlatpakRefStruct>,
) -> (r: (FlatpakChangesInfo, Vec<String>, Vec<String>))
    requires
        ({
            let sys = refs_used(selected_view(system_selected), system_all@);
            let usr = refs_used(selected_view(user_selected), user_all@);
            &&& download_total(sys) + download_total(usr) <= u64::MAX
            &&& forall|i: int| 0 <= i < sys.len() ==> installed_size_negatable(#[trigger] sys[i])
            &&& forall|i: int| 0 <= i < usr.len() ==> installed_size_negatable(#[trigger] usr[i])
        }),
    ensures
        ({
            let sys = refs_used(selected_view(system_selected), system_all@);
            let usr = refs_used(selected_view(user_selected), user_all@);
            &&& r.0.system_flatref_count == sys.len()
            &&& r.0.user_flatref_count == usr.len()
            &&& r.0.total_download_size == download_total(sys) + download_total(usr)
            &&& r.0.total_installed_size == 0
            &&& strings_view(r.1@) == ref_formats(sys)
            &&& strings_view(r.2@) == ref_formats(usr)
        }),
{
    let mut info = FlatpakChangesInfo::new();
    let system_refs = match system_selected {
        Some(t) => t,
        None => system_all,
    };
    let user_refs = match user_selected {
        Some(t) => t,
        None => user_all,
    };
    proof {
        lemma_download_total_prefix(system_refs@, 0);
        lemma_download_total_prefix(user_refs@, 0);
    }
    let ns = system_refs.len();
    let nu = user_refs.len();
    assert(ns as int <= u64::MAX && nu as int <= u64::MAX);
    let system_formats = add_refs(&mut info, system_refs, true);
    let user_formats = add_refs(&mut info, user_refs, false);
    (info, system_formats, user_formats)
}

/// Whether the refs of one installation are all listed: it has none, or the last of them, of
/// that installation, was listed.
pub open spec fn installation_listed(refs: Seq<FlatpakRefStruct>, system: bool) -> bool {
    refs.len() == 0 || exists|i: int|
        0 <= i < refs.len() && (#[trigger] refs[i]).is_last && refs[i].is_system == system
}

/// Lists the refs with updates on the flatpak update page: the page's count goes up by one
/// for each ref; the update button can be pressed where there is a ref; the tray is told the
/// counts once the refs of both installations are listed.
pub fn list_flatpak_refs(
    count: &mut i32,
    system_refs: &Vec<FlatpakRefStruct>,
    user_refs: &Vec<FlatpakRefStruct>,
) -> (r: (bool, bool))
    requires
        *old(count) + system_refs@.len() + user_refs@.len() <= i32::MAX,
    ensures
        *final(count) == *old(count) + system_refs@.len() + user_refs@.len(),
        r.0 == (system_refs@.len() > 0 || user_refs@.len() > 0),
        r.1 == (installation_listed(system_refs@, true) && installation_listed(user_refs@, false)),
{
    let mut system_last = system_refs.len() == 0;
    let mut i: usize = 0;
    while i < system_refs.len()
        invariant
            i <= system_refs.len(),
            *count == *old(count) + i,
            *old(count) + system_refs@.len() + user_refs@.len() <= i32::MAX,
            system_last == (system_refs@.len() == 0 || exists|j: int|
                0 <= j < i && (#[trigger] system_refs@[j]).is_last && system_refs@[j].is_system == true),
        decreases system_refs.len() - i,
    {
        *count = *count + 1;
        if system_refs[i].is_system && system_refs[i].is_last {
            system_last = true;
        }
        i = i + 1;
    }
    let mut user_last = user_refs.len() == 0;
    let mut k: usize = 0;
    while k < user_refs.len()
        invariant
            k <= user_refs.len(),
            *count == *old(count) + system_refs@.len() + k,
            *old(count) + system_refs@.len() + user_refs@.len() <= i32::MAX,
            user_last == (user_refs@.len() == 0 || exists|j: int|
                0 <= j < k && (#[trigger] user_refs@[j]).is_last && user_refs@[j].is_system == false),
        decreases user_refs.len() - k,
    {
        *count = *count + 1;
        if !user_refs[k].is_system && user_refs[k].is_last {
            user_last = true;
        }
        k = k + 1;
    }
    (system_refs.len() > 0 || user_refs.len() > 0, system_last && user_last)
}

/// A flatpak remote as the remotes page lists it: its name and its installation.
pub struct RemoteEntry {
    pub name: String,
    pub is_system: bool,
}

/// The name and installation of each remote of a list.
pub open spec fn remote_entries_view(v: Seq<RemoteEntry>) -> Seq<(Seq<char>, bool)> {
    v.map_values(|e: RemoteEntry| (e.name@, e.is_system))
}

/// The names of a listing, none where the listing failed.
pub open spec fn listed_names(o: Option<&Vec<String>>) -> Seq<Seq<char>> {
    match o {
        Some(v) => strings_view(v@),
        None => Seq::empty(),
    }
}

/// The list the remotes page shows: the system remotes, then the user remotes, each in the
/// order listed.
pub open spec fn remote_list_spec(system: Seq<Seq<char>>, user: Seq<Seq<char>>) -> Seq<(Seq<char>, bool)> {
    system.map_values(|n: Seq<char>| (n, true)) + user.map_values(|n: Seq<char>| (n, false))
}

/// Appends one installation's remotes to the list.
fn append_remotes(list: &mut Vec<RemoteEntry>, names: Option<&Vec<String>>, is_system: bool)
    ensures
        remote_entries_view(final(list)@) == remote_entries_view(old(list)@) + listed_names(names).map_values(
            |n: Seq<char>| (n, is_system),
        ),
{
    let ghost start = remote_entries_view(list@);
    match names {
        Some(v) => {
            let ghost nv = strings_view(v@);
            let mut i: usize = 0;
            while i < v.len()
                invariant
                    i <= v.len(),
                    nv == strings_view(v@),
                    remote_entries_view(list@) == start + nv.take(i as int).map_values(
                        |n: Seq<char>| (n, is_system),
                    ),
                decreases v.len() - i,
            {
                let name = v[i].clone();
                let ghost prev = remote_entries_view(list@);
                let ghost nm = name@;
                list.push(RemoteEntry { name, is_system });
                assert(remote_entries_view(list@) =~= prev.push((nm, is_system)));
                assert(nv.take(i + 1) =~= nv.take(i as int).push(v@[i as int]@));
                assert(nv.take(i + 1).map_values(|n: Seq<char>| (n, is_system)) =~= nv.take(
                    i as int,
                ).map_values(|n: Seq<char>| (n, is_system)).push((nm, is_system)));
                assert(remote_entries_view(list@) =~= start + nv.take(i + 1).map_values(
                    |n: Seq<char>| (n, is_system),
                ));
                i = i + 1;
            }
            assert(nv.take(v.len() as int) =~= nv);
        },
        None => {
            assert(remote_entries_view(list@) =~= start + Seq::<(Seq<char>, bool)>::empty());
        },
    }
}

/// Builds the list the remotes page shows from the names the system and the user
/// installations list (`None` where listing failed, which counts as no remote).
pub fn remote_list(system: Option<&Vec<String>>, user: Option<&Vec<String>>) -> (r: Vec<RemoteEntry>)
    ensures
        remote_entries_view(r@) == remote_list_spec(listed_names(system), listed_names(user)),
{
    let mut r: Vec<RemoteEntry> = Vec::new();
    append_remotes(&mut r, system, true);
    append_remotes(&mut r, user, false);
    assert(remote_entries_view(r@) =~= remote_list_spec(listed_names(system), listed_names(user)));
    r
}

} // verus!

verus! {

/// Each field of a listed ref shows what flatpak reports for the installed ref, and falls back
/// only where it reports nothing: the ref name, else `"Unknown"`; the architecture, else
/// `"Unknown Arch"`; the summary, else `"No Summary"`; the appdata name, else the ref name;
/// the remote's name and sizes where a remote offers the ref.
pub proof fn law_listed_ref_shows_reported_fields(info: InstalledRefInfo, is_system: bool, is_last: bool)
    ensures
        ({
            let r = flatpak_ref_of(info, is_system, is_last);
            &&& info.arch matches Some(a) ==> r.arch == a@
            &&& info.arch is None ==> r.arch == "Unknown Arch"@
            &&& info.name matches Some(n) ==> r.ref_name == n@
            &&& info.name is None ==> r.ref_name == "Unknown"@
            &&& info.appdata_summary matches Some(s) ==> r.summary == s@
            &&& info.appdata_summary is None ==> r.summary == "No Summary"@
            &&& info.appdata_name matches Some(n) ==> r.name == n@
            &&& info.appdata_name is None ==> r.name == r.ref_name
            &&& r.installed_size_installed == info.installed_size
            &&& r.ref_format == info.ref_format@
            &&& r.is_system == is_system
            &&& r.is_last == is_last
            &&& info.remote matches Some(rm) ==> r.installed_size_remote == rm.installed_size
                && r.download_size == rm.download_size
            &&& info.remote is None ==> r.remote_name == "Unknown"@ && r.download_size == 0
        }),
{
}

} // verus!
