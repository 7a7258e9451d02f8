use vstd::prelude::*;
use crate::exclusions::{excluded_by, is_excluded, strings_view};

verus! {

/// What a package that apt marked in a simulated full upgrade is to get in the real one.
#[derive(Clone, Copy, PartialEq, Eq, Structural)]
pub enum PlannedAction {
    /// Marked for installation (it was to be upgraded, installed or downgraded).
    Install,
    /// Marked for removal.
    Delete,
    /// Left as it is (only protected from the resolver).
    Keep,
}

/// The marks apt gave one package in a simulated full upgrade.
pub struct AptChangeMarks {
    pub name: String,
    pub marked_upgrade: bool,
    pub marked_install: bool,
    pub marked_downgrade: bool,
    pub marked_delete: bool,
}

/// One package of the upgrade to run, with what is to be done to it.
pub struct PlannedChange {
    pub name: String,
    pub action: PlannedAction,
}

/// The action a package gets from its marks.
pub open spec fn planned_action(c: AptChangeMarks) -> PlannedAction {
    if c.marked_upgrade || c.marked_install || c.marked_downgrade {
        PlannedAction::Install
    } else if c.marked_delete {
        PlannedAction::Delete
    } else {
        PlannedAction::Keep
    }
}

/// The upgrade to run: the changes whose names are not held back, in order, each with its
/// action.
pub open spec fn upgrade_plan(changes: Seq<AptChangeMarks>, exclusions: Seq<Seq<char>>) -> Seq<
    (Seq<char>, PlannedAction),
>
    decreases changes.len(),
{
    if changes.len() == 0 {
        Seq::empty()
    } else {
        let prev = upgrade_plan(changes.drop_last(), exclusions);
        let c = changes.last();
        if excluded_by(c.name@, exclusions) {
            prev
        } else {
            prev.push((c.name@, planned_action(c)))
        }
    }
}

/// The names of the packages the upgrade removes, in order.
pub open spec fn removed_names(changes: Seq<AptChangeMarks>, exclusions: Seq<Seq<char>>) -> Seq<
    Seq<char>,
>
    decreases changes.len(),
{
    if changes.len() == 0 {
        Seq::empty()
    } else {
        let prev = removed_names(changes.drop_last(), exclusions);
        let c = changes.last();
        if !excluded_by(c.name@, exclusions) && planned_action(c) == PlannedAction::Delete {
            prev.push(c.name@)
        } else {
            prev
        }
    }
}

/// The name and action of each planned change.
pub open spec fn plan_view(plan: Seq<PlannedChange>) -> Seq<(Seq<char>, PlannedAction)> {
    plan.map_values(|p: PlannedChange| (p.name@, p.action))
}

/// The action a package gets from its marks.
pub fn action_for(c: &AptChangeMarks) -> (r: PlannedAction)
    ensures
        r == planned_action(*c),
{
    if c.marked_upgrade || c.marked_install || c.marked_downgrade {
        PlannedAction::Install
    } else if c.marked_delete {
        PlannedAction::Delete
    } else {
        PlannedAction::Keep
    }
}

/// Turns the changes of a simulated full upgrade into the upgrade to run: packages whose
/// name holds an excluded name are left out; the others are to be installed, removed or
/// kept. Also returns the names of the packages to be removed, for the user to confirm.
pub fn plan_upgrade(changes: &Vec<AptChangeMarks>, exclusions: &Vec<String>) -> (r: (
    Vec<PlannedChange>,
    Vec<String>,
))
    ensures
        plan_view(r.0@) == upgrade_plan(changes@, strings_view(exclusions@)),
        strings_view(r.1@) == removed_names(changes@, strings_view(exclusions@)),
{
    let ghost ex = strings_view(exclusions@);
    let mut plan: Vec<PlannedChange> = Vec::new();
    let mut removed: Vec<String> = Vec::new();
    let mut i: usize = 0;
    while i < changes.len()
        invariant
            i <= changes.len(),
            ex == strings_view(exclusions@),
            plan_view(plan@) == upgrade_plan(changes@.take(i as int), ex),
            strings_view(removed@) == removed_names(changes@.take(i as int), ex),
        decreases changes.len() - i,
    {
        let c = &changes[i];
        assert(changes@.take(i + 1).drop_last() =~= changes@.take(i as int));
        assert(changes@.take(i + 1).last() == *c);
        if !is_excluded(c.name.as_str(), exclusions) {
            let action = action_for(c);
            plan.push(PlannedChange { name: c.name.clone(), action });
            assert(plan_view(plan@) =~= plan_view(plan@).drop_last().push((c.name@, action)));
            if action == PlannedAction::Delete {
                removed.push(c.name.clone());
                assert(strings_view(removed@) =~= strings_view(removed@).drop_last().push(c.name@));
            }
        }
        i = i + 1;
    }
    assert(changes@.take(changes.len() as int) =~= changes@);
    (plan, removed)
}

/// The text listing the packages to be removed: each name on a line of its own, then an
/// empty line.
pub fn removal_list_text(names: &Vec<String>) -> (r: String)
    ensures
        r@ == lines_text(strings_view(names@)) + seq!['\n'],
{
    let mut r = String::new();
    let mut i: usize = 0;
    while i < names.len()
        invariant
            i <= names.len(),
            r@ == lines_text(strings_view(names@).take(i as int)),
        decreases names.len() - i,
    {
        assert(strings_view(names@).take(i + 1).drop_last() =~= strings_view(names@).take(i as int));
        r.append(names[i].as_str());
        r.push('\n');
        assert(r@ =~= lines_text(strings_view(names@).take(i + 1)));
        i = i + 1;
    }
    assert(strings_view(names@).take(names.len() as int) =~= strings_view(names@));
    r.push('\n');
    r
}

/// Each string followed by a newline, one after the other.
pub open spec fn lines_text(lines: Seq<Seq<char>>) -> Seq<char>
    decreases lines.len(),
{
    if lines.len() == 0 {
        Seq::empty()
    } else {
        lines_text(lines.drop_last()) + lines.last() + seq!['\n']
    }
}

} // verus!

verus! {

/// A package in the resolved upgrade, with the sizes that the summary needs.
pub struct AptResolvedChange {
    pub name: String,
    /// Whether a version of the package is installed now.
    pub is_installed: bool,
    /// Installed size of the installed version (read only where `is_installed`).
    pub current_installed_size: u64,
    pub marked_upgrade: bool,
    pub marked_install: bool,
    pub marked_downgrade: bool,
    pub marked_delete: bool,
    /// Download size of the candidate version (read only for upgrades, installs, downgrades).
    pub candidate_size: u64,
    /// Installed size of the candidate version (read only for upgrades, installs, downgrades).
    pub candidate_installed_size: u64,
}

/// How a package of the resolved upgrade is counted in the summary.
#[derive(Clone, Copy, PartialEq, Eq, Structural)]
pub enum ChangeKind {
    Upgrade,
    Install,
    Downgrade,
    Remove,
    Unchanged,
}

/// The kind of a change: an upgrade of an installed package; an install (also an "upgrade"
/// of a package that is not installed); a downgrade; a removal; or none of these.
pub open spec fn change_kind(c: AptResolvedChange) -> ChangeKind {
    if c.marked_upgrade && c.is_installed {
        ChangeKind::Upgrade
    } else if c.marked_install || (c.marked_upgrade && !c.is_installed) {
        ChangeKind::Install
    } else if c.marked_downgrade {
        ChangeKind::Downgrade
    } else if c.marked_delete {
        ChangeKind::Remove
    } else {
        ChangeKind::Unchanged
    }
}

/// The kind of a change.
pub fn kind_of_change(c: &AptResolvedChange) -> (r: ChangeKind)
    ensures
        r == change_kind(*c),
{
    if c.marked_upgrade && c.is_installed {
        ChangeKind::Upgrade
    } else if c.marked_install || (c.marked_upgrade && !c.is_installed) {
        ChangeKind::Install
    } else if c.marked_downgrade {
        ChangeKind::Downgrade
    } else if c.marked_delete {
        ChangeKind::Remove
    } else {
        ChangeKind::Unchanged
    }
}

/// Counts and sizes of an upgrade, as the confirmation dialog shows them.
pub struct AptChangesInfo {
    pub package_count_upgrade: u64,
    pub package_count_install: u64,
    pub package_count_downgrade: u64,
    pub package_count_remove: u64,
    pub total_download_size: u64,
    /// Change of the installed size in bytes: what the new versions take, less what the
    /// installed versions took.
    pub total_installed_size: i64,
}

/// The summary as mathematical numbers.
pub struct ChangesTally {
    pub upgrade: int,
    pub install: int,
    pub downgrade: int,
    pub remove: int,
    pub download: int,
    pub installed: int,
}

/// A size taken as the signed byte count it is added as (`size as i64`, which wraps for
/// sizes of 2^63 bytes and more).
pub open spec fn signed_size(v: u64) -> int {
    (v as i64) as int
}

/// Whether a change brings in a new version (and so adds its sizes).
pub open spec fn adds_candidate(k: ChangeKind) -> bool {
    k == ChangeKind::Upgrade || k == ChangeKind::Install || k == ChangeKind::Downgrade
}

/// The installed-size total once the installed version of change `c` is taken off.
pub open spec fn installed_after_removing(total: int, c: AptResolvedChange) -> int {
    if c.is_installed {
        total - signed_size(c.current_installed_size)
    } else {
        total
    }
}

/// The summary of a list of resolved changes.
pub open spec fn tally(changes: Seq<AptResolvedChange>) -> ChangesTally
    decreases changes.len(),
{
    if changes.len() == 0 {
        ChangesTally { upgrade: 0, install: 0, downgrade: 0, remove: 0, download: 0, installed: 0 }
    } else {
        let t = tally(changes.drop_last());
        let c = changes.last();
        let k = change_kind(c);
        let mid = installed_after_removing(t.installed, c);
        ChangesTally {
            upgrade: t.upgrade + if k == ChangeKind::Upgrade { 1int } else { 0int },
            install: t.install + if k == ChangeKind::Install { 1int } else { 0int },
            downgrade: t.downgrade + if k == ChangeKind::Downgrade { 1int } else { 0int },
            remove: t.remove + if k == ChangeKind::Remove { 1int } else { 0int },
            download: t.download + if adds_candidate(k) { c.candidate_size as int } else { 0int },
            installed: mid + if adds_candidate(k) {
                signed_size(c.candidate_installed_size)
            } else {
                0int
            },
        }
    }
}

/// Whether a number fits in an `i64`.
pub open spec fn fits_i64(x: int) -> bool {
    i64::MIN <= x <= i64::MAX
}

/// Whether the summary of the changes can be added up in 64 bits: the download total fits
/// a `u64`, and the installed-size total fits an `i64` after every step.
pub open spec fn tally_fits(changes: Seq<AptResolvedChange>) -> bool
    decreases changes.len(),
{
    if changes.len() == 0 {
        true
    } else {
        let t = tally(changes.drop_last());
        let c = changes.last();
        &&& tally_fits(changes.drop_last())
        &&& fits_i64(installed_after_removing(t.installed, c))
        &&& fits_i64(tally(changes).installed)
        &&& tally(changes).download <= u64::MAX
    }
}

proof fn lemma_tally_monotone(changes: Seq<AptResolvedChange>, i: int)
    requires
        0 <= i <= changes.len(),
    ensures
        tally(changes.take(i)).download <= tally(changes).download,
        tally(changes.take(i)).upgrade <= tally(changes).upgrade,
        tally(changes.take(i)).install <= tally(changes).install,
        tally(changes.take(i)).downgrade <= tally(changes).downgrade,
        tally(changes.take(i)).remove <= tally(changes).remove,
        tally(changes).upgrade + tally(changes).install + tally(changes).downgrade
            + tally(changes).remove <= changes.len(),
        tally(changes).upgrade >= 0 && tally(changes).install >= 0 && tally(changes).downgrade >= 0
            && tally(changes).remove >= 0 && tally(changes).download >= 0,
        tally_fits(changes) ==> tally_fits(changes.take(i)),
    decreases changes.len(),
{
    if changes.len() > 0 {
        if i == changes.len() {
            assert(changes.take(i) =~= changes);
            lemma_tally_monotone(changes.drop_last(), i - 1);
        } else {
            assert(changes.drop_last().take(i) =~= changes.take(i));
            lemma_tally_monotone(changes.drop_last(), i);
        }
    } else {
        assert(changes.take(i) =~= changes);
    }
}

impl AptChangesInfo {
    /// An empty summary.
    pub fn new() -> (r: Self)
        ensures
            r.tally_view() == tally(Seq::empty()),
    {
        AptChangesInfo {
            package_count_upgrade: 0,
            package_count_install: 0,
            package_count_downgrade: 0,
            package_count_remove: 0,
            total_download_size: 0,
            total_installed_size: 0,
        }
    }

    /// The summary as mathematical numbers.
    pub open spec fn tally_view(&self) -> ChangesTally {
        ChangesTally {
            upgrade: self.package_count_upgrade as int,
            install: self.package_count_install as int,
            downgrade: self.package_count_downgrade as int,
            remove: self.package_count_remove as int,
            download: self.total_download_size as int,
            installed: self.total_installed_size as int,
        }
    }

    /// Counts one more upgrade.
    pub fn add_upgrade(&mut self)
        requires
            old(self).package_count_upgrade < u64::MAX,
        ensures
            *final(self) == (AptChangesInfo {
                package_count_upgrade: (old(self).package_count_upgrade + 1) as u64,
                ..*old(self)
            }),
    {
        self.package_count_upgrade = self.package_count_upgrade + 1;
    }

    /// Counts one more install.
    pub fn add_install(&mut self)
        requires
            old(self).package_count_install < u64::MAX,
        ensures
            *final(self) == (AptChangesInfo {
                package_count_install: (old(self).package_count_install + 1) as u64,
                ..*old(self)
            }),
    {
        self.package_count_install = self.package_count_install + 1;
    }

    /// Counts one more downgrade.
    pub fn add_downgrade(&mut self)
        requires
            old(self).package_count_downgrade < u64::MAX,
        ensures
            *final(self) == (AptChangesInfo {
                package_count_downgrade: (old(self).package_count_downgrade + 1) as u64,
                ..*old(self)
            }),
    {
        self.package_count_downgrade = self.package_count_downgrade + 1;
    }

    /// Counts one more removal.
    pub fn add_remove(&mut self)
        requires
            old(self).package_count_remove < u64::MAX,
        ensures
            *final(self) == (AptChangesInfo {
                package_count_remove: (old(self).package_count_remove + 1) as u64,
                ..*old(self)
            }),
    {
        self.package_count_remove = self.package_count_remove + 1;
    }

    /// Adds to the download total.
    pub fn increase_total_download_size_by(&mut self, value: u64)
        requires
            old(self).total_download_size + value <= u64::MAX,
        ensures
            *final(self) == (AptChangesInfo {
                total_download_size: (old(self).total_download_size + value) as u64,
                ..*old(self)
            }),
    {
        self.total_download_size = self.total_download_size + value;
    }

    /// Adds a size to the installed-size total.
    pub fn increase_total_installed_size_by(&mut self, value: u64)
        requires
            fits_i64(old(self).total_installed_size + signed_size(value)),
        ensures
            *final(self) == (AptChangesInfo {
                total_installed_size: (old(self).total_installed_size + signed_size(value)) as i64,
                ..*old(self)
            }),
    {
        self.total_installed_size = self.total_installed_size + value as i64;
    }

    /// Takes a size off the installed-size total.
    pub fn decrease_total_installed_size_by(&mut self, value: u64)
        requires
            fits_i64(old(self).total_installed_size - signed_size(value)),
        ensures
            *final(self) == (AptChangesInfo {
                total_installed_size: (old(self).total_installed_size - signed_size(value)) as i64,
                ..*old(self)
            }),
    {
        self.total_installed_size = self.total_installed_size - value as i64;
    }
}

/// Adds up the resolved upgrade for the confirmation dialog: how many packages are upgraded,
/// installed, downgraded and removed, the bytes to download, and the change of the installed
/// size (the installed versions' sizes taken off, the new versions' sizes added).
pub fn summarize_changes(changes: &Vec<AptResolvedChange>) -> (r: AptChangesInfo)
    requires
        tally_fits(changes@),
    ensures
        r.tally_view() == tally(changes@),
{
    let mut info = AptChangesInfo::new();
    let mut i: usize = 0;
    while i < changes.len()
        invariant
            i <= changes.len(),
            tally_fits(changes@),
            info.tally_view() == tally(changes@.take(i as int)),
        decreases changes.len() - i,
    {
        let c = &changes[i];
        let ghost pre = changes@.take(i as int);
        let ghost cur = changes@.take(i + 1);
        assert(cur.drop_last() =~= pre);
        assert(cur.last() == *c);
        proof {
            lemma_tally_monotone(changes@, i + 1);
            lemma_tally_monotone(cur, i as int);
            assert(cur.take(i as int) =~= pre);
        }
        assert(tally_fits(cur));
        if c.is_installed {
            info.decrease_total_installed_size_by(c.current_installed_size);
        }
        let kind = kind_of_change(c);
        match kind {
            ChangeKind::Upgrade => {
                info.add_upgrade();
            },
            ChangeKind::Install => {
                info.add_install();
            },
            ChangeKind::Downgrade => {
                info.add_downgrade();
            },
            ChangeKind::Remove => {
                info.add_remove();
            },
            ChangeKind::Unchanged => {},
        }
        if kind == ChangeKind::Upgrade || kind == ChangeKind::Install || kind == ChangeKind::Downgrade {
            info.increase_total_download_size_by(c.candidate_size);
            info.increase_total_installed_size_by(c.candidate_installed_size);
        }
        i = i + 1;
    }
    assert(changes@.take(changes.len() as int) =~= changes@);
    info
}

} // verus!

verus! {

/// Counts and sizes of an upgrade as the simpler confirmation dialog shows them: how many
/// packages change, and the download and installed sizes of their new versions.
pub struct AptUpgradeTotals {
    pub package_count: u64,
    pub total_download_size: u64,
    pub total_installed_size: u64,
}

/// A package of a simulated full upgrade with the sizes of its new version.
pub struct CandidateSizes {
    pub name: String,
    pub size: u64,
    pub installed_size: u64,
}

/// Count, download size and installed size of the changes that are not held back.
pub open spec fn upgrade_totals_spec(changes: Seq<CandidateSizes>, exclusions: Seq<Seq<char>>) -> (
    int,
    int,
    int,
)
    decreases changes.len(),
{
    if changes.len() == 0 {
        (0, 0, 0)
    } else {
        let t = upgrade_totals_spec(changes.drop_last(), exclusions);
        let c = changes.last();
        if excluded_by(c.name@, exclusions) {
            t
        } else {
            (t.0 + 1, t.1 + c.size, t.2 + c.installed_size)
        }
    }
}

proof fn lemma_upgrade_totals_monotone(changes: Seq<CandidateSizes>, exclusions: Seq<Seq<char>>, i: int)
    requires
        0 <= i <= changes.len(),
    ensures
        0 <= upgrade_totals_spec(changes.take(i), exclusions).0 <= upgrade_totals_spec(changes, exclusions).0,
        0 <= upgrade_totals_spec(changes.take(i), exclusions).1 <= upgrade_totals_spec(changes, exclusions).1,
        0 <= upgrade_totals_spec(changes.take(i), exclusions).2 <= upgrade_totals_spec(changes, exclusions).2,
        upgrade_totals_spec(changes, exclusions).0 <= changes.len(),
    decreases changes.len(),
{
    if changes.len() > 0 {
        if i == changes.len() {
            assert(changes.take(i) =~= changes);
            lemma_upgrade_totals_monotone(changes.drop_last(), exclusions, i - 1);
        } else {
            assert(changes.drop_last().take(i) =~= changes.take(i));
            lemma_upgrade_totals_monotone(changes.drop_last(), exclusions, i);
        }
    } else {
        assert(changes.take(i) =~= changes);
    }
}

impl AptUpgradeTotals {
    /// Nothing counted yet.
    pub fn new() -> (r: Self)
        ensures
            r.package_count == 0,
            r.total_download_size == 0,
            r.total_installed_size == 0,
    {
        AptUpgradeTotals { package_count: 0, total_download_size: 0, total_installed_size: 0 }
    }

    /// Counts one more package.
    pub fn add_package(&mut self)
        requires
            old(self).package_count < u64::MAX,
        ensures
            *final(self) == (AptUpgradeTotals {
                package_count: (old(self).package_count + 1) as u64,
                ..*old(self)
            }),
    {
        self.package_count = self.package_count + 1;
    }

    /// Adds to the download total.
    pub fn increase_total_download_size_by(&mut self, value: u64)
        requires
            old(self).total_download_size + value <= u64::MAX,
        ensures
            *final(self) == (AptUpgradeTotals {
                total_download_size: (old(self).total_download_size + value) as u64,
                ..*old(self)
            }),
    {
        self.total_download_size = self.total_download_size + value;
    }

    /// Adds to the installed-size total.
    pub fn increase_total_installed_size_by(&mut self, value: u64)
        requires
            old(self).total_installed_size + value <= u64::MAX,
        ensures
            *final(self) == (AptUpgradeTotals {
                total_installed_size: (old(self).total_installed_size + value) as u64,
                ..*old(self)
            }),
    {
        self.total_installed_size = self.total_installed_size + value;
    }
}

/// Adds up the packages of a simulated full upgrade whose names hold no excluded name: their
/// number and the download and installed sizes of their new versions.
pub fn upgrade_totals(changes: &Vec<CandidateSizes>, exclusions: &Vec<String>) -> (r: AptUpgradeTotals)
    requires
        upgrade_totals_spec(changes@, strings_view(exclusions@)).1 <= u64::MAX,
        upgrade_totals_spec(changes@, strings_view(exclusions@)).2 <= u64::MAX,
    ensures
        r.package_count == upgrade_totals_spec(changes@, strings_view(exclusions@)).0,
        r.total_download_size == upgrade_totals_spec(changes@, strings_view(exclusions@)).1,
        r.total_installed_size == upgrade_totals_spec(changes@, strings_view(exclusions@)).2,
{
    let ghost ex = strings_view(exclusions@);
    let mut totals = AptUpgradeTotals::new();
    let mut i: usize = 0;
    while i < changes.len()
        invariant
            i <= changes.len(),
            ex == strings_view(exclusions@),
            upgrade_totals_spec(changes@, ex).1 <= u64::MAX,
            upgrade_totals_spec(changes@, ex).2 <= u64::MAX,
            totals.package_count == upgrade_totals_spec(changes@.take(i as int), ex).0,
            totals.total_download_size == upgrade_totals_spec(changes@.take(i as int), ex).1,
            totals.total_installed_size == upgrade_totals_spec(changes@.take(i as int), ex).2,
        decreases changes.len() - i,
    {
        let c = &changes[i];
        assert(changes@.take(i + 1).drop_last() =~= changes@.take(i as int));
        assert(changes@.take(i + 1).last() == *c);
        proof {
            lemma_upgrade_totals_monotone(changes@, ex, i + 1);
            lemma_upgrade_totals_monotone(changes@.take(i + 1), ex, i + 1);
        }
        if !is_excluded(c.name.as_str(), exclusions) {
            totals.add_package();
            totals.increase_total_download_size_by(c.size);
            totals.increase_total_installed_size_by(c.installed_size);
        }
        i = i + 1;
    }
    assert(changes@.take(changes.len() as int) =~= changes@);
    totals
}

} // verus!

verus! {

/// No package whose name holds an excluded name is part of the upgrade to run, nor of the
/// list of packages it removes.
pub proof fn law_plan_skips_excluded(changes: Seq<AptChangeMarks>, exclusions: Seq<Seq<char>>)
    ensures
        forall|i: int|
            0 <= i < upgrade_plan(changes, exclusions).len() ==> !excluded_by(
                #[trigger] upgrade_plan(changes, exclusions)[i].0,
                exclusions,
            ),
        forall|i: int|
            0 <= i < removed_names(changes, exclusions).len() ==> !excluded_by(
                #[trigger] removed_names(changes, exclusions)[i],
                exclusions,
            ),
    decreases changes.len(),
{
    if changes.len() > 0 {
        law_plan_skips_excluded(changes.drop_last(), exclusions);
        let p = upgrade_plan(changes.drop_last(), exclusions);
        let q = removed_names(changes.drop_last(), exclusions);
        assert forall|i: int|
            0 <= i < upgrade_plan(changes, exclusions).len() implies !excluded_by(
            #[trigger] upgrade_plan(changes, exclusions)[i].0,
            exclusions,
        ) by {
            if i < p.len() {
                assert(upgrade_plan(changes, exclusions)[i] == p[i]);
            }
        }
        assert forall|i: int|
            0 <= i < removed_names(changes, exclusions).len() implies !excluded_by(
            #[trigger] removed_names(changes, exclusions)[i],
            exclusions,
        ) by {
            if i < q.len() {
                assert(removed_names(changes, exclusions)[i] == q[i]);
            }
        }
    }
}

/// Each package of the summary is counted at most once: the four counts add up to no more
/// than the number of changes.
pub proof fn law_tally_counts_bounded(changes: Seq<AptResolvedChange>)
    ensures
        tally(changes).upgrade >= 0,
        tally(changes).install >= 0,
        tally(changes).downgrade >= 0,
        tally(changes).remove >= 0,
        tally(changes).upgrade + tally(changes).install + tally(changes).downgrade + tally(changes).remove
            <= changes.len(),
{
    lemma_tally_monotone(changes, 0);
}

} // verus!

verus! {

/// Adds up the resolved upgrade as `summarize_changes` does, checking each step: `None`
/// exactly where the totals do not fit in 64 bits.
pub fn summarize_changes_checked(changes: &Vec<AptResolvedChange>) -> (r: Option<AptChangesInfo>)
    ensures
        r is Some == tally_fits(changes@),
        r is Some ==> r->0.tally_view() == tally(changes@),
{
    let mut info = AptChangesInfo::new();
    let mut i: usize = 0;
    while i < changes.len()
        invariant
            i <= changes.len(),
            tally_fits(changes@.take(i as int)),
            info.tally_view() == tally(changes@.take(i as int)),
        decreases changes.len() - i,
    {
        let c = &changes[i];
        let ghost pre = changes@.take(i as int);
        let ghost cur = changes@.take(i + 1);
        assert(cur.drop_last() =~= pre);
        assert(cur.last() == *c);
        proof {
            lemma_tally_monotone(changes@, i + 1);
            lemma_tally_monotone(pre, 0);
        }
        if c.is_installed {
            match info.total_installed_size.checked_sub(c.current_installed_size as i64) {
                Some(v) => {
                    info.total_installed_size = v;
                },
                None => {
                    return None;
                },
            }
        }
        let kind = kind_of_change(c);
        match kind {
            ChangeKind::Upgrade => {
                info.add_upgrade();
            },
            ChangeKind::Install => {
                info.add_install();
            },
            ChangeKind::Downgrade => {
                info.add_downgrade();
            },
            ChangeKind::Remove => {
                info.add_remove();
            },
            ChangeKind::Unchanged => {},
        }
        if kind == ChangeKind::Upgrade || kind == ChangeKind::Install || kind == ChangeKind::Downgrade {
            match info.total_download_size.checked_add(c.candidate_size) {
                Some(v) => {
                    info.total_download_size = v;
                },
                None => {
                    return None;
                },
            }
            match info.total_installed_size.checked_add(c.candidate_installed_size as i64) {
                Some(v) => {
                    info.total_installed_size = v;
                },
                None => {
                    return None;
                },
            }
        }
        assert(tally_fits(cur));
        i = i + 1;
    }
    assert(changes@.take(changes.len() as int) =~= changes@);
    Some(info)
}

} // verus!

verus! {

/// Whether an action is the one the marks of a change call for: install for a change marked
/// for upgrade, install or downgrade; removal for a change with none of those marks that is
/// marked for removal; keep otherwise.
pub open spec fn action_follows_marks(c: AptChangeMarks, a: PlannedAction) -> bool {
    let brings_version = c.marked_upgrade || c.marked_install || c.marked_downgrade;
    &&& (a == PlannedAction::Install) == brings_version
    &&& (a == PlannedAction::Delete) == (!brings_version && c.marked_delete)
    &&& (a == PlannedAction::Keep) == (!brings_version && !c.marked_delete)
}

/// Each package of the upgrade to run comes from a change that is not held back, and gets the
/// action its marks call for: a change marked for upgrade, install or downgrade is installed,
/// one marked only for removal is removed, any other is kept.
pub proof fn law_plan_actions_follow_marks(changes: Seq<AptChangeMarks>, exclusions: Seq<Seq<char>>)
    ensures
        forall|k: int|
            0 <= k < upgrade_plan(changes, exclusions).len() ==> exists|i: int|
                0 <= i < changes.len() && changes[i].name@ == (#[trigger] upgrade_plan(
                    changes,
                    exclusions,
                )[k]).0 && !excluded_by(changes[i].name@, exclusions) && action_follows_marks(
                    changes[i],
                    upgrade_plan(changes, exclusions)[k].1,
                ),
    decreases changes.len(),
{
    if changes.len() > 0 {
        let rest = changes.drop_last();
        law_plan_actions_follow_marks(rest, exclusions);
        let prev = upgrade_plan(rest, exclusions);
        let cur = upgrade_plan(changes, exclusions);
        assert forall|k: int| 0 <= k < cur.len() implies exists|i: int|
            0 <= i < changes.len() && changes[i].name@ == (#[trigger] cur[k]).0 && !excluded_by(
                changes[i].name@,
                exclusions,
            ) && action_follows_marks(changes[i], cur[k].1) by {
            if k < prev.len() {
                assert(cur[k] == prev[k]);
                let i = choose|i: int|
                    0 <= i < rest.len() && rest[i].name@ == prev[k].0 && !excluded_by(
                        rest[i].name@,
                        exclusions,
                    ) && action_follows_marks(rest[i], prev[k].1);
                assert(rest[i] == changes[i]);
            } else {
                let i = changes.len() - 1;
                assert(changes[i] == changes.last());
            }
        }
    }
}

/// No change that is not held back is left out of the upgrade to run: each is planned, with
/// the action its marks call for.
pub proof fn law_plan_keeps_every_included_change(changes: Seq<AptChangeMarks>, exclusions: Seq<Seq<char>>)
    ensures
        forall|i: int|
            0 <= i < changes.len() && !excluded_by((#[trigger] changes[i]).name@, exclusions) ==> exists|k: int|
                0 <= k < upgrade_plan(changes, exclusions).len() && upgrade_plan(changes, exclusions)[k].0
                    == changes[i].name@ && action_follows_marks(
                    changes[i],
                    upgrade_plan(changes, exclusions)[k].1,
                ),
    decreases changes.len(),
{
    if changes.len() > 0 {
        let rest = changes.drop_last();
        law_plan_keeps_every_included_change(rest, exclusions);
        let prev = upgrade_plan(rest, exclusions);
        let cur = upgrade_plan(changes, exclusions);
        assert forall|i: int|
            0 <= i < changes.len() && !excluded_by((#[trigger] changes[i]).name@, exclusions) implies exists|k: int|
            0 <= k < cur.len() && cur[k].0 == changes[i].name@ && action_follows_marks(changes[i], cur[k].1) by {
            if i < changes.len() - 1 {
                assert(rest[i] == changes[i]);
                let k = choose|k: int|
                    0 <= k < prev.len() && prev[k].0 == rest[i].name@ && action_follows_marks(rest[i], prev[k].1);
                assert(cur[k] == prev[k]);
            } else {
                assert(changes[i] == changes.last());
                assert(cur[prev.len() as int] == (changes[i].name@, planned_action(changes[i])));
            }
        }
    }
}

} // verus!
