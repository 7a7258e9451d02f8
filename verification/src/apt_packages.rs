use vstd::prelude::*;
use crate::exclusions::strings_view;

verus! {

/// A package that can be upgraded, as the update page lists it.
pub struct AptPackageSocket {
    pub name: String,
    pub arch: String,
    pub installed_version: String,
    pub candidate_version: String,
    pub description: String,
    pub source_uri: String,
    pub maintainer: String,
    pub size: u64,
    pub installed_size: u64,
    /// Whether this is the last package of the list.
    pub is_last: bool,
}

/// The contents of an `AptPackageSocket`.
pub ghost struct AptPackageView {
    pub name: Seq<char>,
    pub arch: Seq<char>,
    pub installed_version: Seq<char>,
    pub candidate_version: Seq<char>,
    pub description: Seq<char>,
    pub source_uri: Seq<char>,
    pub maintainer: Seq<char>,
    pub size: u64,
    pub installed_size: u64,
    pub is_last: bool,
}

impl View for AptPackageSocket {
    type V = AptPackageView;

    open spec fn view(&self) -> AptPackageView {
        AptPackageView {
            name: self.name@,
            arch: self.arch@,
            installed_version: self.installed_version@,
            candidate_version: self.candidate_version@,
            description: self.description@,
            source_uri: self.source_uri@,
            maintainer: self.maintainer@,
            size: self.size,
            installed_size: self.installed_size,
            is_last: self.is_last,
        }
    }
}

/// What apt reports of one package of the resolved full upgrade.
pub struct AptUpgradeEntry {
    pub name: String,
    pub arch: String,
    /// Version installed now, if any.
    pub installed_version: Option<String>,
    pub candidate_version: String,
    pub description: Option<String>,
    /// Download URIs of the candidate version.
    pub uris: Vec<String>,
    pub maintainer: Option<String>,
    pub size: u64,
    pub installed_size: u64,
    pub marked_delete: bool,
}

/// `lines` joined with `sep` between each two of them.
pub open spec fn joined(lines: Seq<Seq<char>>, sep: Seq<char>) -> Seq<char>
    decreases lines.len(),
{
    if lines.len() == 0 {
        Seq::empty()
    } else if lines.len() == 1 {
        lines[0]
    } else {
        joined(lines.drop_last(), sep) + sep + lines.last()
    }
}

/// `lines` joined with `sep` between each two of them (`join` on a slice of strings).
pub fn join_strings(lines: &Vec<String>, sep: &str) -> (r: String)
    ensures
        r@ == joined(strings_view(lines@), sep@),
{
    let ghost v = strings_view(lines@);
    let mut r = String::new();
    let mut i: usize = 0;
    while i < lines.len()
        invariant
            i <= lines.len(),
            v == strings_view(lines@),
            r@ == joined(v.take(i as int), sep@),
        decreases lines.len() - i,
    {
        assert(v.take(i + 1).drop_last() =~= v.take(i as int));
        if i > 0 {
            r.append(sep);
        }
        r.append(lines[i].as_str());
        assert(r@ =~= joined(v.take(i + 1), sep@));
        i = i + 1;
    }
    assert(v.take(lines.len() as int) =~= v);
    r
}

/// The text shown for a value apt did not give.
pub open spec fn or_text(o: Option<String>, fallback: Seq<char>) -> Seq<char> {
    match o {
        Some(s) => s@,
        None => fallback,
    }
}

/// The listed package for an entry of the upgrade.
pub open spec fn socket_of(
    e: AptUpgradeEntry,
    is_last: bool,
    to_be_installed: Seq<char>,
    unknown: Seq<char>,
) -> AptPackageView {
    AptPackageView {
        name: e.name@,
        arch: e.arch@,
        installed_version: or_text(e.installed_version, to_be_installed),
        candidate_version: e.candidate_version@,
        description: or_text(e.description, unknown),
        source_uri: joined(strings_view(e.uris@), seq!['\n']),
        maintainer: or_text(e.maintainer, unknown),
        size: e.size,
        installed_size: e.installed_size,
        is_last,
    }
}

/// The listed packages for the first `k` entries of the upgrade: the entries not marked for
/// removal, each flagged as last when it is the last entry of the whole upgrade.
pub open spec fn upgrade_list(
    entries: Seq<AptUpgradeEntry>,
    k: int,
    to_be_installed: Seq<char>,
    unknown: Seq<char>,
) -> Seq<AptPackageView>
    decreases k,
{
    if k <= 0 {
        Seq::empty()
    } else {
        let prev = upgrade_list(entries, k - 1, to_be_installed, unknown);
        let e = entries[k - 1];
        if e.marked_delete {
            prev
        } else {
            prev.push(socket_of(e, k == entries.len(), to_be_installed, unknown))
        }
    }
}

/// The contents of each listed package.
pub open spec fn sockets_view(v: Seq<AptPackageSocket>) -> Seq<AptPackageView> {
    v.map_values(|s: AptPackageSocket| s@)
}

fn text_or(o: &Option<String>, fallback: &str) -> (r: String)
    ensures
        r@ == or_text(*o, fallback@),
{
    match o {
        Some(s) => s.clone(),
        None => fallback.to_string(),
    }
}

/// The packages the update page lists for a resolved full upgrade: every entry that is not
/// marked for removal, with the missing installed version shown as `to_be_installed` and a
/// missing description or maintainer as `unknown`; the download URIs are put one per line.
/// A package is flagged as last when it is the last entry of the upgrade (so no package is
/// flagged when that entry is a removal).
pub fn upgradable_packages(
    entries: &Vec<AptUpgradeEntry>,
    to_be_installed: &str,
    unknown: &str,
) -> (r: Vec<AptPackageSocket>)
    ensures
        sockets_view(r@) == upgrade_list(entries@, entries@.len() as int, to_be_installed@, unknown@),
{
    let mut r: Vec<AptPackageSocket> = Vec::new();
    let mut i: usize = 0;
    while i < entries.len()
        invariant
            i <= entries.len(),
            sockets_view(r@) == upgrade_list(entries@, i as int, to_be_installed@, unknown@),
        decreases entries.len() - i,
    {
        let e = &entries[i];
        if !e.marked_delete {
            let s = AptPackageSocket {
                name: e.name.clone(),
                arch: e.arch.clone(),
                installed_version: text_or(&e.installed_version, to_be_installed),
                candidate_version: e.candidate_version.clone(),
                description: text_or(&e.description, unknown),
                source_uri: join_strings(&e.uris, "\n"),
                maintainer: text_or(&e.maintainer, unknown),
                size: e.size,
                installed_size: e.installed_size,
                is_last: i + 1 == entries.len(),
            };
            proof {
                reveal_strlit("\n");
                assert("\n"@ =~= seq!['\n']);
            }
            assert(s@.source_uri == joined(strings_view(e.uris@), seq!['\n']));
            assert(s@.name == e.name@);
            assert(s@ == socket_of(*e, i + 1 == entries.len(), to_be_installed@, unknown@));
            r.push(s);
            assert(sockets_view(r@) =~= sockets_view(r@).drop_last().push(s@));
        }
        i = i + 1;
    }
    r
}

/// The placeholder package a row shows before it is given one.
pub fn placeholder_package() -> (r: AptPackageSocket)
    ensures
        r@ == (AptPackageView {
            name: "name"@,
            arch: "arch"@,
            installed_version: "0.0"@,
            candidate_version: "0.0"@,
            description: "??"@,
            source_uri: "??"@,
            maintainer: "??"@,
            size: 0,
            installed_size: 0,
            is_last: false,
        }),
{
    AptPackageSocket {
        name: "name".to_string(),
        arch: "arch".to_string(),
        installed_version: "0.0".to_string(),
        candidate_version: "0.0".to_string(),
        description: "??".to_string(),
        source_uri: "??".to_string(),
        maintainer: "??".to_string(),
        size: 0,
        installed_size: 0,
        is_last: false,
    }
}

} // verus!

verus! {

/// Whether listed package `p` shows entry `e` of the upgrade: the entry is not a removal, and
/// the package has its name, architecture, candidate version and sizes, with the installed
/// version where one is installed and `to_be_installed` otherwise, and the description and
/// maintainer where apt gives them and `unknown` otherwise.
pub open spec fn shows_entry(
    e: AptUpgradeEntry,
    p: AptPackageView,
    to_be_installed: Seq<char>,
    unknown: Seq<char>,
) -> bool {
    &&& !e.marked_delete
    &&& p.description == match e.description {
        Some(d) => d@,
        None => unknown,
    }
    &&& p.maintainer == match e.maintainer {
        Some(m) => m@,
        None => unknown,
    }
    &&& p.name == e.name@
    &&& p.arch == e.arch@
    &&& p.candidate_version == e.candidate_version@
    &&& p.installed_version == match e.installed_version {
        Some(v) => v@,
        None => to_be_installed,
    }
    &&& p.size == e.size
    &&& p.installed_size == e.installed_size
}

proof fn lemma_listed_packages_show_entries(
    entries: Seq<AptUpgradeEntry>,
    k: int,
    to_be_installed: Seq<char>,
    unknown: Seq<char>,
)
    requires
        0 <= k <= entries.len(),
    ensures
        forall|m: int|
            0 <= m < upgrade_list(entries, k, to_be_installed, unknown).len() ==> exists|j: int|
                0 <= j < k && shows_entry(
                    entries[j],
                    #[trigger] upgrade_list(entries, k, to_be_installed, unknown)[m],
                    to_be_installed,
                    unknown,
                ) && upgrade_list(entries, k, to_be_installed, unknown)[m].is_last == (j == entries.len()
                    - 1),
    decreases k,
{
    if k > 0 {
        lemma_listed_packages_show_entries(entries, k - 1, to_be_installed, unknown);
        let prev = upgrade_list(entries, k - 1, to_be_installed, unknown);
        let cur = upgrade_list(entries, k, to_be_installed, unknown);
        assert forall|m: int| 0 <= m < cur.len() implies exists|j: int|
            0 <= j < k && shows_entry(entries[j], #[trigger] cur[m], to_be_installed, unknown)
                && cur[m].is_last == (j == entries.len() - 1) by {
            if m < prev.len() {
                assert(cur[m] == prev[m]);
                let j = choose|j: int|
                    0 <= j < k - 1 && shows_entry(entries[j], prev[m], to_be_installed, unknown)
                        && prev[m].is_last == (j == entries.len() - 1);
                assert(shows_entry(entries[j], cur[m], to_be_installed, unknown));
            } else {
                assert(shows_entry(entries[k - 1], cur[m], to_be_installed, unknown));
            }
        }
    }
}

/// Every package the update page lists shows one entry of the upgrade that is not a removal,
/// with that entry's own name, architecture and candidate version (whatever version is
/// installed), its installed version where there is one, its description, maintainer and
/// sizes; it is flagged as last exactly when that entry is the last of the upgrade.
pub proof fn law_listed_packages_show_their_entries(
    entries: Seq<AptUpgradeEntry>,
    to_be_installed: Seq<char>,
    unknown: Seq<char>,
)
    ensures
        forall|m: int|
            0 <= m < upgrade_list(entries, entries.len() as int, to_be_installed, unknown).len() ==> exists|j: int|
                0 <= j < entries.len() && shows_entry(
                    entries[j],
                    #[trigger] upgrade_list(entries, entries.len() as int, to_be_installed, unknown)[m],
                    to_be_installed,
                    unknown,
                ) && upgrade_list(entries, entries.len() as int, to_be_installed, unknown)[m].is_last == (j
                    == entries.len() - 1),
{
    lemma_listed_packages_show_entries(entries, entries.len() as int, to_be_installed, unknown);
}

proof fn lemma_entries_are_listed(
    entries: Seq<AptUpgradeEntry>,
    k: int,
    to_be_installed: Seq<char>,
    unknown: Seq<char>,
)
    requires
        0 <= k <= entries.len(),
    ensures
        forall|j: int|
            0 <= j < k && !(#[trigger] entries[j]).marked_delete ==> exists|m: int|
                0 <= m < upgrade_list(entries, k, to_be_installed, unknown).len() && shows_entry(
                    entries[j],
                    upgrade_list(entries, k, to_be_installed, unknown)[m],
                    to_be_installed,
                    unknown,
                ),
    decreases k,
{
    if k > 0 {
        lemma_entries_are_listed(entries, k - 1, to_be_installed, unknown);
        let prev = upgrade_list(entries, k - 1, to_be_installed, unknown);
        let cur = upgrade_list(entries, k, to_be_installed, unknown);
        assert forall|j: int| 0 <= j < k && !(#[trigger] entries[j]).marked_delete implies exists|m: int|
            0 <= m < cur.len() && shows_entry(entries[j], cur[m], to_be_installed, unknown) by {
            if j < k - 1 {
                let m = choose|m: int|
                    0 <= m < prev.len() && shows_entry(entries[j], prev[m], to_be_installed, unknown);
                assert(cur[m] == prev[m]);
            } else {
                assert(shows_entry(entries[j], cur[prev.len() as int], to_be_installed, unknown));
            }
        }
    }
}

/// No entry of the upgrade that is not a removal is left off the update page: each is shown
/// by some listed package.
pub proof fn law_every_upgrade_entry_is_listed(
    entries: Seq<AptUpgradeEntry>,
    to_be_installed: Seq<char>,
    unknown: Seq<char>,
)
    ensures
        forall|j: int|
            0 <= j < entries.len() && !(#[trigger] entries[j]).marked_delete ==> exists|m: int|
                0 <= m < upgrade_list(entries, entries.len() as int, to_be_installed, unknown).len()
                    && shows_entry(
                    entries[j],
                    upgrade_list(entries, entries.len() as int, to_be_installed, unknown)[m],
                    to_be_installed,
                    unknown,
                ),
{
    lemma_entries_are_listed(entries, entries.len() as int, to_be_installed, unknown);
}

} // verus!
