use vstd::prelude::*;
use crate::exclusions::strings_view;
use crate::template::opt_view;
use crate::text::{
    ascii_lower_char, contains_str, has_substring, is_ascii_char, is_ascii_text, lowercase, str_eq,
    strip_trailing, to_lowercase, trim_end_matches,
};

verus! {

/// An apt source in the deb822 format (a `.sources` file), with the fields this program
/// reads and writes.
pub struct Deb822Source {
    pub repolib_id: Option<String>,
    pub repolib_name: Option<String>,
    pub repolib_default_mirror: Option<String>,
    pub filepath: String,
    pub uris: Option<String>,
    pub types: Option<String>,
    pub suites: Option<String>,
    pub components: Option<String>,
    pub architectures: Option<String>,
    pub signed_by: Option<String>,
    pub enabled: Option<String>,
}

/// The contents of a `Deb822Source`.
pub ghost struct Deb822View {
    pub repolib_id: Option<Seq<char>>,
    pub repolib_name: Option<Seq<char>>,
    pub repolib_default_mirror: Option<Seq<char>>,
    pub filepath: Seq<char>,
    pub uris: Option<Seq<char>>,
    pub types: Option<Seq<char>>,
    pub suites: Option<Seq<char>>,
    pub components: Option<Seq<char>>,
    pub architectures: Option<Seq<char>>,
    pub signed_by: Option<Seq<char>>,
    pub enabled: Option<Seq<char>>,
}

impl View for Deb822Source {
    type V = Deb822View;

    open spec fn view(&self) -> Deb822View {
        Deb822View {
            repolib_id: opt_view(self.repolib_id),
            repolib_name: opt_view(self.repolib_name),
            repolib_default_mirror: opt_view(self.repolib_default_mirror),
            filepath: self.filepath@,
            uris: opt_view(self.uris),
            types: opt_view(self.types),
            suites: opt_view(self.suites),
            components: opt_view(self.components),
            architectures: opt_view(self.architectures),
            signed_by: opt_view(self.signed_by),
            enabled: opt_view(self.enabled),
        }
    }
}

/// An apt source line of a `.list` file.
pub struct LegacySource {
    pub url: String,
    pub suite: String,
    pub components: String,
    pub options: Option<String>,
    pub enabled: bool,
    pub is_source: bool,
    pub filepath: String,
}

/// The contents of a `LegacySource`.
pub ghost struct LegacyView {
    pub url: Seq<char>,
    pub suite: Seq<char>,
    pub components: Seq<char>,
    pub options: Option<Seq<char>>,
    pub enabled: bool,
    pub is_source: bool,
    pub filepath: Seq<char>,
}

impl View for LegacySource {
    type V = LegacyView;

    open spec fn view(&self) -> LegacyView {
        LegacyView {
            url: self.url@,
            suite: self.suite@,
            components: self.components@,
            options: opt_view(self.options),
            enabled: self.enabled,
            is_source: self.is_source,
            filepath: self.filepath@,
        }
    }
}

fn clone_opt(o: &Option<String>) -> (r: Option<String>)
    ensures
        opt_view(r) == opt_view(*o),
{
    match o {
        Some(s) => Some(s.clone()),
        None => None,
    }
}

impl Deb822Source {
    /// A copy of the source.
    pub fn duplicate(&self) -> (r: Self)
        ensures
            r@ == self@,
    {
        Deb822Source {
            repolib_id: clone_opt(&self.repolib_id),
            repolib_name: clone_opt(&self.repolib_name),
            repolib_default_mirror: clone_opt(&self.repolib_default_mirror),
            filepath: self.filepath.clone(),
            uris: clone_opt(&self.uris),
            types: clone_opt(&self.types),
            suites: clone_opt(&self.suites),
            components: clone_opt(&self.components),
            architectures: clone_opt(&self.architectures),
            signed_by: clone_opt(&self.signed_by),
            enabled: clone_opt(&self.enabled),
        }
    }
}

impl LegacySource {
    /// A copy of the source.
    pub fn duplicate(&self) -> (r: Self)
        ensures
            r@ == self@,
    {
        LegacySource {
            url: self.url.clone(),
            suite: self.suite.clone(),
            components: self.components.clone(),
            options: clone_opt(&self.options),
            enabled: self.enabled,
            is_source: self.is_source,
            filepath: self.filepath.clone(),
        }
    }
}

/// Whether a source is the system's own (its repolib id is `system`).
pub open spec fn is_system_source(s: Deb822View) -> bool {
    s.repolib_id == Some("system"@)
}

fn is_system(s: &Deb822Source) -> (r: bool)
    ensures
        r == is_system_source(s@),
{
    match &s.repolib_id {
        Some(id) => str_eq(id.as_str(), "system"),
        None => false,
    }
}

/// The contents of each source of a list.
pub open spec fn sources_view(v: Seq<Deb822Source>) -> Seq<Deb822View> {
    v.map_values(|s: Deb822Source| s@)
}

/// The position of the system source: the first source whose repolib id is `system`.
pub fn system_source_index(sources: &Vec<Deb822Source>) -> (r: Option<usize>)
    ensures
        match r {
            Some(i) => i < sources@.len() && is_system_source(sources@[i as int]@) && forall|j: int|
                0 <= j < i ==> !is_system_source(#[trigger] sources@[j]@),
            None => forall|j: int| 0 <= j < sources@.len() ==> !is_system_source(#[trigger] sources@[j]@),
        },
{
    let mut i: usize = 0;
    while i < sources.len()
        invariant
            i <= sources.len(),
            forall|j: int| 0 <= j < i ==> !is_system_source(#[trigger] sources@[j]@),
        decreases sources.len() - i,
    {
        if is_system(&sources[i]) {
            return Some(i);
        }
        i = i + 1;
    }
    None
}

/// The sources the user added: every source but the system's, in order.
pub fn unofficial_sources(sources: &Vec<Deb822Source>) -> (r: Vec<Deb822Source>)
    ensures
        sources_view(r@) == sources_view(sources@).filter(|s: Deb822View| !is_system_source(s)),
{
    let ghost all = sources_view(sources@);
    let mut r: Vec<Deb822Source> = Vec::new();
    let mut i: usize = 0;
    while i < sources.len()
        invariant
            i <= sources.len(),
            all == sources_view(sources@),
            sources_view(r@) == all.take(i as int).filter(|s: Deb822View| !is_system_source(s)),
        decreases sources.len() - i,
    {
        proof {
            reveal_with_fuel(Seq::<_>::filter, 1);
        }
        assert(all.take(i + 1).drop_last() =~= all.take(i as int));
        assert(all.take(i + 1).last() == sources@[i as int]@);
        if !is_system(&sources[i]) {
            let s = sources[i].duplicate();
            r.push(s);
            assert(sources_view(r@) =~= sources_view(r@).drop_last().push(s@));
        }
        assert(sources_view(r@) =~= all.take(i + 1).filter(|s: Deb822View| !is_system_source(s)));
        i = i + 1;
    }
    assert(all.take(sources.len() as int) =~= all);
    r
}

/// An entry of the list of apt sources the sources page shows.
pub enum SourceEntry {
    Deb822(Deb822Source),
    Legacy(LegacySource),
}

/// The contents of a `SourceEntry`.
pub ghost enum SourceEntryView {
    Deb822(Deb822View),
    Legacy(LegacyView),
}

impl View for SourceEntry {
    type V = SourceEntryView;

    open spec fn view(&self) -> SourceEntryView {
        match self {
            SourceEntry::Deb822(s) => SourceEntryView::Deb822(s@),
            SourceEntry::Legacy(l) => SourceEntryView::Legacy(l@),
        }
    }
}

/// The contents of each entry of a list.
pub open spec fn entries_view(v: Seq<SourceEntry>) -> Seq<SourceEntryView> {
    v.map_values(|e: SourceEntry| e@)
}

/// The list the sources page shows: the deb822 sources without the system's, in order, then
/// the legacy sources in order; where reading the legacy sources failed (`None`), none of
/// them.
pub open spec fn source_list_spec(deb822: Seq<Deb822View>, legacy: Option<Seq<LegacyView>>) -> Seq<
    SourceEntryView,
> {
    deb822.filter(|s: Deb822View| !is_system_source(s)).map_values(
        |s: Deb822View| SourceEntryView::Deb822(s),
    ) + match legacy {
        Some(l) => l.map_values(|x: LegacyView| SourceEntryView::Legacy(x)),
        None => Seq::empty(),
    }
}

/// The contents of each legacy source of a list.
pub open spec fn legacy_view(v: Seq<LegacySource>) -> Seq<LegacyView> {
    v.map_values(|l: LegacySource| l@)
}

/// The legacy sources, where reading them succeeded.
pub open spec fn opt_legacy_view(o: Option<&Vec<LegacySource>>) -> Option<Seq<LegacyView>> {
    match o {
        Some(v) => Some(legacy_view(v@)),
        None => None,
    }
}

/// Builds the list the sources page shows from the deb822 sources and the legacy sources
/// (`None` where reading them failed).
pub fn source_list(deb822: &Vec<Deb822Source>, legacy: Option<&Vec<LegacySource>>) -> (r: Vec<SourceEntry>)
    ensures
        entries_view(r@) == source_list_spec(sources_view(deb822@), opt_legacy_view(legacy)),
{
    let unofficial = unofficial_sources(deb822);
    let ghost first = sources_view(unofficial@);
    let mut r: Vec<SourceEntry> = Vec::new();
    let mut i: usize = 0;
    while i < unofficial.len()
        invariant
            i <= unofficial.len(),
            first == sources_view(unofficial@),
            entries_view(r@) == first.take(i as int).map_values(
                |s: Deb822View| SourceEntryView::Deb822(s),
            ),
        decreases unofficial.len() - i,
    {
        let s = unofficial[i].duplicate();
        let ghost prev = entries_view(r@);
        let ghost sv = s@;
        r.push(SourceEntry::Deb822(s));
        assert(entries_view(r@) =~= prev.push(SourceEntryView::Deb822(sv)));
        assert(first.take(i + 1) =~= first.take(i as int).push(unofficial@[i as int]@));
        assert(first.take(i + 1).map_values(|s: Deb822View| SourceEntryView::Deb822(s)) =~= first.take(
            i as int,
        ).map_values(|s: Deb822View| SourceEntryView::Deb822(s)).push(SourceEntryView::Deb822(sv)));
        assert(entries_view(r@) =~= first.take(i + 1).map_values(
            |s: Deb822View| SourceEntryView::Deb822(s),
        ));
        i = i + 1;
    }
    assert(first.take(unofficial.len() as int) =~= first);
    let ghost head = entries_view(r@);
    match legacy {
        Some(l) => {
            let ghost lv = legacy_view(l@);
            let mut k: usize = 0;
            while k < l.len()
                invariant
                    k <= l.len(),
                    lv == legacy_view(l@),
                    entries_view(r@) == head + lv.take(k as int).map_values(
                        |x: LegacyView| SourceEntryView::Legacy(x),
                    ),
                decreases l.len() - k,
            {
                let x = l[k].duplicate();
                let ghost prev = entries_view(r@);
                let ghost xv = x@;
                r.push(SourceEntry::Legacy(x));
                assert(entries_view(r@) =~= prev.push(SourceEntryView::Legacy(xv)));
                assert(lv.take(k + 1) =~= lv.take(k as int).push(l@[k as int]@));
                assert(lv.take(k + 1).map_values(|x: LegacyView| SourceEntryView::Legacy(x)) =~= lv.take(
                    k as int,
                ).map_values(|x: LegacyView| SourceEntryView::Legacy(x)).push(SourceEntryView::Legacy(xv)));
                assert(entries_view(r@) =~= head + lv.take(k + 1).map_values(
                    |x: LegacyView| SourceEntryView::Legacy(x),
                ));
                k = k + 1;
            }
            assert(lv.take(l.len() as int) =~= lv);
        },
        None => {
            assert(entries_view(r@) =~= head + Seq::<SourceEntryView>::empty());
        },
    }
    r
}

/// The name a deb822 source is listed under: its repolib name; else its URIs, suites and
/// components separated by spaces; else `parse_error_text`.
pub open spec fn deb822_display_name_spec(s: Deb822View, parse_error_text: Seq<char>) -> Seq<char> {
    match s.repolib_name {
        Some(n) => n,
        None => match (s.uris, s.suites, s.components) {
            (Some(u), Some(su), Some(c)) => u + " "@ + su + " "@ + c,
            _ => parse_error_text,
        },
    }
}

/// The name a deb822 source is listed under.
pub fn deb822_display_name(s: &Deb822Source, parse_error_text: &str) -> (r: String)
    ensures
        r@ == deb822_display_name_spec(s@, parse_error_text@),
{
    match &s.repolib_name {
        Some(n) => n.clone(),
        None => match (&s.uris, &s.suites, &s.components) {
            (Some(u), Some(su), Some(c)) => {
                let mut r = u.clone();
                r.append(" ");
                r.append(su.as_str());
                r.append(" ");
                r.append(c.as_str());
                r
            },
            _ => parse_error_text.to_string(),
        },
    }
}

/// The name a legacy source is listed under: `(Legacy Src)` or `(Legacy)`, then its URL,
/// suite and components, separated by spaces.
pub fn legacy_display_name(s: &LegacySource) -> (r: String)
    ensures
        r@ == (if s.is_source { "(Legacy Src)"@ } else { "(Legacy)"@ }) + " "@ + s.url@ + " "@ + s.suite@
            + " "@ + s.components@,
{
    let mut r = if s.is_source {
        "(Legacy Src)".to_string()
    } else {
        "(Legacy)".to_string()
    };
    r.append(" ");
    r.append(s.url.as_str());
    r.append(" ");
    r.append(s.suite.as_str());
    r.append(" ");
    r.append(s.components.as_str());
    r
}

/// Whether an `Enabled` value of a deb822 source enables it: a missing value does; a value
/// whose lowercase form is `no` or `false` does not; any other value does.
pub open spec fn enabled_value_spec(enabled: Option<Seq<char>>) -> bool {
    match enabled {
        None => true,
        Some(t) => !(lowercase(t) == "no"@ || lowercase(t) == "false"@),
    }
}

/// Whether a deb822 source is enabled.
pub fn deb822_enabled(enabled: &Option<String>) -> (r: bool)
    ensures
        r == enabled_value_spec(opt_view(*enabled)),
{
    match enabled {
        None => true,
        Some(t) => {
            let lower = to_lowercase(t.as_str());
            let l = lower.as_str();
            proof {
                reveal_strlit("yes");
                reveal_strlit("true");
                reveal_strlit("no");
                reveal_strlit("false");
            }
            assert(opt_view(*enabled) == Some(t@));
            assert("yes"@.len() == 3 && "true"@.len() == 4 && "no"@.len() == 2 && "false"@.len() == 5);
            if str_eq(l, "yes") || str_eq(l, "true") {
                true
            } else if str_eq(l, "no") || str_eq(l, "false") {
                false
            } else {
                true
            }
        },
    }
}

/// Whether the save button of the system mirror can be pressed: the entry differs from the
/// mirror in use.
pub fn mirror_save_enabled(entry_text: &str, current_mirror: &str) -> (r: bool)
    ensures
        r == (entry_text@ != current_mirror@),
{
    !str_eq(entry_text, current_mirror)
}

/// The system source with a new mirror: its URIs replaced by the entry text, all else kept.
pub fn with_mirror(system_source: &Deb822Source, entry_text: &str) -> (r: Deb822Source)
    ensures
        r@ == (Deb822View { uris: Some(entry_text@), ..system_source@ }),
{
    let mut r = system_source.duplicate();
    r.uris = Some(entry_text.to_string());
    r
}

/// The arguments of `modify_repo.sh` that delete a deb822 source: with its key where it
/// names one (`delete_deb822 <file> <key>`), as a plain file otherwise
/// (`delete_legacy <file>`).
pub fn deb822_removal_arguments(s: &Deb822Source) -> (r: Vec<String>)
    ensures
        strings_view(r@) == match s@.signed_by {
            Some(k) => seq!["delete_deb822"@, s@.filepath, k],
            None => seq!["delete_legacy"@, s@.filepath],
        },
{
    let mut r: Vec<String> = Vec::new();
    match &s.signed_by {
        Some(k) => {
            r.push("delete_deb822".to_string());
            r.push(s.filepath.clone());
            r.push(k.clone());
        },
        None => {
            r.push("delete_legacy".to_string());
            r.push(s.filepath.clone());
        },
    }
    assert(strings_view(r@) =~= match s@.signed_by {
        Some(k) => seq!["delete_deb822"@, s@.filepath, k],
        None => seq!["delete_legacy"@, s@.filepath],
    });
    r
}

/// The arguments of `modify_repo.sh` that delete a legacy source (`delete_legacy <file>`).
pub fn legacy_removal_arguments(s: &LegacySource) -> (r: Vec<String>)
    ensures
        strings_view(r@) == seq!["delete_legacy"@, s.filepath@],
{
    let mut r: Vec<String> = Vec::new();
    r.push("delete_legacy".to_string());
    r.push(s.filepath.clone());
    assert(strings_view(r@) =~= seq!["delete_legacy"@, s.filepath@]);
    r
}

} // verus!

verus! {

/// What `regex::Regex::new(pattern)` followed by `replace_all(text, replacement)` gives;
/// `None` where the pattern does not compile.
pub uninterp spec fn regex_replace_all_output(pattern: Seq<char>, text: Seq<char>, replacement: Seq<char>) -> Option<
    Seq<char>,
>;

/// The pattern of the characters a repository file name cannot hold.
pub open spec fn non_alphanumeric_pattern() -> Seq<char> {
    "[^a-zA-Z0-9]"@
}

/// Whether a character is an ASCII letter or digit.
pub open spec fn is_ascii_alphanumeric(c: char) -> bool {
    ('a' <= c && c <= 'z') || ('A' <= c && c <= 'Z') || ('0' <= c && c <= '9')
}

/// `text` with every character that is not an ASCII letter or digit replaced by `_`.
pub open spec fn underscore_non_alphanumeric(text: Seq<char>) -> Seq<char> {
    text.map_values(|c: char| if is_ascii_alphanumeric(c) { c } else { '_' })
}

/// Compiles `pattern` with `regex::Regex::new` and calls `Regex::replace_all` on `text`.
/// Claimed: the outcome is the one `regex_replace_all_output` names for the three strings;
/// and, as the regex documentation gives it, the pattern `[^a-zA-Z0-9]` compiles and matches
/// each single character that is not an ASCII letter or digit, so that with the replacement
/// `_` (which holds no `$` group reference) every such character becomes `_`. What other
/// patterns match is not stated.
#[verifier::external_body]
fn regex_replace_all(pattern: &str, text: &str, replacement: &str) -> (r: Option<String>)
    ensures
        opt_view(r) == regex_replace_all_output(pattern@, text@, replacement@),
        pattern@ == non_alphanumeric_pattern() && replacement@ == "_"@ ==> opt_view(r) == Some(
            underscore_non_alphanumeric(text@),
        ),
{
    match regex::Regex::new(pattern) {
        Ok(re) => Some(re.replace_all(text, replacement).into_owned()),
        Err(_) => None,
    }
}

/// The file name for a repository name: every character that is not an ASCII letter or
/// digit replaced by `_`, and the letters lowercased.
pub open spec fn repo_file_name_spec(name: Seq<char>) -> Seq<char> {
    name.map_values(|c: char| if is_ascii_alphanumeric(c) { ascii_lower_char(c) } else { '_' })
}

/// The file name for a new repository named `name` (`"WineHQ Debian"` gives
/// `"winehq_debian"`).
pub fn repo_file_name(name: &str) -> (r: Option<String>)
    ensures
        r is Some,
        r->0@ == repo_file_name_spec(name@),
{
    match regex_replace_all("[^a-zA-Z0-9]", name, "_") {
        Some(replaced) => {
            assert(replaced@ == underscore_non_alphanumeric(name@));
            assert(is_ascii_text(replaced@)) by {
                assert forall|i: int| 0 <= i < replaced@.len() implies is_ascii_char(
                    #[trigger] replaced@[i],
                ) by {
                    assert(replaced@[i] == (if is_ascii_alphanumeric(name@[i]) { name@[i] } else { '_' }));
                }
            }
            let lower = to_lowercase(replaced.as_str());
            assert(lower@ =~= repo_file_name_spec(name@));
            Some(lower)
        },
        None => {
            assert(false);
            None
        },
    }
}

/// The characters after the last `/` of a path text (all of it where there is none).
pub open spec fn last_segment(p: Seq<char>) -> Seq<char>
    decreases p.len(),
{
    if p.len() == 0 || p.last() == '/' {
        Seq::empty()
    } else {
        last_segment(p.drop_last()).push(p.last())
    }
}

/// The last component of a Unix path, as `Path::file_name` gives it: trailing `/` and `.`
/// components are passed over (as `Path::components` normalizes them away); `None` where the
/// last component is `..`, and for the root or an empty path.
pub open spec fn unix_file_name(p: Seq<char>) -> Option<Seq<char>>
    decreases p.len(),
{
    if p.len() == 0 {
        None
    } else if p.last() == '/' {
        unix_file_name(p.drop_last())
    } else if last_segment(p) == seq!['.'] {
        unix_file_name(p.drop_last())
    } else if last_segment(p) == seq!['.', '.'] {
        None
    } else {
        Some(last_segment(p))
    }
}

/// Calls `Path::file_name` on a path given as text (`to_string_lossy` is exact, as the text
/// is UTF-8). Claimed, as std documents it for Unix paths: the last component of the path,
/// `None` where the path ends in `..` or has no component (the root, an empty path); runs of
/// `/` and `.` components other than at the start are normalized away.
#[verifier::external_body]
fn file_name_of(path: &str) -> (r: Option<String>)
    ensures
        opt_view(r) == unix_file_name(path@),
{
    match std::path::Path::new(path).file_name() {
        Some(n) => Some(n.to_string_lossy().into_owned()),
        None => None,
    }
}

/// The file name of an existing deb822 source: the last component of its path, without its
/// trailing `.sources`; `None` where the path has no last component.
pub fn source_file_stem(filepath: &str) -> (r: Option<String>)
    ensures
        match unix_file_name(filepath@) {
            Some(n) => r is Some && r->0@ == strip_trailing(n, ".sources"@),
            None => r is None,
        },
{
    match file_name_of(filepath) {
        Some(n) => Some(trim_end_matches(n.as_str(), ".sources")),
        None => None,
    }
}

/// The file name of an existing legacy source: the last component of its path, without its
/// trailing `.list`; `None` where the path has no last component.
pub fn list_file_stem(filepath: &str) -> (r: Option<String>)
    ensures
        match unix_file_name(filepath@) {
            Some(n) => r is Some && r->0@ == strip_trailing(n, ".list"@),
            None => r is None,
        },
{
    match file_name_of(filepath) {
        Some(n) => Some(trim_end_matches(n.as_str(), ".list")),
        None => None,
    }
}

/// How a repository's signing key is given.
#[derive(Clone, Copy, PartialEq, Eq, Structural)]
pub enum SignMethod {
    /// By the keyrings apt already has (no `Signed-By`).
    Keyring,
    /// By a key file on this machine.
    File,
    /// By a key to download from a URL.
    Url,
}

/// The sign method the check buttons select: the file button, else the URL button, else the
/// keyrings.
pub fn sign_method_of(file_active: bool, url_active: bool) -> (r: SignMethod)
    ensures
        r == (if file_active {
            SignMethod::File
        } else if url_active {
            SignMethod::Url
        } else {
            SignMethod::Keyring
        }),
{
    if file_active {
        SignMethod::File
    } else if url_active {
        SignMethod::Url
    } else {
        SignMethod::Keyring
    }
}

/// What the add and edit dialogs of a deb822 source hold.
pub struct SourceForm {
    pub name: String,
    pub uri: String,
    pub suites: String,
    pub components: String,
    pub architectures: String,
    pub signed_by: String,
    pub sign_method: SignMethod,
    pub is_source: bool,
    pub enabled: bool,
}

/// Whether a deb822 dialog can save: name, URI, suites and components are filled in, and the
/// key is given by the keyrings or by a non-empty key entry.
pub fn source_form_complete(form: &SourceForm) -> (r: bool)
    ensures
        r == (form.name@.len() > 0 && form.uri@.len() > 0 && form.suites@.len() > 0
            && form.components@.len() > 0 && (form.sign_method == SignMethod::Keyring
            || form.signed_by@.len() > 0)),
{
    if !form.name.as_str().is_empty() && !form.uri.as_str().is_empty() && !form.suites.as_str().is_empty()
        && !form.components.as_str().is_empty() {
        if form.sign_method == SignMethod::Keyring {
            true
        } else {
            !form.signed_by.as_str().is_empty()
        }
    } else {
        false
    }
}

/// `prefix + middle + suffix`.
fn framed(prefix: &str, middle: &str, suffix: &str) -> (r: String)
    ensures
        r@ == prefix@ + middle@ + suffix@,
{
    let mut r = prefix.to_string();
    r.append(middle);
    r.append(suffix);
    r
}

/// The path a source file is installed at: `/etc/apt/sources.list.d/<file name>.source`.
pub fn installed_source_path(file_name: &str) -> (r: String)
    ensures
        r@ == "/etc/apt/sources.list.d/"@ + file_name@ + ".source"@,
{
    framed("/etc/apt/sources.list.d/", file_name, ".source")
}

/// The path a source file is written to before it is moved in place: `/tmp/<file name>.sources`.
pub fn staged_source_path(file_name: &str) -> (r: String)
    ensures
        r@ == "/tmp/"@ + file_name@ + ".sources"@,
{
    framed("/tmp/", file_name, ".sources")
}

/// The path a downloaded key is stored at: `/etc/apt/keyrings/<file name>.gpg.key`.
pub fn keyring_path(file_name: &str) -> (r: String)
    ensures
        r@ == "/etc/apt/keyrings/"@ + file_name@ + ".gpg.key"@,
{
    framed("/etc/apt/keyrings/", file_name, ".gpg.key")
}

/// The path a legacy source file is written to before it is moved in place:
/// `/tmp/<file name>.list`.
pub fn staged_list_path(file_name: &str) -> (r: String)
    ensures
        r@ == "/tmp/"@ + file_name@ + ".list"@,
{
    framed("/tmp/", file_name, ".list")
}

/// The `Types` value for a source: `deb deb-src` where source packages are wanted, `deb`
/// otherwise.
pub open spec fn types_value(is_source: bool) -> Seq<char> {
    if is_source {
        "deb deb-src"@
    } else {
        "deb"@
    }
}

/// The optional value of an entry: `None` where it is empty.
pub open spec fn nonempty(s: Seq<char>) -> Option<Seq<char>> {
    if s.len() == 0 {
        None
    } else {
        Some(s)
    }
}

/// The source the add dialog creates: the form's fields, the `Types` for its switch, the
/// architectures where given, and the key as its sign method says (the entry for a key
/// file, the keyring path for a downloaded key, none for the keyrings); nothing else set.
pub open spec fn new_source_spec(form: SourceForm, file_name: Seq<char>) -> Deb822View {
    Deb822View {
        repolib_id: None,
        repolib_name: Some(form.name@),
        repolib_default_mirror: None,
        filepath: "/etc/apt/sources.list.d/"@ + file_name + ".source"@,
        uris: Some(form.uri@),
        types: Some(types_value(form.is_source)),
        suites: Some(form.suites@),
        components: Some(form.components@),
        architectures: nonempty(form.architectures@),
        signed_by: match form.sign_method {
            SignMethod::File => Some(form.signed_by@),
            SignMethod::Url => Some("/etc/apt/keyrings/"@ + file_name + ".gpg.key"@),
            SignMethod::Keyring => None,
        },
        enabled: None,
    }
}

fn types_for(is_source: bool) -> (r: String)
    ensures
        r@ == types_value(is_source),
{
    if is_source {
        "deb deb-src".to_string()
    } else {
        "deb".to_string()
    }
}

fn nonempty_exec(s: &String) -> (r: Option<String>)
    ensures
        opt_view(r) == nonempty(s@),
{
    if s.as_str().is_empty() {
        None
    } else {
        Some(s.clone())
    }
}

/// The source the add dialog creates, for the file name made from its name.
pub fn new_source(form: &SourceForm, file_name: &str) -> (r: Deb822Source)
    ensures
        r@ == new_source_spec(*form, file_name@),
{
    Deb822Source {
        repolib_id: None,
        repolib_name: Some(form.name.clone()),
        repolib_default_mirror: None,
        filepath: installed_source_path(file_name),
        uris: Some(form.uri.clone()),
        types: Some(types_for(form.is_source)),
        suites: Some(form.suites.clone()),
        components: Some(form.components.clone()),
        architectures: nonempty_exec(&form.architectures),
        signed_by: match form.sign_method {
            SignMethod::File => Some(form.signed_by.clone()),
            SignMethod::Url => Some(keyring_path(file_name)),
            SignMethod::Keyring => None,
        },
        enabled: None,
    }
}

/// The arguments of `modify_repo.sh` that move a new source in place: for a key to download,
/// `deb822_move_with_wget <file name> <key URL> <keyring path>`; otherwise
/// `deb822_move <file name>`.
pub fn add_source_arguments(form: &SourceForm, file_name: &str) -> (r: Vec<String>)
    ensures
        strings_view(r@) == (if form.sign_method == SignMethod::Url {
            seq![
                "deb822_move_with_wget"@,
                file_name@,
                form.signed_by@,
                "/etc/apt/keyrings/"@ + file_name@ + ".gpg.key"@,
            ]
        } else {
            seq!["deb822_move"@, file_name@]
        }),
{
    let mut r: Vec<String> = Vec::new();
    if form.sign_method == SignMethod::Url {
        r.push("deb822_move_with_wget".to_string());
        r.push(file_name.to_string());
        r.push(form.signed_by.clone());
        r.push(keyring_path(file_name));
        assert(strings_view(r@) =~= seq![
            "deb822_move_with_wget"@,
            file_name@,
            form.signed_by@,
            "/etc/apt/keyrings/"@ + file_name@ + ".gpg.key"@,
        ]);
    } else {
        r.push("deb822_move".to_string());
        r.push(file_name.to_string());
        assert(strings_view(r@) =~= seq!["deb822_move"@, file_name@]);
    }
    r
}

/// The entry text for an optional field: the value, or nothing.
pub open spec fn entry_text(o: Option<Seq<char>>) -> Seq<char> {
    match o {
        Some(s) => s,
        None => Seq::empty(),
    }
}

fn entry_text_exec(o: &Option<String>) -> (r: String)
    ensures
        r@ == entry_text(opt_view(*o)),
{
    match o {
        Some(s) => s.clone(),
        None => String::new(),
    }
}

/// The edit dialog's form for an existing source: its fields (empty where missing); a key
/// file where it names a key, the keyrings otherwise; enabled as its `Enabled` value says;
/// source packages where its types hold `deb-src`.
pub fn edit_form_for(s: &Deb822Source) -> (r: SourceForm)
    ensures
        r.name@ == entry_text(s@.repolib_name),
        r.uri@ == entry_text(s@.uris),
        r.suites@ == entry_text(s@.suites),
        r.components@ == entry_text(s@.components),
        r.architectures@ == entry_text(s@.architectures),
        r.signed_by@ == entry_text(s@.signed_by),
        r.sign_method == (if s@.signed_by is Some { SignMethod::File } else { SignMethod::Keyring }),
        r.enabled == enabled_value_spec(s@.enabled),
        r.is_source == match s@.types {
            Some(t) => has_substring(t, "deb-src"@),
            None => false,
        },
{
    SourceForm {
        name: entry_text_exec(&s.repolib_name),
        uri: entry_text_exec(&s.uris),
        suites: entry_text_exec(&s.suites),
        components: entry_text_exec(&s.components),
        architectures: entry_text_exec(&s.architectures),
        signed_by: entry_text_exec(&s.signed_by),
        sign_method: if s.signed_by.is_some() {
            SignMethod::File
        } else {
            SignMethod::Keyring
        },
        enabled: deb822_enabled(&s.enabled),
        is_source: match &s.types {
            Some(t) => contains_str(t.as_str(), "deb-src"),
            None => false,
        },
    }
}

/// The source the edit dialog saves: the form's fields over the edited source (whose
/// repolib id and default mirror stay), installed under `file_name`; a key only where a key
/// file is chosen; `Enabled` set to `yes` or `no`.
pub open spec fn edited_source_spec(current: Deb822View, form: SourceForm, file_name: Seq<char>) -> Deb822View {
    Deb822View {
        repolib_name: Some(form.name@),
        filepath: "/etc/apt/sources.list.d/"@ + file_name + ".source"@,
        uris: Some(form.uri@),
        types: Some(types_value(form.is_source)),
        suites: Some(form.suites@),
        components: Some(form.components@),
        architectures: nonempty(form.architectures@),
        signed_by: if form.sign_method == SignMethod::File {
            Some(form.signed_by@)
        } else {
            None
        },
        enabled: Some(if form.enabled { "yes"@ } else { "no"@ }),
        ..current
    }
}

/// The source the edit dialog saves.
pub fn edited_source(current: &Deb822Source, form: &SourceForm, file_name: &str) -> (r: Deb822Source)
    ensures
        r@ == edited_source_spec(current@, *form, file_name@),
{
    let mut r = current.duplicate();
    r.repolib_name = Some(form.name.clone());
    r.filepath = installed_source_path(file_name);
    r.uris = Some(form.uri.clone());
    r.types = Some(types_for(form.is_source));
    r.suites = Some(form.suites.clone());
    r.components = Some(form.components.clone());
    r.architectures = nonempty_exec(&form.architectures);
    r.signed_by = if form.sign_method == SignMethod::File {
        Some(form.signed_by.clone())
    } else {
        None
    };
    r.enabled = Some(
        if form.enabled {
            "yes".to_string()
        } else {
            "no".to_string()
        },
    );
    r
}

/// The arguments of `modify_repo.sh` that move an edited source in place (`deb822_move
/// <file name>`).
pub fn edit_source_arguments(file_name: &str) -> (r: Vec<String>)
    ensures
        strings_view(r@) == seq!["deb822_move"@, file_name@],
{
    let mut r: Vec<String> = Vec::new();
    r.push("deb822_move".to_string());
    r.push(file_name.to_string());
    assert(strings_view(r@) =~= seq!["deb822_move"@, file_name@]);
    r
}

/// The arguments of `modify_repo.sh` that move the system source with its new mirror in
/// place (`deb822_move system system`).
pub fn mirror_save_arguments() -> (r: Vec<String>)
    ensures
        strings_view(r@) == seq!["deb822_move"@, "system"@, "system"@],
{
    let mut r: Vec<String> = Vec::new();
    r.push("deb822_move".to_string());
    r.push("system".to_string());
    r.push("system".to_string());
    assert(strings_view(r@) =~= seq!["deb822_move"@, "system"@, "system"@]);
    r
}

/// What the edit dialog of a legacy source holds.
pub struct LegacyForm {
    pub uri: String,
    pub suites: String,
    pub components: String,
    pub options: String,
    pub is_source: bool,
    pub enabled: bool,
}

/// The edit dialog's form for a legacy source: its fields, its options (empty where it has
/// none), and its two switches.
pub fn legacy_edit_form_for(s: &LegacySource) -> (r: LegacyForm)
    ensures
        r.uri@ == s.url@,
        r.suites@ == s.suite@,
        r.components@ == s.components@,
        r.options@ == entry_text(opt_view(s.options)),
        r.is_source == s.is_source,
        r.enabled == s.enabled,
{
    LegacyForm {
        uri: s.url.clone(),
        suites: s.suite.clone(),
        components: s.components.clone(),
        options: entry_text_exec(&s.options),
        is_source: s.is_source,
        enabled: s.enabled,
    }
}

/// Whether the legacy edit dialog can save: URI, suites and components are filled in.
pub fn legacy_form_complete(form: &LegacyForm) -> (r: bool)
    ensures
        r == (form.uri@.len() > 0 && form.suites@.len() > 0 && form.components@.len() > 0),
{
    !form.uri.as_str().is_empty() && !form.suites.as_str().is_empty() && !form.components.as_str().is_empty()
}

/// The legacy source the edit dialog saves: the form's fields (the options always set), the
/// file path kept.
pub fn edited_legacy_source(current: &LegacySource, form: &LegacyForm) -> (r: LegacySource)
    ensures
        r.url@ == form.uri@,
        r.suite@ == form.suites@,
        r.components@ == form.components@,
        opt_view(r.options) == Some(form.options@),
        r.is_source == form.is_source,
        r.enabled == form.enabled,
        r.filepath@ == current.filepath@,
{
    LegacySource {
        url: form.uri.clone(),
        suite: form.suites.clone(),
        components: form.components.clone(),
        options: Some(form.options.clone()),
        enabled: form.enabled,
        is_source: form.is_source,
        filepath: current.filepath.clone(),
    }
}

/// Saving the edit dialog of a deb822 source without changing its form keeps the source's
/// repolib id, name, default mirror, URIs, suites, components, key and architectures, for a
/// source whose name, URIs, suites and components are set and whose architectures are not
/// set to the empty text.
pub proof fn law_unchanged_edit_keeps_source(s: Deb822View, form: SourceForm, file_name: Seq<char>)
    requires
        form.name@ == entry_text(s.repolib_name),
        form.uri@ == entry_text(s.uris),
        form.suites@ == entry_text(s.suites),
        form.components@ == entry_text(s.components),
        form.architectures@ == entry_text(s.architectures),
        form.signed_by@ == entry_text(s.signed_by),
        form.sign_method == (if s.signed_by is Some { SignMethod::File } else { SignMethod::Keyring }),
        s.repolib_name is Some,
        s.uris is Some,
        s.suites is Some,
        s.components is Some,
        s.architectures != Some(Seq::<char>::empty()),
    ensures
        ({
            let e = edited_source_spec(s, form, file_name);
            &&& e.repolib_id == s.repolib_id
            &&& e.repolib_name == s.repolib_name
            &&& e.repolib_default_mirror == s.repolib_default_mirror
            &&& e.uris == s.uris
            &&& e.suites == s.suites
            &&& e.components == s.components
            &&& e.signed_by == s.signed_by
            &&& e.architectures == s.architectures
        }),
{
    if let Some(a) = s.architectures {
        assert(a.len() > 0) by {
            if a.len() == 0 {
                assert(a =~= Seq::<char>::empty());
            }
        }
    }
}

} // verus!

verus! {

proof fn lemma_types_mark_source_packages(is_source: bool)
    ensures
        has_substring(types_value(is_source), "deb-src"@) == is_source,
{
    reveal_strlit("deb deb-src");
    reveal_strlit("deb");
    reveal_strlit("deb-src");
    if is_source {
        assert(types_value(is_source).subrange(4int, 4int + "deb-src"@.len()) =~= "deb-src"@);
    } else {
        assert(types_value(is_source).len() < "deb-src"@.len());
    }
}

/// A new source asks for source packages (its `Types` holds `deb-src`) exactly when the add
/// dialog's source-packages switch is on, so the edit dialog shows that switch as it was set.
pub proof fn law_new_source_types_follow_switch(form: SourceForm, file_name: Seq<char>)
    ensures
        new_source_spec(form, file_name).types is Some,
        has_substring(new_source_spec(form, file_name).types->0, "deb-src"@) == form.is_source,
        (new_source_spec(form, file_name).types->0 == "deb deb-src"@) == form.is_source,
{
    lemma_types_mark_source_packages(form.is_source);
    reveal_strlit("deb deb-src");
    reveal_strlit("deb");
    assert("deb"@.len() != "deb deb-src"@.len());
}

/// A saved edit asks for source packages exactly when the edit dialog's switch is on, and is
/// enabled (`Enabled: yes`) exactly when its enabled switch is on, `Enabled: no` otherwise.
pub proof fn law_edited_source_follows_switches(current: Deb822View, form: SourceForm, file_name: Seq<char>)
    ensures
        edited_source_spec(current, form, file_name).types is Some,
        has_substring(edited_source_spec(current, form, file_name).types->0, "deb-src"@) == form.is_source,
        edited_source_spec(current, form, file_name).enabled is Some,
        (edited_source_spec(current, form, file_name).enabled->0 == "yes"@) == form.enabled,
        (edited_source_spec(current, form, file_name).enabled->0 == "no"@) == !form.enabled,
{
    lemma_types_mark_source_packages(form.is_source);
    reveal_strlit("yes");
    reveal_strlit("no");
    assert("yes"@.len() != "no"@.len());
}

} // verus!
