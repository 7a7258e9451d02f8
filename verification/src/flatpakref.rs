use vstd::prelude::*;
use configparser::ini::Ini;
use crate::template::{fill_template2, opt_view, strfmt_output, two_vars};
use crate::text::lowercase;

verus! {

#[verifier::external_type_specification]
#[verifier::external_body]
pub struct ExIni(Ini);

/// What an `Ini` holds: for each section name, its keys with their values (a key written
/// without a value has none).
pub uninterp spec fn ini_contents(ini: Ini) -> Map<Seq<char>, Map<Seq<char>, Option<Seq<char>>>>;

/// Whether an `Ini` holds the settings `Ini::new` gives it: section and key names are
/// lowercased; a key missing from a section is not looked up in the default section
/// (`default`); `=` and `:` separate keys from values; `;` and `#` start comments, also
/// inline; values do not continue over several lines. `ini_parse` names what `Ini::read`
/// parses under these settings.
pub uninterp spec fn ini_folds_case(ini: Ini) -> bool;

/// What `Ini::read` parses from a text with the settings of `Ini::new`; `None` where it
/// reports an error.
pub uninterp spec fn ini_parse(text: Seq<char>) -> Option<Map<Seq<char>, Map<Seq<char>, Option<Seq<char>>>>>;

/// The value of `key` in `section`, where both are present and the key has a value.
pub open spec fn ini_lookup(
    contents: Map<Seq<char>, Map<Seq<char>, Option<Seq<char>>>>,
    section: Seq<char>,
    key: Seq<char>,
) -> Option<Seq<char>> {
    if contents.contains_key(section) && contents[section].contains_key(key) {
        contents[section][key]
    } else {
        None
    }
}

/// Contents with no section.
pub open spec fn no_sections() -> Map<Seq<char>, Map<Seq<char>, Option<Seq<char>>>> {
    Map::empty()
}

/// Calls `Ini::new`. Claimed, as its source shows: the result holds nothing and folds case.
#[verifier::external_body]
fn ini_new() -> (r: Ini)
    ensures
        ini_contents(r) == no_sections(),
        ini_folds_case(r),
{
    Ini::new()
}

/// Calls `Ini::read`. Claimed, as its source shows: it succeeds exactly when the text parses,
/// and then holds what was parsed (replacing what it held); on an error it keeps what it
/// held. How the text is parsed is not stated (it is named by `ini_parse`).
#[verifier::external_body]
fn ini_read(ini: &mut Ini, input: String) -> (ok: bool)
    requires
        ini_folds_case(*old(ini)),
    ensures
        ok == ini_parse(input@) is Some,
        ok ==> ini_contents(*final(ini)) == ini_parse(input@)->0,
        !ok ==> ini_contents(*final(ini)) == ini_contents(*old(ini)),
        ini_folds_case(*final(ini)),
{
    ini.read(input).is_ok()
}

/// Calls `Ini::get`. Claimed, as its source shows for an `Ini` made by `Ini::new`: the value
/// of the lowercased key in the lowercased section, where there is one.
#[verifier::external_body]
fn ini_get(ini: &Ini, section: &str, key: &str) -> (r: Option<String>)
    requires
        ini_folds_case(*ini),
    ensures
        opt_view(r) == ini_lookup(ini_contents(*ini), lowercase(section@), lowercase(key@)),
{
    ini.get(section, key)
}

/// The fields of a `.flatpakref` file that the installer reads.
pub struct FlatpakRefFile {
    /// `Name` of the `[Flatpak Ref]` group.
    pub name: Option<String>,
    /// `SuggestRemoteName` of the `[Flatpak Ref]` group.
    pub suggest_remote_name: Option<String>,
    /// `RuntimeRepo` of the `[Flatpak Ref]` group.
    pub runtime_repo: Option<String>,
}

/// The value of a key of the `[Flatpak Ref]` group in parsed contents.
pub open spec fn flatpakref_field(contents: Map<Seq<char>, Map<Seq<char>, Option<Seq<char>>>>, key: Seq<char>) -> Option<
    Seq<char>,
> {
    ini_lookup(contents, lowercase("Flatpak Ref"@), lowercase(key))
}

/// Reads the fields of a `.flatpakref` file from its text; `None` where the text is not a
/// valid INI file.
pub fn read_flatpakref(text: String) -> (r: Option<FlatpakRefFile>)
    ensures
        r is Some == ini_parse(text@) is Some,
        r is Some ==> opt_view(r->0.name) == flatpakref_field(ini_parse(text@)->0, "Name"@),
        r is Some ==> opt_view(r->0.suggest_remote_name) == flatpakref_field(
            ini_parse(text@)->0,
            "SuggestRemoteName"@,
        ),
        r is Some ==> opt_view(r->0.runtime_repo) == flatpakref_field(
            ini_parse(text@)->0,
            "RuntimeRepo"@,
        ),
{
    let ghost t = text@;
    let mut ini = ini_new();
    if !ini_read(&mut ini, text) {
        return None;
    }
    let name = ini_get(&ini, "Flatpak Ref", "Name");
    let suggest_remote_name = ini_get(&ini, "Flatpak Ref", "SuggestRemoteName");
    let runtime_repo = ini_get(&ini, "Flatpak Ref", "RuntimeRepo");
    Some(FlatpakRefFile { name, suggest_remote_name, runtime_repo })
}

/// What the flatpakref installer dialog got for its path entry.
pub enum FlatpakRefSource {
    /// The entry is empty.
    EmptyPath,
    /// The file could not be read.
    Unreadable,
    /// The text of the file.
    Text(String),
}

/// The state of the flatpakref installer dialog: whether it can install, the label it shows,
/// and the remote the flatpakref suggests (kept from the last file that named one).
pub struct FlatpakRefDialog {
    pub add_enabled: bool,
    pub label: String,
    pub remote_name: Option<String>,
    pub remote_url: Option<String>,
}

/// The label for a flatpakref that names its app and a remote.
pub open spec fn install_label(template: Seq<char>, name: Seq<char>, remote: Seq<char>) -> Option<Seq<char>> {
    strfmt_output(template, two_vars("NAME"@, name, "REMOTE"@, remote))
}

impl FlatpakRefDialog {
    /// The dialog before any path is entered.
    pub fn new() -> (r: Self)
        ensures
            !r.add_enabled,
            r.label@ == Seq::<char>::empty(),
            r.remote_name is None,
            r.remote_url is None,
    {
        FlatpakRefDialog { add_enabled: false, label: String::new(), remote_name: None, remote_url: None }
    }

    /// Updates the dialog for what its path entry now gives. Without a readable, valid
    /// flatpakref the dialog cannot install and shows no label. A valid one lets it install;
    /// where the file names its app (`Name`) and a remote (`SuggestRemoteName`), the label is
    /// `label_template` filled with `NAME` and `REMOTE`, and that remote with its
    /// `RuntimeRepo` is remembered; otherwise the label is empty and the remembered remote
    /// stays. Returns `false`, and leaves the dialog as it was, where the label template
    /// cannot be filled.
    pub fn update(&mut self, source: FlatpakRefSource, label_template: &str) -> (ok: bool)
        ensures
            match source {
                FlatpakRefSource::EmptyPath | FlatpakRefSource::Unreadable => ok && !final(self).add_enabled
                    && final(self).label@ == Seq::<char>::empty() && final(self).remote_name
                    == old(self).remote_name && final(self).remote_url == old(self).remote_url,
                FlatpakRefSource::Text(t) => match ini_parse(t@) {
                    None => ok && !final(self).add_enabled && final(self).label@ == Seq::<char>::empty()
                        && final(self).remote_name == old(self).remote_name && final(self).remote_url
                        == old(self).remote_url,
                    Some(contents) => {
                        let name = flatpakref_field(contents, "Name"@);
                        let remote = flatpakref_field(contents, "SuggestRemoteName"@);
                        if name is Some && remote is Some {
                            let label = install_label(label_template@, name->0, remote->0);
                            &&& ok == label is Some
                            &&& ok ==> final(self).add_enabled
                            &&& ok ==> final(self).label@ == label->0
                            &&& ok ==> opt_view(final(self).remote_name) == remote
                            &&& ok ==> opt_view(final(self).remote_url) == flatpakref_field(
                                contents,
                                "RuntimeRepo"@,
                            )
                            &&& !ok ==> *final(self) == *old(self)
                        } else {
                            &&& ok
                            &&& final(self).add_enabled
                            &&& final(self).label@ == Seq::<char>::empty()
                            &&& final(self).remote_name == old(self).remote_name
                            &&& final(self).remote_url == old(self).remote_url
                        }
                    },
                },
            },
    {
        match source {
            FlatpakRefSource::EmptyPath | FlatpakRefSource::Unreadable => {
                self.add_enabled = false;
                self.label = String::new();
                true
            },
            FlatpakRefSource::Text(t) => {
                match read_flatpakref(t) {
                    None => {
                        self.add_enabled = false;
                        self.label = String::new();
                        true
                    },
                    Some(file) => {
                        match (&file.name, &file.suggest_remote_name) {
                            (Some(name), Some(remote)) => {
                                match fill_template2(label_template, "NAME", name.as_str(), "REMOTE", remote.as_str()) {
                                    Some(label) => {
                                        self.label = label;
                                        self.remote_name = file.suggest_remote_name;
                                        self.remote_url = file.runtime_repo;
                                        self.add_enabled = true;
                                        true
                                    },
                                    None => false,
                                }
                            },
                            _ => {
                                self.label = String::new();
                                self.add_enabled = true;
                                true
                            },
                        }
                    },
                }
            },
        }
    }

    /// The remote to add before installing: the remembered name and URL, where both are
    /// known.
    pub fn remote_to_add(&self) -> (r: Option<(String, String)>)
        ensures
            match (self.remote_name, self.remote_url) {
                (Some(n), Some(u)) => r == Some((n, u)),
                _ => r is None,
            },
    {
        match (&self.remote_name, &self.remote_url) {
            (Some(n), Some(u)) => Some((n.clone(), u.clone())),
            _ => None,
        }
    }
}

} // verus!
