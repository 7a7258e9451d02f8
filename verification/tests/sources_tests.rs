use pikman_update_manager::sources::{
    add_source_arguments, deb822_display_name, deb822_enabled, deb822_removal_arguments,
    edit_form_for, edit_source_arguments, edited_legacy_source, edited_source,
    installed_source_path, keyring_path, legacy_display_name, legacy_edit_form_for,
    legacy_form_complete, legacy_removal_arguments, mirror_save_enabled, new_source,
    repo_file_name, sign_method_of, source_file_stem, source_form_complete, staged_list_path,
    staged_source_path, system_source_index, unofficial_sources, with_mirror, Deb822Source,
    LegacySource, SignMethod, SourceForm, mirror_save_arguments, list_file_stem, source_list,
    SourceEntry,
};

fn s(v: &str) -> Option<String> {
    Some(v.to_string())
}

fn source(id: Option<String>, name: Option<String>) -> Deb822Source {
    Deb822Source {
        repolib_id: id,
        repolib_name: name,
        repolib_default_mirror: None,
        filepath: "/etc/apt/sources.list.d/test.sources".to_string(),
        uris: s("http://deb.example.org/"),
        types: s("deb deb-src"),
        suites: s("stable"),
        components: s("main"),
        architectures: None,
        signed_by: s("/etc/apt/keyrings/test.gpg"),
        enabled: s("no"),
    }
}

fn form(method: SignMethod) -> SourceForm {
    SourceForm {
        name: "My Repo".to_string(),
        uri: "http://repo.example.org/".to_string(),
        suites: "stable".to_string(),
        components: "main".to_string(),
        architectures: "".to_string(),
        signed_by: "https://repo.example.org/key.gpg".to_string(),
        sign_method: method,
        is_source: false,
        enabled: true,
    }
}

#[test]
fn finds_system_source() {
    let v = vec![source(None, s("a")), source(s("system"), s("b")), source(s("system"), s("c"))];
    assert_eq!(system_source_index(&v), Some(1));
    assert_eq!(system_source_index(&vec![source(None, None)]), None);
    let others = unofficial_sources(&v);
    assert_eq!(others.len(), 1);
    assert_eq!(others[0].repolib_name, s("a"));
}

#[test]
fn display_names() {
    assert_eq!(deb822_display_name(&source(None, s("Repo")), "error"), "Repo");
    assert_eq!(deb822_display_name(&source(None, None), "error"), "http://deb.example.org/ stable main");
    let mut broken = source(None, None);
    broken.suites = None;
    assert_eq!(deb822_display_name(&broken, "error"), "error");
    let legacy = LegacySource {
        url: "http://x/".to_string(),
        suite: "sid".to_string(),
        components: "main contrib".to_string(),
        options: None,
        enabled: true,
        is_source: true,
        filepath: "/etc/apt/sources.list".to_string(),
    };
    assert_eq!(legacy_display_name(&legacy), "(Legacy Src) http://x/ sid main contrib");
}

#[test]
fn enabled_values() {
    assert!(deb822_enabled(&None));
    assert!(deb822_enabled(&s("yes")));
    assert!(deb822_enabled(&s("TRUE")));
    assert!(!deb822_enabled(&s("No")));
    assert!(!deb822_enabled(&s("false")));
    assert!(deb822_enabled(&s("maybe")));
}

#[test]
fn mirror_change() {
    assert!(mirror_save_enabled("http://a/", "http://b/"));
    assert!(!mirror_save_enabled("http://a/", "http://a/"));
    let m = with_mirror(&source(s("system"), s("System")), "http://mirror/");
    assert_eq!(m.uris, s("http://mirror/"));
    assert_eq!(m.suites, s("stable"));
}

#[test]
fn removal_arguments() {
    assert_eq!(
        deb822_removal_arguments(&source(None, None)),
        vec!["delete_deb822", "/etc/apt/sources.list.d/test.sources", "/etc/apt/keyrings/test.gpg"]
    );
    let mut unsigned = source(None, None);
    unsigned.signed_by = None;
    assert_eq!(
        deb822_removal_arguments(&unsigned),
        vec!["delete_legacy", "/etc/apt/sources.list.d/test.sources"]
    );
    let legacy = LegacySource {
        url: "u".to_string(),
        suite: "s".to_string(),
        components: "c".to_string(),
        options: None,
        enabled: true,
        is_source: false,
        filepath: "/etc/apt/sources.list.d/x.list".to_string(),
    };
    assert_eq!(legacy_removal_arguments(&legacy), vec!["delete_legacy", "/etc/apt/sources.list.d/x.list"]);
}

#[test]
fn repo_file_names() {
    assert_eq!(repo_file_name("My Repo-1"), s("my_repo_1"));
    assert_eq!(repo_file_name("abc"), s("abc"));
    assert_eq!(repo_file_name("WineHQ Debian"), s("winehq_debian"));
    assert_eq!(repo_file_name("Äpfel"), s("_pfel"));
}

#[test]
fn source_file_stems() {
    assert_eq!(source_file_stem("/etc/apt/sources.list.d/pika.sources"), s("pika"));
    assert_eq!(source_file_stem("/etc/apt/sources.list.d/pika.list"), s("pika.list"));
    assert_eq!(source_file_stem("/"), None);
    assert_eq!(source_file_stem(""), None);
    assert_eq!(source_file_stem("/etc/apt/.."), None);
    assert_eq!(source_file_stem("/etc/apt/x.sources/"), s("x"));
    assert_eq!(source_file_stem("/etc/apt/x.sources/."), s("x"));
    assert_eq!(source_file_stem("x.sources"), s("x"));
}

#[test]
fn sign_methods() {
    assert!(sign_method_of(true, true) == SignMethod::File);
    assert!(sign_method_of(false, true) == SignMethod::Url);
    assert!(sign_method_of(false, false) == SignMethod::Keyring);
}

#[test]
fn form_completeness() {
    assert!(source_form_complete(&form(SignMethod::Url)));
    let mut f = form(SignMethod::File);
    f.signed_by = String::new();
    assert!(!source_form_complete(&f));
    f.sign_method = SignMethod::Keyring;
    assert!(source_form_complete(&f));
    f.suites = String::new();
    assert!(!source_form_complete(&f));
}

#[test]
fn paths() {
    assert_eq!(installed_source_path("my_repo"), "/etc/apt/sources.list.d/my_repo.source");
    assert_eq!(staged_source_path("my_repo"), "/tmp/my_repo.sources");
    assert_eq!(keyring_path("my_repo"), "/etc/apt/keyrings/my_repo.gpg.key");
    assert_eq!(staged_list_path("my_repo"), "/tmp/my_repo.list");
}

#[test]
fn new_source_from_form() {
    let n = new_source(&form(SignMethod::Url), "my_repo");
    assert_eq!(n.repolib_name, s("My Repo"));
    assert_eq!(n.filepath, "/etc/apt/sources.list.d/my_repo.source");
    assert_eq!(n.types, s("deb"));
    assert_eq!(n.architectures, None);
    assert_eq!(n.signed_by, s("/etc/apt/keyrings/my_repo.gpg.key"));
    assert_eq!(n.enabled, None);
    let k = new_source(&form(SignMethod::Keyring), "my_repo");
    assert_eq!(k.signed_by, None);
    let f = new_source(&form(SignMethod::File), "my_repo");
    assert_eq!(f.signed_by, s("https://repo.example.org/key.gpg"));
}

#[test]
fn add_arguments() {
    assert_eq!(
        add_source_arguments(&form(SignMethod::Url), "my_repo"),
        vec!["deb822_move_with_wget", "my_repo", "https://repo.example.org/key.gpg", "/etc/apt/keyrings/my_repo.gpg.key"]
    );
    assert_eq!(add_source_arguments(&form(SignMethod::File), "my_repo"), vec!["deb822_move", "my_repo"]);
    assert_eq!(edit_source_arguments("my_repo"), vec!["deb822_move", "my_repo"]);
}

#[test]
fn edit_form_and_back() {
    let current = source(None, s("Repo"));
    let f = edit_form_for(&current);
    assert_eq!(f.name, "Repo");
    assert_eq!(f.uri, "http://deb.example.org/");
    assert_eq!(f.architectures, "");
    assert!(f.sign_method == SignMethod::File);
    assert!(!f.enabled);
    assert!(f.is_source);
    let edited = edited_source(&current, &f, "test");
    assert_eq!(edited.repolib_name, s("Repo"));
    assert_eq!(edited.filepath, "/etc/apt/sources.list.d/test.source");
    assert_eq!(edited.types, s("deb deb-src"));
    assert_eq!(edited.signed_by, s("/etc/apt/keyrings/test.gpg"));
    assert_eq!(edited.enabled, s("no"));
    assert_eq!(edited.architectures, None);
}

#[test]
fn legacy_edit() {
    let legacy = LegacySource {
        url: "http://x/".to_string(),
        suite: "sid".to_string(),
        components: "main".to_string(),
        options: None,
        enabled: false,
        is_source: false,
        filepath: "/etc/apt/sources.list.d/x.list".to_string(),
    };
    let mut f = legacy_edit_form_for(&legacy);
    assert_eq!(f.options, "");
    assert!(legacy_form_complete(&f));
    f.enabled = true;
    let e = edited_legacy_source(&legacy, &f);
    assert!(e.enabled);
    assert_eq!(e.options, s(""));
    assert_eq!(e.filepath, "/etc/apt/sources.list.d/x.list");
    f.uri = String::new();
    assert!(!legacy_form_complete(&f));
}

#[test]
fn mirror_save_args() {
    assert_eq!(mirror_save_arguments(), vec!["deb822_move", "system", "system"]);
}

fn legacy(url: &str) -> LegacySource {
    LegacySource {
        url: url.to_string(),
        suite: "sid".to_string(),
        components: "main".to_string(),
        options: None,
        enabled: true,
        is_source: false,
        filepath: "/etc/apt/sources.list".to_string(),
    }
}

#[test]
fn sources_page_list() {
    let deb = vec![source(None, s("a")), source(s("system"), s("sys")), source(None, s("b"))];
    let legacies = vec![legacy("http://x/"), legacy("http://y/")];
    let list = source_list(&deb, Some(&legacies));
    assert_eq!(list.len(), 4);
    match &list[0] { SourceEntry::Deb822(d) => assert_eq!(d.repolib_name, s("a")), _ => panic!("deb822 first") }
    match &list[1] { SourceEntry::Deb822(d) => assert_eq!(d.repolib_name, s("b")), _ => panic!("deb822 second") }
    match &list[2] { SourceEntry::Legacy(l) => assert_eq!(l.url, "http://x/"), _ => panic!("legacy third") }
    match &list[3] { SourceEntry::Legacy(l) => assert_eq!(l.url, "http://y/"), _ => panic!("legacy fourth") }
    let list = source_list(&deb, None);
    assert_eq!(list.len(), 2);
    let dup = legacies[1].duplicate();
    assert_eq!(dup.url, "http://y/");
}

#[test]
fn list_file_stems() {
    assert_eq!(list_file_stem("/etc/apt/sources.list.d/wine.list"), s("wine"));
    assert_eq!(list_file_stem("/etc/apt/sources.list"), s("sources"));
    assert_eq!(list_file_stem("/"), None);
}
