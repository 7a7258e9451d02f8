use vstd::prelude::*;
use crate::exclusions::strings_view;
use crate::text::{prefix_before, take_before, str_eq};

verus! {

/// The locale named by a `LANG` value: what comes before its first `.` (`"en_US.UTF-8"`
/// gives `"en_US"`).
pub fn locale_from_lang(lang: &str) -> (r: String)
    ensures
        r@ == prefix_before(lang@, '.'),
{
    take_before(lang, '.')
}

/// What the window does for the arguments of a command line.
pub struct CommandLineActions {
    /// Show the window.
    pub present_window: bool,
    /// Open the page of apt sources.
    pub open_software_properties: bool,
    /// Open the page of flatpak remotes.
    pub open_flatpak_settings: bool,
    /// Open the flatpakref installer with this text in its entry.
    pub flatpak_installer_entry: Option<String>,
}

/// The index of the first argument equal to `arg`, if any.
pub open spec fn first_index_of(args: Seq<Seq<char>>, arg: Seq<char>) -> Option<int> {
    if args.contains(arg) {
        Some(choose|i: int| 0 <= i < args.len() && args[i] == arg && forall|j: int| 0 <= j < i ==> args[j] != arg)
    } else {
        None
    }
}

/// The entry text for the flatpakref installer: the argument right after the first
/// `--flatpak-installer`, or the empty text where that is the last argument.
pub open spec fn installer_entry(args: Seq<Seq<char>>, first: int) -> Seq<char> {
    if first + 1 > args.len() - 1 {
        Seq::empty()
    } else {
        args[first + 1]
    }
}

fn find_arg(args: &Vec<String>, arg: &str) -> (r: Option<usize>)
    ensures
        match r {
            Some(i) => i < args@.len() && args@[i as int]@ == arg@ && forall|j: int|
                0 <= j < i ==> args@[j]@ != arg@,
            None => forall|j: int| 0 <= j < args@.len() ==> args@[j]@ != arg@,
        },
{
    let mut i: usize = 0;
    while i < args.len()
        invariant
            i <= args.len(),
            forall|j: int| 0 <= j < i ==> args@[j]@ != arg@,
        decreases args.len() - i,
    {
        if str_eq(args[i].as_str(), arg) {
            return Some(i);
        }
        i = i + 1;
    }
    None
}

proof fn lemma_first_index(args: Seq<String>, arg: Seq<char>, i: int)
    requires
        0 <= i < args.len(),
        args[i]@ == arg,
        forall|j: int| 0 <= j < i ==> args[j]@ != arg,
    ensures
        first_index_of(strings_view(args), arg) == Some(i),
{
    let v = strings_view(args);
    assert(v[i] == arg);
    assert(v.contains(arg));
    let k = choose|k: int| 0 <= k < v.len() && v[k] == arg && forall|j: int| 0 <= j < k ==> v[j] != arg;
    assert(forall|j: int| 0 <= j < i ==> v[j] != arg) by {
        assert forall|j: int| 0 <= j < i implies v[j] != arg by {
            assert(v[j] == args[j]@);
        }
    }
    assert(0 <= i < v.len() && v[i] == arg && forall|j: int| 0 <= j < i ==> v[j] != arg);
    if k < i {
        assert(v[k] == args[k]@);
    } else if k > i {
        assert(v[i] != arg);
    }
}

proof fn lemma_no_index(args: Seq<String>, arg: Seq<char>)
    requires
        forall|j: int| 0 <= j < args.len() ==> args[j]@ != arg,
    ensures
        first_index_of(strings_view(args), arg) is None,
{
    let v = strings_view(args);
    if v.contains(arg) {
        let k = choose|k: int| 0 <= k < v.len() && v[k] == arg;
        assert(v[k] == args[k]@);
    }
}

/// The actions for a command line: the window is shown unless `--hidden` or
/// `--flatpak-installer` is given or it is already visible; `--software-properties` and
/// `--flatpak-settings` open their pages; `--flatpak-installer` opens the installer with the
/// argument that follows it. (The position of that argument is counted in an `i32`, hence
/// the bound on the number of arguments.)
pub fn command_line_actions(args: &Vec<String>, window_visible: bool) -> (r: CommandLineActions)
    requires
        args@.len() <= i32::MAX,
    ensures
        r.present_window == (!strings_view(args@).contains("--hidden"@) && !strings_view(args@).contains(
            "--flatpak-installer"@,
        ) && !window_visible),
        r.open_software_properties == strings_view(args@).contains("--software-properties"@),
        r.open_flatpak_settings == strings_view(args@).contains("--flatpak-settings"@),
        match first_index_of(strings_view(args@), "--flatpak-installer"@) {
            Some(i) => r.flatpak_installer_entry is Some && r.flatpak_installer_entry->0@
                == installer_entry(strings_view(args@), i),
            None => r.flatpak_installer_entry is None,
        },
{
    let hidden = find_arg(args, "--hidden");
    let installer = find_arg(args, "--flatpak-installer");
    let software = find_arg(args, "--software-properties");
    let settings = find_arg(args, "--flatpak-settings");
    proof {
        let ghost v = strings_view(args@);
        match hidden {
            Some(i) => { lemma_first_index(args@, "--hidden"@, i as int); },
            None => { lemma_no_index(args@, "--hidden"@); },
        }
        match installer {
            Some(i) => { lemma_first_index(args@, "--flatpak-installer"@, i as int); },
            None => { lemma_no_index(args@, "--flatpak-installer"@); },
        }
        match software {
            Some(i) => { lemma_first_index(args@, "--software-properties"@, i as int); },
            None => { lemma_no_index(args@, "--software-properties"@); },
        }
        match settings {
            Some(i) => { lemma_first_index(args@, "--flatpak-settings"@, i as int); },
            None => { lemma_no_index(args@, "--flatpak-settings"@); },
        }
    }
    let entry = match installer {
        Some(i) => {
            assert(i < args.len());
            if i + 1 > args.len() - 1 {
                Some(String::new())
            } else {
                Some(args[i + 1].clone())
            }
        },
        None => None,
    };
    CommandLineActions {
        present_window: hidden.is_none() && installer.is_none() && !window_visible,
        open_software_properties: software.is_some(),
        open_flatpak_settings: settings.is_some(),
        flatpak_installer_entry: entry,
    }
}

} // verus!

verus! {

/// What the refresh button does on a page.
pub struct RefreshPlan {
    /// Let the flatpak page load again once apt is done.
    pub reset_flatpak_ran_once: bool,
    /// Reload the apt page.
    pub retry_apt: bool,
    /// Reload the flatpak page.
    pub retry_flatpak: bool,
}

/// The refresh plan for the page shown: the main page reloads apt (and flatpak after it),
/// the apt pages reload apt, the flatpak pages reload flatpak, any other page nothing.
pub open spec fn refresh_plan_spec(page: Seq<char>) -> (bool, bool, bool) {
    if page == "main_update_page"@ {
        (true, true, false)
    } else if page == "apt_update_page"@ || page == "apt_manage_page"@ {
        (false, true, false)
    } else if page == "flatpak_update_page"@ || page == "flatpak_manage_page"@ {
        (false, false, true)
    } else {
        (false, false, false)
    }
}

/// What the refresh button does on the page named `page`.
pub fn refresh_plan(page: &str) -> (r: RefreshPlan)
    ensures
        (r.reset_flatpak_ran_once, r.retry_apt, r.retry_flatpak) == refresh_plan_spec(page@),
{
    if str_eq(page, "main_update_page") {
        RefreshPlan { reset_flatpak_ran_once: true, retry_apt: true, retry_flatpak: false }
    } else if str_eq(page, "apt_update_page") || str_eq(page, "apt_manage_page") {
        RefreshPlan { reset_flatpak_ran_once: false, retry_apt: true, retry_flatpak: false }
    } else if str_eq(page, "flatpak_update_page") || str_eq(page, "flatpak_manage_page") {
        RefreshPlan { reset_flatpak_ran_once: false, retry_apt: false, retry_flatpak: true }
    } else {
        RefreshPlan { reset_flatpak_ran_once: false, retry_apt: false, retry_flatpak: false }
    }
}

/// A message of the window's background loops.
pub enum LoopMessage {
    /// The result of an internet check.
    InternetStatus(bool),
    /// The timer asks for a refresh of both update pages.
    RefreshRequest,
}

/// Whether the internet is reachable, and the state of the window's banner.
pub struct Connectivity {
    pub internet_connected: bool,
    pub banner_title: String,
    pub banner_revealed: bool,
}

/// The contents of a `Connectivity`.
pub ghost struct ConnectivityView {
    pub internet_connected: bool,
    pub banner_title: Seq<char>,
    pub banner_revealed: bool,
}

impl View for Connectivity {
    type V = ConnectivityView;

    open spec fn view(&self) -> ConnectivityView {
        ConnectivityView {
            internet_connected: self.internet_connected,
            banner_title: self.banner_title@,
            banner_revealed: self.banner_revealed,
        }
    }
}

/// The state after a message of the background loops, and whether the pages are to be
/// refreshed. An internet check that succeeded marks the window connected and hides the
/// banner where it shows `no_internet_text`; one that failed marks it disconnected and shows
/// that text. A refresh request changes nothing and asks for the refresh.
pub open spec fn after_message(c: ConnectivityView, message: LoopMessage, no_internet_text: Seq<char>) -> (
    ConnectivityView,
    bool,
) {
    match message {
        LoopMessage::InternetStatus(true) => (
            ConnectivityView {
                internet_connected: true,
                banner_revealed: c.banner_revealed && c.banner_title != no_internet_text,
                ..c
            },
            false,
        ),
        LoopMessage::InternetStatus(false) => (
            ConnectivityView {
                internet_connected: false,
                banner_title: no_internet_text,
                banner_revealed: true,
            },
            false,
        ),
        LoopMessage::RefreshRequest => (c, true),
    }
}

impl Connectivity {
    /// Not connected, and no banner shown.
    pub fn new() -> (r: Self)
        ensures
            r@ == (ConnectivityView {
                internet_connected: false,
                banner_title: Seq::<char>::empty(),
                banner_revealed: false,
            }),
    {
        Connectivity { internet_connected: false, banner_title: String::new(), banner_revealed: false }
    }

    /// Handles a message of the background loops (see `after_message`). Returns whether the
    /// pages are to be refreshed: the tray reset to "calculating" and both pages reloaded.
    pub fn handle_message(&mut self, message: LoopMessage, no_internet_text: &str) -> (refresh: bool)
        ensures
            (final(self)@, refresh) == after_message(old(self)@, message, no_internet_text@),
    {
        match message {
            LoopMessage::InternetStatus(online) => {
                if online {
                    self.internet_connected = true;
                    if str_eq(self.banner_title.as_str(), no_internet_text) {
                        self.banner_revealed = false;
                    }
                } else {
                    self.internet_connected = false;
                    self.banner_title = no_internet_text.to_string();
                    self.banner_revealed = true;
                }
                false
            },
            LoopMessage::RefreshRequest => true,
        }
    }
}

/// A failed internet check shows the banner; a successful check right after it hides the
/// banner again and marks the window connected, whatever the state was before.
pub proof fn law_reconnect_hides_banner(c: ConnectivityView, no_internet_text: Seq<char>)
    ensures
        after_message(c, LoopMessage::InternetStatus(false), no_internet_text).0.banner_revealed,
        !after_message(
            after_message(c, LoopMessage::InternetStatus(false), no_internet_text).0,
            LoopMessage::InternetStatus(true),
            no_internet_text,
        ).0.banner_revealed,
        after_message(
            after_message(c, LoopMessage::InternetStatus(false), no_internet_text).0,
            LoopMessage::InternetStatus(true),
            no_internet_text,
        ).0.internet_connected,
{
}

/// Seconds the internet check waits before its next try: a minute after a success, none
/// after a failure.
pub fn internet_check_delay_secs(last_check_succeeded: bool) -> (r: u64)
    ensures
        r == (if last_check_succeeded { 60u64 } else { 0u64 }),
{
    if last_check_succeeded {
        60
    } else {
        0
    }
}

/// How long the automatic update check sleeps before asking for a refresh, in milliseconds:
/// the configured interval (taken as `u64`, as the setting is an `i32`) where automatic
/// checks are on; `None` where they are off.
pub fn auto_check_wait_millis(check_for_updates: bool, update_interval: i32) -> (r: Option<u64>)
    ensures
        r == (if check_for_updates { Some(update_interval as u64) } else { None }),
{
    if check_for_updates {
        Some(update_interval as u64)
    } else {
        None
    }
}

/// Whether the flatpak page is to be loaded now: only the first time apt finishes; from then
/// on the flag is set.
pub fn take_first_flatpak_run(flatpak_ran_once: &mut bool) -> (run_now: bool)
    ensures
        run_now == !*old(flatpak_ran_once),
        *final(flatpak_ran_once),
{
    let run_now = !*flatpak_ran_once;
    *flatpak_ran_once = true;
    run_now
}

/// Whether the flatpak update is to follow the apt upgrade just finished: only where the
/// update was started from the main page; the flag is cleared.
pub fn take_initiated_by_main(initiated_by_main: &mut bool) -> (follow_with_flatpak: bool)
    ensures
        follow_with_flatpak == *old(initiated_by_main),
        !*final(initiated_by_main),
{
    let follow = *initiated_by_main;
    *initiated_by_main = false;
    follow
}

} // verus!
