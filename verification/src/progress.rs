use vstd::prelude::*;
use crate::template::{fill_template2, opt_view, strfmt_output, two_vars};
use crate::text::{decimal_text, u64_to_decimal};

verus! {

/// Reports the progress of an apt install run over two Unix sockets: one for the percentage,
/// one for status lines. Errors are reported with a translated template holding `{PKGNAME}`
/// and `{ERROR}`.
pub struct AptInstallProgressSocket<'a> {
    percent_socket_path: &'a str,
    status_socket_path: &'a str,
    error_strfmt_trans_str: String,
}

impl<'a> AptInstallProgressSocket<'a> {
    /// Returns a new progress reporter for the given sockets and error template.
    pub fn new(
        percent_socket_path: &'a str,
        status_socket_path: &'a str,
        error_strfmt_trans_str: String,
    ) -> (r: Self)
        ensures
            r.percent_socket_path() == percent_socket_path,
            r.status_socket_path() == status_socket_path,
            r.error_template() == error_strfmt_trans_str,
    {
        AptInstallProgressSocket { percent_socket_path, status_socket_path, error_strfmt_trans_str }
    }

    /// The socket the percentage is sent to.
    pub closed spec fn percent_socket_path(&self) -> &'a str {
        self.percent_socket_path
    }

    /// The socket status lines are sent to.
    pub closed spec fn status_socket_path(&self) -> &'a str {
        self.status_socket_path
    }

    /// The template of the error message.
    pub closed spec fn error_template(&self) -> String {
        self.error_strfmt_trans_str
    }

    /// The error line for a package that failed: the template filled with `PKGNAME` and
    /// `ERROR`; `None` where the template cannot be filled.
    pub fn error_message(&self, pkgname: &str, error: &str) -> (r: Option<String>)
        ensures
            opt_view(r) == strfmt_output(
                self.error_template()@,
                two_vars("PKGNAME"@, pkgname@, "ERROR"@, error@),
            ),
    {
        fill_template2(self.error_strfmt_trans_str.as_str(), "PKGNAME", pkgname, "ERROR", error)
    }

    /// The socket the percentage is sent to.
    pub fn get_percent_socket_path(&self) -> (r: &'a str)
        ensures
            r == self.percent_socket_path(),
    {
        self.percent_socket_path
    }

    /// The socket status lines are sent to.
    pub fn get_status_socket_path(&self) -> (r: &'a str)
        ensures
            r == self.status_socket_path(),
    {
        self.status_socket_path
    }
}

/// Pulse interval, in microseconds, that an update progress reporter starts with.
pub const DEFAULT_PULSE_INTERVAL: usize = 1000000;

/// Reports the progress of an apt update run over Unix sockets: percentage, status lines and
/// download speed. Each status line comes from a translated template holding `{DESC}` and
/// `{SHORT_DESC}`.
pub struct AptUpdateProgressSocket<'a> {
    last_pulse_bytes: u64,
    pulse_interval: usize,
    percent_socket_path: &'a str,
    status_socket_path: &'a str,
    speed_socket_path: &'a str,
    hit_strfmt_trans_str: &'a str,
    fetch_strfmt_trans_str: &'a str,
    done_strfmt_trans_str: &'a str,
    fail_strfmt_trans_str: &'a str,
}

/// The kind of event an apt acquire item reports.
pub enum ItemEvent {
    /// The item was already up to date.
    Hit,
    /// The item started downloading.
    Fetch,
    /// The item was fetched completely.
    Done,
    /// The item failed to download.
    Fail,
}

impl<'a> AptUpdateProgressSocket<'a> {
    /// Returns a new progress reporter: no bytes seen yet, and a pulse interval of one second.
    pub fn new(
        percent_socket_path: &'a str,
        status_socket_path: &'a str,
        speed_socket_path: &'a str,
        hit_strfmt_trans_str: &'a str,
        fetch_strfmt_trans_str: &'a str,
        done_strfmt_trans_str: &'a str,
        fail_strfmt_trans_str: &'a str,
    ) -> (r: Self)
        ensures
            r.last_pulse_bytes() == 0,
            r.pulse_interval_spec() == DEFAULT_PULSE_INTERVAL,
            r.percent_socket_path() == percent_socket_path,
            r.status_socket_path() == status_socket_path,
            r.speed_socket_path() == speed_socket_path,
            r.template(ItemEvent::Hit) == hit_strfmt_trans_str,
            r.template(ItemEvent::Fetch) == fetch_strfmt_trans_str,
            r.template(ItemEvent::Done) == done_strfmt_trans_str,
            r.template(ItemEvent::Fail) == fail_strfmt_trans_str,
    {
        AptUpdateProgressSocket {
            last_pulse_bytes: 0,
            pulse_interval: DEFAULT_PULSE_INTERVAL,
            percent_socket_path,
            status_socket_path,
            speed_socket_path,
            hit_strfmt_trans_str,
            fetch_strfmt_trans_str,
            done_strfmt_trans_str,
            fail_strfmt_trans_str,
        }
    }

    /// Bytes seen at the last pulse.
    pub closed spec fn last_pulse_bytes(&self) -> u64 {
        self.last_pulse_bytes
    }

    /// The pulse interval in microseconds.
    pub closed spec fn pulse_interval_spec(&self) -> usize {
        self.pulse_interval
    }

    /// The socket the percentage is sent to.
    pub closed spec fn percent_socket_path(&self) -> &'a str {
        self.percent_socket_path
    }

    /// The socket status lines are sent to.
    pub closed spec fn status_socket_path(&self) -> &'a str {
        self.status_socket_path
    }

    /// The socket the download speed is sent to.
    pub closed spec fn speed_socket_path(&self) -> &'a str {
        self.speed_socket_path
    }

    /// The template used for an item event.
    pub closed spec fn template(&self, event: ItemEvent) -> &'a str {
        match event {
            ItemEvent::Hit => self.hit_strfmt_trans_str,
            ItemEvent::Fetch => self.fetch_strfmt_trans_str,
            ItemEvent::Done => self.done_strfmt_trans_str,
            ItemEvent::Fail => self.fail_strfmt_trans_str,
        }
    }

    /// The pulse interval handed to apt, in microseconds (0 means apt's default).
    pub fn pulse_interval(&self) -> (r: usize)
        ensures
            r == self.pulse_interval_spec(),
    {
        self.pulse_interval
    }

    /// The status line for an item event: the event's template filled with `DESC` and
    /// `SHORT_DESC`; a line for an item found up to date or starting to download then also
    /// gets its short description and its expected size in bytes. `None` where the template
    /// cannot be filled.
    pub fn item_message(&self, event: ItemEvent, description: &str, short_desc: &str, size: u64) -> (r:
        Option<String>)
        ensures
            match strfmt_output(
                self.template(event)@,
                two_vars("DESC"@, description@, "SHORT_DESC"@, short_desc@),
            ) {
                Some(t) => r is Some && r->0@ == t + expected_size_note(event, short_desc@, size),
                None => r is None,
            },
    {
        let template = match event {
            ItemEvent::Hit => self.hit_strfmt_trans_str,
            ItemEvent::Fetch => self.fetch_strfmt_trans_str,
            ItemEvent::Done => self.done_strfmt_trans_str,
            ItemEvent::Fail => self.fail_strfmt_trans_str,
        };
        match fill_template2(template, "DESC", description, "SHORT_DESC", short_desc) {
            Some(mut line) => {
                match event {
                    ItemEvent::Hit | ItemEvent::Fetch => {
                        line.push(' ');
                        line.append(short_desc);
                        append_size(&mut line, size);
                    },
                    _ => {},
                }
                Some(line)
            },
            None => None,
        }
    }

    /// Records the byte count of a pulse and returns the count of the pulse before it, from
    /// which the download speed over the interval is computed.
    pub fn record_pulse(&mut self, current_bytes: u64) -> (previous: u64)
        ensures
            previous == old(self).last_pulse_bytes(),
            final(self).last_pulse_bytes() == current_bytes,
            final(self).pulse_interval_spec() == old(self).pulse_interval_spec(),
            final(self).percent_socket_path() == old(self).percent_socket_path(),
            final(self).status_socket_path() == old(self).status_socket_path(),
            final(self).speed_socket_path() == old(self).speed_socket_path(),
            forall|e: ItemEvent| #[trigger] final(self).template(e) == old(self).template(e),
    {
        let previous = self.last_pulse_bytes;
        self.last_pulse_bytes = current_bytes;
        previous
    }

    /// The socket the percentage is sent to.
    pub fn get_percent_socket_path(&self) -> (r: &'a str)
        ensures
            r == self.percent_socket_path(),
    {
        self.percent_socket_path
    }

    /// The socket status lines are sent to.
    pub fn get_status_socket_path(&self) -> (r: &'a str)
        ensures
            r == self.status_socket_path(),
    {
        self.status_socket_path
    }

    /// The socket the download speed is sent to.
    pub fn get_speed_socket_path(&self) -> (r: &'a str)
        ensures
            r == self.speed_socket_path(),
    {
        self.speed_socket_path
    }
}

/// Whether an item event reports the item's expected size: an item found up to date, or one
/// that starts to download.
pub open spec fn reports_size(event: ItemEvent) -> bool {
    match event {
        ItemEvent::Hit | ItemEvent::Fetch => true,
        _ => false,
    }
}

/// What ends the line of an event that reports the size: a space and the size in decimal.
pub open spec fn size_suffix(event: ItemEvent, size: u64) -> Seq<char> {
    if reports_size(event) {
        seq![' '] + decimal_text(size as int)
    } else {
        Seq::empty()
    }
}

/// What a templated line of an event that reports the size ends with: a space, the short
/// description, a space and the size in decimal.
pub open spec fn expected_size_note(event: ItemEvent, short_desc: Seq<char>, size: u64) -> Seq<char> {
    if reports_size(event) {
        seq![' '] + short_desc + size_suffix(event, size)
    } else {
        Seq::empty()
    }
}

/// Appends a space and the decimal text of `size`.
fn append_size(line: &mut String, size: u64)
    ensures
        final(line)@ == old(line)@ + seq![' '] + decimal_text(size as int),
{
    line.push(' ');
    let digits = u64_to_decimal(size);
    line.append(digits.as_str());
}

/// The fixed label of an item event in the plain status lines.
pub open spec fn plain_label(event: ItemEvent) -> Seq<char> {
    match event {
        ItemEvent::Hit => "Up-to-date: "@,
        ItemEvent::Fetch => "Downloading: "@,
        ItemEvent::Done => "Download Successful: "@,
        ItemEvent::Fail => "Download Failed!: "@,
    }
}

/// A plain (untranslated) status line for an item event: the event's label, the
/// description, a space and the short description; an item found up to date or starting to
/// download then also gets a space and its expected size in bytes.
pub fn plain_item_message(event: ItemEvent, description: &str, short_desc: &str, size: u64) -> (r: String)
    ensures
        r@ == plain_label(event) + description@ + " "@ + short_desc@ + size_suffix(event, size),
{
    let mut r = match event {
        ItemEvent::Hit => "Up-to-date: ".to_string(),
        ItemEvent::Fetch => "Downloading: ".to_string(),
        ItemEvent::Done => "Download Successful: ".to_string(),
        ItemEvent::Fail => "Download Failed!: ".to_string(),
    };
    r.append(description);
    r.append(" ");
    r.append(short_desc);
    match event {
        ItemEvent::Hit | ItemEvent::Fetch => {
            append_size(&mut r, size);
        },
        _ => {},
    }
    r
}

} // verus!
