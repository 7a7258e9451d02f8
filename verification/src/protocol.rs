use vstd::prelude::*;
use crate::text::str_eq;

verus! {

/// The message a helper sends to a progress socket when its work succeeded.
pub open spec fn success_marker() -> Seq<char> {
    "FN_OVERRIDE_SUCCESSFUL"@
}

/// The message a helper sends to a progress socket when its work failed.
pub open spec fn failure_marker() -> Seq<char> {
    "FN_OVERRIDE_FAILED"@
}

/// The text of the success message.
pub fn successful_message() -> (r: &'static str)
    ensures
        r@ == success_marker(),
{
    "FN_OVERRIDE_SUCCESSFUL"
}

/// The text of the failure message.
pub fn failed_message() -> (r: &'static str)
    ensures
        r@ == failure_marker(),
{
    "FN_OVERRIDE_FAILED"
}

/// What a message on a status socket means.
pub enum StatusMessage {
    /// The helper finished its work.
    Successful,
    /// The helper failed.
    Failed,
    /// A status line to show.
    Text(String),
}

/// The meaning of a message received on a status socket: the two markers, or a line of
/// text to show.
pub fn classify_status_message(message: &str) -> (r: StatusMessage)
    ensures
        message@ == success_marker() ==> r is Successful,
        message@ == failure_marker() ==> r is Failed,
        message@ != success_marker() && message@ != failure_marker() ==> (r is Text && r->Text_0@
            == message@),
{
    proof {
        reveal_strlit("FN_OVERRIDE_SUCCESSFUL");
        reveal_strlit("FN_OVERRIDE_FAILED");
        assert(success_marker()[12] != failure_marker()[12]);
    }
    if str_eq(message, successful_message()) {
        StatusMessage::Successful
    } else if str_eq(message, failed_message()) {
        StatusMessage::Failed
    } else {
        StatusMessage::Text(message.to_string())
    }
}

/// The characters `String::from_utf8_lossy` decodes from some bytes (invalid sequences
/// become U+FFFD).
pub uninterp spec fn utf8_lossy(bytes: Seq<u8>) -> Seq<char>;

/// Calls `String::from_utf8_lossy` on `buffer[..size]`; the contract claims only that the
/// result is the text `utf8_lossy` names for those bytes, not how bytes are decoded.
#[verifier::external_body]
fn from_utf8_lossy_prefix(buffer: &[u8], size: usize) -> (r: String)
    requires
        size <= buffer@.len(),
    ensures
        r@ == utf8_lossy(buffer@.take(size as int)),
{
    String::from_utf8_lossy(&buffer[..size]).to_string()
}

/// The message a socket client sent: the first `size` bytes read into the buffer, decoded
/// as UTF-8 with invalid sequences replaced.
pub fn received_message(buffer: &[u8], size: usize) -> (r: String)
    requires
        size <= buffer@.len(),
    ensures
        r@ == utf8_lossy(buffer@.take(size as int)),
{
    from_utf8_lossy_prefix(buffer, size)
}

/// The messages the upgrade page gets once the privileged upgrade helper has exited: the
/// success marker for exit code 0; nothing for 53 (the helper has already reported its own
/// failure); otherwise `permission_error_text` and the failure marker.
pub fn helper_exit_messages(exit_code: i32, permission_error_text: &str) -> (r: Vec<String>)
    ensures
        exit_code == 0 ==> r@.len() == 1 && r@[0]@ == success_marker(),
        exit_code == 53 ==> r@.len() == 0,
        exit_code != 0 && exit_code != 53 ==> r@.len() == 2 && r@[0]@ == permission_error_text@
            && r@[1]@ == failure_marker(),
{
    let mut r: Vec<String> = Vec::new();
    if exit_code == 0 {
        r.push(successful_message().to_string());
    } else if exit_code == 53 {
    } else {
        r.push(permission_error_text.to_string());
        r.push(failed_message().to_string());
    }
    r
}

/// The text appended to the update log for a line the helper printed: a newline, then the
/// line.
pub fn log_line_text(line: &str) -> (r: String)
    ensures
        r@ == seq!['\n'] + line@,
{
    let mut r = String::new();
    r.push('\n');
    r.append(line);
    r
}

/// The line written to a transaction log for a status message: the time stamp in
/// brackets, a space, then the message.
pub fn stamped_log_line(stamp: &str, message: &str) -> (r: String)
    ensures
        r@ == seq!['['] + stamp@ + "] "@ + message@,
{
    let mut r = String::new();
    r.push('[');
    r.append(stamp);
    r.append("] ");
    r.append(message);
    r
}

/// The messages a flatpak worker sends once one step of its work ended (the appstream sync of
/// one remote, or the update transaction of one installation), and whether it goes on with
/// that installation: an error sends its text and the failure marker and stops; a success of
/// the user installation sends the success marker; a success of the system installation sends
/// nothing.
pub fn worker_step_messages(is_user_installation: bool, error: &Option<String>) -> (r: (Vec<String>, bool))
    ensures
        match error {
            Some(e) => r.0@.len() == 2 && r.0@[0]@ == e@ && r.0@[1]@ == failure_marker() && !r.1,
            None => r.1 && (if is_user_installation {
                r.0@.len() == 1 && r.0@[0]@ == success_marker()
            } else {
                r.0@.len() == 0
            }),
        },
{
    let mut r: Vec<String> = Vec::new();
    match error {
        Some(e) => {
            r.push(e.clone());
            r.push(failed_message().to_string());
            (r, false)
        },
        None => {
            if is_user_installation {
                r.push(successful_message().to_string());
            }
            (r, true)
        },
    }
}

/// The message the appstream sync sends after the user installation's remotes: the success
/// marker where that installation has no remote at all.
pub fn no_user_remotes_message(user_remote_count: usize) -> (r: Option<&'static str>)
    ensures
        user_remote_count == 0 ==> r is Some && r->0@ == success_marker(),
        user_remote_count != 0 ==> r is None,
{
    if user_remote_count == 0 {
        Some(successful_message())
    } else {
        None
    }
}

/// The two markers differ, so a receiver never takes a failure for a success.
pub proof fn law_markers_differ()
    ensures
        success_marker() != failure_marker(),
{
    reveal_strlit("FN_OVERRIDE_SUCCESSFUL");
    reveal_strlit("FN_OVERRIDE_FAILED");
    assert(success_marker()[12] != failure_marker()[12]);
}

} // verus!
