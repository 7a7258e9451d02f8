use pikman_update_manager::protocol::{
    classify_status_message, failed_message, helper_exit_messages, log_line_text,
    no_user_remotes_message, received_message, stamped_log_line, successful_message,
    worker_step_messages, StatusMessage,
};

#[test]
fn markers() {
    assert_eq!(successful_message(), "FN_OVERRIDE_SUCCESSFUL");
    assert_eq!(failed_message(), "FN_OVERRIDE_FAILED");
}

#[test]
fn classify_messages() {
    assert!(matches!(classify_status_message("FN_OVERRIDE_SUCCESSFUL"), StatusMessage::Successful));
    assert!(matches!(classify_status_message("FN_OVERRIDE_FAILED"), StatusMessage::Failed));
    match classify_status_message("Get: main") {
        StatusMessage::Text(t) => assert_eq!(t, "Get: main"),
        _ => panic!("expected text"),
    }
}

#[test]
fn received_message_decodes_prefix() {
    let buffer = b"hello world";
    assert_eq!(received_message(buffer, 5), "hello");
    assert_eq!(received_message(buffer, 0), "");
    let bad = [0xffu8, b'a'];
    assert_eq!(received_message(&bad, 2), "\u{FFFD}a");
}

#[test]
fn helper_exit_codes() {
    assert_eq!(helper_exit_messages(0, "perm"), vec!["FN_OVERRIDE_SUCCESSFUL".to_string()]);
    assert!(helper_exit_messages(53, "perm").is_empty());
    assert_eq!(
        helper_exit_messages(126, "perm"),
        vec!["perm".to_string(), "FN_OVERRIDE_FAILED".to_string()]
    );
}

#[test]
fn log_line() {
    assert_eq!(log_line_text("abc"), "\nabc");
}

#[test]
fn stamped_line() {
    assert_eq!(stamped_log_line("2024/05/01_10:30", "Installing"), "[2024/05/01_10:30] Installing");
}

#[test]
fn worker_steps() {
    assert_eq!(worker_step_messages(false, &None), (Vec::<String>::new(), true));
    assert_eq!(worker_step_messages(true, &None), (vec!["FN_OVERRIDE_SUCCESSFUL".to_string()], true));
    assert_eq!(
        worker_step_messages(false, &Some("network down".to_string())),
        (vec!["network down".to_string(), "FN_OVERRIDE_FAILED".to_string()], false)
    );
    assert_eq!(no_user_remotes_message(0), Some("FN_OVERRIDE_SUCCESSFUL"));
    assert_eq!(no_user_remotes_message(2), None);
}
