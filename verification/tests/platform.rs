use multi_cursor_core::about::agent_about_email;
use multi_cursor_core::command::CommandOutcome;
use multi_cursor_core::cursor::{cursor_running, require_cursor_idle};
use multi_cursor_core::keychain;
use multi_cursor_core::text::{decimal_text, str_contains, str_eq_ignore_ascii_case, trim};
use multi_cursor_core::unsupported;

fn outcome(success: bool, code: Option<i32>, stdout: &str, stderr: &str) -> CommandOutcome {
    CommandOutcome { success, code, stdout: stdout.to_string(), stderr: stderr.to_string() }
}

#[test]
fn keychain_arguments() {
    assert_eq!(
        keychain::delete_keychain_args("svc"),
        vec!["delete-generic-password", "-s", "svc", "-a", "cursor-user"]
    );
    assert_eq!(
        keychain::add_keychain_args("svc", "pw"),
        vec!["add-generic-password", "-s", "svc", "-a", "cursor-user", "-w", "pw", "-U"]
    );
    assert_eq!(
        keychain::find_keychain_args("svc"),
        vec!["find-generic-password", "-s", "svc", "-a", "cursor-user", "-w"]
    );
}

#[test]
fn keychain_delete_tolerates_missing_item() {
    assert!(keychain::delete_keychain_password("s", &outcome(true, Some(0), "", "")).is_ok());
    assert!(keychain::delete_keychain_password("s", &outcome(false, Some(44), "", "")).is_ok());
    assert!(keychain::delete_keychain_password("s", &outcome(false, Some(1), "", "item could not be found.")).is_ok());
    assert_eq!(
        keychain::delete_keychain_password("svc", &outcome(false, Some(1), "", "  denied\n")).unwrap_err(),
        "Failed to delete Keychain item svc: denied"
    );
}

#[test]
fn keychain_write_and_read() {
    assert!(keychain::set_keychain_password("s", &outcome(true, Some(0), "", "")).is_ok());
    assert_eq!(
        keychain::set_keychain_password("svc", &outcome(false, Some(2), "", " locked ")).unwrap_err(),
        "Failed to write Keychain item svc: locked"
    );
    assert_eq!(keychain::get_keychain_password(&outcome(true, Some(0), " tok\n", "")).as_deref(), Some("tok"));
    assert_eq!(keychain::get_keychain_password(&outcome(true, Some(0), " \n", "")), None);
    assert_eq!(keychain::get_keychain_password(&outcome(false, Some(44), "tok", "")), None);
}

#[test]
fn keychain_token_plan() {
    let writes = keychain::write_platform_tokens("a", "r");
    assert_eq!(writes, vec![("cursor-access-token".to_string(), "a".to_string()), ("cursor-refresh-token".to_string(), "r".to_string())]);
    assert_eq!(keychain::clear_platform_tokens(), vec!["cursor-access-token", "cursor-refresh-token"]);
    assert_eq!(keychain::read_platform_tokens(Some("a".into()), Some("r".into())).unwrap(), ("a".to_string(), "r".to_string()));
    assert_eq!(keychain::read_platform_tokens(None, Some("r".into())).unwrap_err(), "No cursor-access-token in Keychain");
    assert_eq!(keychain::read_platform_tokens(Some("a".into()), None).unwrap_err(), "No cursor-refresh-token in Keychain");
}

#[test]
fn unsupported_platform_refuses() {
    let msg = "Cursor Agent auth sync is only supported on macOS and Linux";
    assert_eq!(unsupported::write_platform_tokens("a", "r").unwrap_err(), msg);
    assert_eq!(unsupported::clear_platform_tokens().unwrap_err(), msg);
    assert_eq!(unsupported::read_platform_tokens().unwrap_err(), msg);
}

#[test]
fn cursor_running_needs_a_kill_line() {
    assert!(cursor_running(&outcome(true, Some(0), "kill -TERM 123\n", "")));
    assert!(!cursor_running(&outcome(true, Some(0), "no matching processes\n", "")));
    assert!(!cursor_running(&outcome(false, Some(1), "kill -TERM 123\n", "")));
}

#[test]
fn cursor_idle_guard() {
    assert!(require_cursor_idle(false).is_ok());
    assert_eq!(
        require_cursor_idle(true).unwrap_err(),
        "Cursor IDE is running. Quit Cursor completely, then try again."
    );
}

#[test]
fn about_email_from_output() {
    let out = "Cursor Agent\r\n  User Email :: ann@x.io  \r\nPlan: pro\n";
    assert_eq!(agent_about_email(&outcome(true, Some(0), out, "")).as_deref(), Some("ann@x.io"));
    // Colons are only stripped before the first space after the label.
    let spaced = "User Email : : ann@x.io";
    assert_eq!(agent_about_email(&outcome(true, Some(0), spaced, "")).as_deref(), Some(": ann@x.io"));
    let later = "User Email:\nUser Email: second@x.io";
    assert_eq!(agent_about_email(&outcome(true, Some(0), later, "")).as_deref(), Some("second@x.io"));
    assert_eq!(agent_about_email(&outcome(true, Some(0), "Email: x", "")), None);
    assert_eq!(agent_about_email(&outcome(false, Some(1), "User Email: a@b", "")), None);
}

#[test]
fn text_helpers() {
    assert_eq!(trim("\u{3000}\t ab c \u{a0}\n"), "ab c");
    assert!(str_eq_ignore_ascii_case("HeLLo", "hello"));
    assert!(!str_eq_ignore_ascii_case("É", "é"));
    assert!(str_contains("abcabd", "abd"));
    assert!(str_contains("abc", ""));
    assert!(!str_contains("ab", "abc"));
    assert_eq!(decimal_text(0), "0");
    assert_eq!(decimal_text(4294967295), "4294967295");
}
