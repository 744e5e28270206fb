use multi_cursor_core::agent_auth::{
    auth_info_from_snapshot, read_cli_config_identity, read_live_agent_snapshot,
    sync_cli_auth_from_snapshot, update_cli_config_auth_info, AuthInfo, CliAuthSync,
};
use multi_cursor_core::auth_file::{self, AuthFileChange};
use multi_cursor_core::snapshot::{email_from_snapshot, profile_name_from_snapshot, snapshot_from_tokens, AuthSnapshot};

#[test]
fn sync_without_login_clears() {
    assert!(matches!(sync_cli_auth_from_snapshot(&AuthSnapshot::new()), Ok(CliAuthSync::Clear)));
}

#[test]
fn sync_needs_refresh_token() {
    let s = snapshot_from_tokens("acc", "", None, None);
    assert_eq!(sync_cli_auth_from_snapshot(&s).unwrap_err(), "Missing refresh token in account snapshot");
}

#[test]
fn sync_writes_tokens_and_identity() {
    let s = snapshot_from_tokens("acc", "ref", Some("e@x"), Some("Ann"));
    match sync_cli_auth_from_snapshot(&s).unwrap() {
        CliAuthSync::Write { access, refresh, auth_info } => {
            assert_eq!(access, "acc");
            assert_eq!(refresh, "ref");
            assert_eq!(auth_info.email.as_deref(), Some("e@x"));
            assert_eq!(auth_info.display_name.as_deref(), Some("Ann"));
        }
        CliAuthSync::Clear => panic!("expected a write"),
    }
}

#[test]
fn auth_info_falls_back_to_email_for_name() {
    let info = auth_info_from_snapshot(&snapshot_from_tokens("a", "r", Some("e@x"), None));
    assert_eq!(info.display_name.as_deref(), Some("e@x"));
}

#[test]
fn cli_config_gets_auth_info() {
    let raw = r#"{"version":1,"authInfo":{"userId":7,"email":"old@x"}}"#;
    let info = AuthInfo { email: Some("e@x".to_string()), display_name: Some("Ann".to_string()) };
    let text = update_cli_config_auth_info(raw, Some(info)).unwrap();
    assert_eq!(
        text,
        "{\n  \"authInfo\": {\n    \"displayName\": \"Ann\",\n    \"email\": \"e@x\"\n  },\n  \"version\": 1\n}\n"
    );
}

#[test]
fn cli_config_drops_auth_info() {
    let raw = r#"{"authInfo":{"email":"old@x"},"editor":"vim"}"#;
    assert_eq!(update_cli_config_auth_info(raw, None).unwrap(), "{\n  \"editor\": \"vim\"\n}\n");
}

#[test]
fn cli_config_must_be_an_object() {
    assert_eq!(update_cli_config_auth_info("[1]", None).unwrap_err(), "cli-config.json root must be an object");
    assert!(update_cli_config_auth_info("{", None).unwrap_err().starts_with("Parse cli-config.json: "));
}

#[test]
fn cli_config_identity_is_trimmed() {
    let raw = r#"{"authInfo":{"email":" e@x ","displayName":""}}"#;
    let (email, name) = read_cli_config_identity(Some(raw));
    assert_eq!(email.as_deref(), Some("e@x"));
    assert_eq!(name, None);
    assert_eq!(read_cli_config_identity(Some("nope")), (None, None));
    assert_eq!(read_cli_config_identity(None), (None, None));
}

#[test]
fn live_snapshot_carries_cli_identity() {
    let raw = r#"{"authInfo":{"email":"e@x","displayName":"Ann"}}"#;
    let s = read_live_agent_snapshot("acc", "ref", Some(raw));
    assert_eq!(email_from_snapshot(&s).as_deref(), Some("e@x"));
    assert_eq!(profile_name_from_snapshot(&s).as_deref(), Some("Ann"));
    let bare = read_live_agent_snapshot("acc", "ref", None);
    assert!(email_from_snapshot(&bare).is_none());
}

#[test]
fn auth_file_read_tokens() {
    let raw = r#"{"accessToken":"a","refreshToken":"r","apiKey":"k"}"#;
    assert_eq!(auth_file::read_platform_tokens(Some(raw)).unwrap(), ("a".to_string(), "r".to_string()));
    assert_eq!(
        auth_file::read_platform_tokens(None).unwrap_err(),
        "No accessToken in ~/.config/cursor/auth.json"
    );
    assert_eq!(
        auth_file::read_platform_tokens(Some(r#"{"accessToken":"a","refreshToken":""}"#)).unwrap_err(),
        "No refreshToken in ~/.config/cursor/auth.json"
    );
    assert!(auth_file::read_platform_tokens(Some("{")).unwrap_err().starts_with("Parse auth.json: "));
}

#[test]
fn auth_file_write_tokens() {
    assert_eq!(
        auth_file::write_platform_tokens(None, "a", "r").unwrap(),
        "{\n  \"accessToken\": \"a\",\n  \"refreshToken\": \"r\"\n}\n"
    );
    assert_eq!(
        auth_file::write_platform_tokens(Some(r#"{"apiKey":"k","accessToken":"old"}"#), "a", "r").unwrap(),
        "{\n  \"accessToken\": \"a\",\n  \"apiKey\": \"k\",\n  \"refreshToken\": \"r\"\n}\n"
    );
    assert_eq!(
        auth_file::write_platform_tokens(Some("3"), "a", "r").unwrap_err(),
        "auth.json root must be an object"
    );
}

#[test]
fn auth_file_clear_tokens() {
    assert!(matches!(auth_file::clear_platform_tokens(None), Ok(AuthFileChange::Keep)));
    assert!(matches!(
        auth_file::clear_platform_tokens(Some(r#"{"accessToken":"a","refreshToken":"r"}"#)),
        Ok(AuthFileChange::Delete)
    ));
    match auth_file::clear_platform_tokens(Some(r#"{"accessToken":"a","apiKey":"k"}"#)).unwrap() {
        AuthFileChange::Rewrite(text) => assert_eq!(text, "{\n  \"apiKey\": \"k\"\n}\n"),
        other => panic!("unexpected {other:?}"),
    }
    match auth_file::clear_platform_tokens(Some("[1]")).unwrap() {
        AuthFileChange::Rewrite(text) => assert_eq!(text, "[\n  1\n]\n"),
        other => panic!("unexpected {other:?}"),
    }
    assert!(auth_file::clear_platform_tokens(Some("{")).unwrap_err().starts_with("Parse auth.json: "));
}
