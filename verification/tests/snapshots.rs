use multi_cursor_core::snapshot::{
    display_name_from_snapshot, email_from_snapshot, has_login_tokens, profile_name_from_snapshot,
    snapshot_from_tokens, AuthSnapshot,
};

fn snap(pairs: &[(&str, &str)]) -> AuthSnapshot {
    let mut s = AuthSnapshot::new();
    for (k, v) in pairs {
        s.insert(k.to_string(), v.to_string());
    }
    s
}

#[test]
fn email_must_be_present_and_non_empty() {
    assert_eq!(email_from_snapshot(&snap(&[("cursorAuth/cachedEmail", "a@b.c")])).as_deref(), Some("a@b.c"));
    assert_eq!(email_from_snapshot(&snap(&[("cursorAuth/cachedEmail", "")])), None);
    assert_eq!(email_from_snapshot(&AuthSnapshot::new()), None);
}

#[test]
fn later_value_overrides_earlier() {
    let s = snap(&[("cursorAuth/cachedEmail", "old@x"), ("cursorAuth/cachedEmail", "new@x")]);
    assert_eq!(email_from_snapshot(&s).as_deref(), Some("new@x"));
    assert_eq!(s.get("cursorAuth/cachedEmail").map(|v| v.as_str()), Some("new@x"));
}

#[test]
fn login_tokens_need_a_non_empty_access_token() {
    assert!(has_login_tokens(&snap(&[("cursorAuth/accessToken", "tok")])));
    assert!(!has_login_tokens(&snap(&[("cursorAuth/accessToken", "")])));
    assert!(!has_login_tokens(&snap(&[("cursorAuth/refreshToken", "tok")])));
}

#[test]
fn profile_name_prefers_display_name() {
    let s = snap(&[("cursorAuth/cachedScopedProfile", r#"{"displayName":"  Ann Lee ","name":"ann"}"#)]);
    assert_eq!(profile_name_from_snapshot(&s).as_deref(), Some("Ann Lee"));
}

#[test]
fn profile_name_falls_back_to_name() {
    let s = snap(&[("cursorAuth/cachedScopedProfile", r#"{"name":"ann"}"#)]);
    assert_eq!(profile_name_from_snapshot(&s).as_deref(), Some("ann"));
}

#[test]
fn profile_name_does_not_fall_back_past_a_non_string_display_name() {
    let s = snap(&[("cursorAuth/cachedScopedProfile", r#"{"displayName":null,"name":"ann"}"#)]);
    assert_eq!(profile_name_from_snapshot(&s), None);
}

#[test]
fn profile_name_rejects_invalid_or_blank() {
    assert_eq!(profile_name_from_snapshot(&snap(&[("cursorAuth/cachedScopedProfile", "{not json")])), None);
    assert_eq!(profile_name_from_snapshot(&snap(&[("cursorAuth/cachedScopedProfile", r#"{"displayName":"   "}"#)])), None);
    assert_eq!(profile_name_from_snapshot(&snap(&[("cursorAuth/cachedScopedProfile", r#"["displayName"]"#)])), None);
}

#[test]
fn display_name_falls_back_to_email() {
    let s = snap(&[("cursorAuth/cachedEmail", "a@b.c")]);
    assert_eq!(display_name_from_snapshot(&s).as_deref(), Some("a@b.c"));
    let t = snap(&[("cursorAuth/cachedEmail", "a@b.c"), ("cursorAuth/cachedScopedProfile", r#"{"displayName":"A"}"#)]);
    assert_eq!(display_name_from_snapshot(&t).as_deref(), Some("A"));
    assert_eq!(display_name_from_snapshot(&AuthSnapshot::new()), None);
}

#[test]
fn snapshot_from_tokens_writes_compact_profile() {
    let s = snapshot_from_tokens("acc", "ref", Some("e@x"), Some("Ann \"Q\""));
    assert_eq!(s.get("cursorAuth/accessToken").unwrap(), "acc");
    assert_eq!(s.get("cursorAuth/refreshToken").unwrap(), "ref");
    assert_eq!(s.get("cursorAuth/cachedEmail").unwrap(), "e@x");
    assert_eq!(s.get("cursorAuth/cachedScopedProfile").unwrap(), r#"{"displayName":"Ann \"Q\""}"#);
    assert_eq!(profile_name_from_snapshot(&s).as_deref(), Some("Ann \"Q\""));
}

#[test]
fn snapshot_from_tokens_skips_empty_identity() {
    let s = snapshot_from_tokens("acc", "", Some(""), Some(""));
    assert!(s.get("cursorAuth/cachedEmail").is_none());
    assert!(s.get("cursorAuth/cachedScopedProfile").is_none());
    assert_eq!(s.get("cursorAuth/refreshToken").unwrap(), "");
    assert!(has_login_tokens(&s));
    assert!(!has_login_tokens(&snapshot_from_tokens("", "r", None, None)));
}
