use multi_cursor_core::accounts::{
    account_summary_text, active_account, adopt_live_account, capture_current, check_import_envelope,
    ensure_default_environment, environment_has_accounts, export_account, find_account,
    find_account_index, import_account, live_login_owner, plan_switch, remove_account, select_default_environment,
    switch_account, AccountExport, CliAuthFollowUp,
};
use multi_cursor_core::config::{Account, ActiveSelection, AppConfig, Environment};
use multi_cursor_core::snapshot::{snapshot_from_tokens, AuthSnapshot};

fn account(id: &str, env: &str, name: &str, email: Option<&str>) -> Account {
    Account {
        id: id.to_string(),
        env_id: env.to_string(),
        name: name.to_string(),
        email: email.map(|e| e.to_string()),
        updated_at: "t0".to_string(),
        pending_login: false,
    }
}

fn config(accounts: Vec<Account>, env: Option<&str>, active: Option<&str>) -> AppConfig {
    AppConfig {
        environments: vec![Environment {
            id: "env1".to_string(),
            name: "Default".to_string(),
            created_at: "t0".to_string(),
        }],
        accounts,
        active: ActiveSelection {
            env_id: env.map(|e| e.to_string()),
            account_id: active.map(|a| a.to_string()),
        },
        cursor_app_path: "/Applications/Cursor.app".to_string(),
    }
}

fn login(email: Option<&str>, name: Option<&str>) -> AuthSnapshot {
    snapshot_from_tokens("access", "refresh", email, name)
}

fn sample() -> AppConfig {
    config(
        vec![
            account("a1", "env1", "Alice Work", Some("alice@work.com")),
            account("a2", "env1", "Bob", Some("bob@home.org")),
            account("a3", "env1", "Élodie", None),
        ],
        Some("env1"),
        Some("a1"),
    )
}

#[test]
fn find_account_by_id() {
    let cfg = sample();
    assert_eq!(find_account(&cfg, "a2").unwrap().name, "Bob");
}

#[test]
fn find_account_trims_and_ignores_ascii_case() {
    let cfg = sample();
    assert_eq!(find_account(&cfg, "  BOB@HOME.ORG ").unwrap().id, "a2");
}

#[test]
fn find_account_by_lowercase_substring() {
    let cfg = sample();
    // Only full Unicode lowercasing makes "ÉLO" a substring of "élodie".
    assert_eq!(find_account(&cfg, "ÉLO").unwrap().id, "a3");
    assert_eq!(find_account_index(&cfg, "work.com").unwrap(), 0);
}

#[test]
fn find_account_ignores_order_and_surrounding_space() {
    let mut cfg = sample();
    cfg.accounts.reverse();
    assert_eq!(find_account(&cfg, "\tbob ").unwrap().id, find_account(&sample(), "bob").unwrap().id);
    assert!(find_account(&cfg, "o").is_err());
}

#[test]
fn find_account_empty_query() {
    let cfg = sample();
    assert_eq!(find_account(&cfg, "   ").unwrap_err(), "Account query is empty");
}

#[test]
fn find_account_no_match() {
    let cfg = sample();
    assert_eq!(find_account(&cfg, " carol ").unwrap_err(), "No account matches \"carol\"");
}

#[test]
fn find_account_ambiguous_lists_matches() {
    let cfg = sample();
    assert_eq!(
        find_account(&cfg, "o").unwrap_err(),
        "Ambiguous account \"o\": Alice Work (alice@work.com), Bob (bob@home.org), Élodie (a3)"
    );
}

#[test]
fn summary_uses_email_or_id() {
    assert_eq!(account_summary_text(&account("x", "e", "N", Some("m@x"))), "N (m@x)");
    assert_eq!(account_summary_text(&account("x", "e", "N", None)), "N (x)");
}

#[test]
fn capture_requires_active_environment() {
    let mut cfg = config(vec![], None, None);
    let err = capture_current(&mut cfg, None, &login(None, None), "n".into(), "t1".into()).unwrap_err();
    assert_eq!(err, "No active environment");
    assert!(cfg.accounts.is_empty());
}

#[test]
fn capture_requires_login() {
    let mut cfg = sample();
    let snap = snapshot_from_tokens("", "refresh", None, None);
    let err = capture_current(&mut cfg, None, &snap, "n".into(), "t1".into()).unwrap_err();
    assert_eq!(err, "No Cursor Agent login found to capture");
    assert_eq!(cfg.accounts.len(), 3);
}

#[test]
fn capture_adds_account_named_by_profile() {
    let mut cfg = sample();
    let snap = login(Some("new@x.io"), Some("  Newcomer "));
    let a = capture_current(&mut cfg, None, &snap, "n1".into(), "t1".into()).unwrap();
    assert_eq!(a.id, "n1");
    assert_eq!(a.env_id, "env1");
    assert_eq!(a.name, "Newcomer");
    assert_eq!(a.email.as_deref(), Some("new@x.io"));
    assert_eq!(a.updated_at, "t1");
    assert_eq!(cfg.accounts.len(), 4);
    assert_eq!(cfg.active.account_id.as_deref(), Some("n1"));
}

#[test]
fn capture_names_fall_back_to_email_then_default() {
    let mut cfg = sample();
    let a = capture_current(&mut cfg, None, &login(Some("z@x.io"), None), "n1".into(), "t".into()).unwrap();
    assert_eq!(a.name, "z@x.io");
    let b = capture_current(&mut cfg, None, &login(None, None), "n2".into(), "t".into()).unwrap();
    assert_eq!(b.name, "Captured account");
    assert!(b.email.is_none());
    let c = capture_current(&mut cfg, Some("Mine".into()), &login(None, Some("P")), "n3".into(), "t".into()).unwrap();
    assert_eq!(c.name, "Mine");
}

#[test]
fn capture_refreshes_account_with_same_email() {
    let mut cfg = sample();
    let mut pending = account("p", "env1", "Old", Some("bob@home.org"));
    pending.pending_login = true;
    cfg.accounts[1] = pending;
    let a = capture_current(&mut cfg, None, &login(Some("bob@home.org"), Some("Robert")), "n1".into(), "t2".into()).unwrap();
    assert_eq!(a.id, "p");
    assert_eq!(a.name, "Robert");
    assert!(!a.pending_login);
    assert_eq!(a.updated_at, "t2");
    assert_eq!(cfg.accounts.len(), 3);
    assert_eq!(cfg.accounts[1].name, "Robert");
    assert_eq!(cfg.active.account_id.as_deref(), Some("p"));
}

#[test]
fn capture_twice_files_login_once() {
    let mut cfg = sample();
    let first = capture_current(&mut cfg, None, &login(Some("twice@x.io"), None), "n1".into(), "t1".into()).unwrap();
    let count = cfg.accounts.len();
    let second = capture_current(&mut cfg, Some("Again".into()), &login(Some("twice@x.io"), None), "n2".into(), "t2".into()).unwrap();
    assert_eq!(cfg.accounts.len(), count);
    assert_eq!(second.id, first.id);
    assert_eq!(second.name, "Again");
}

fn envelope(version: u32, email: Option<&str>, name: Option<&str>, snap: AuthSnapshot) -> AccountExport {
    AccountExport {
        version,
        exported_at: "t".to_string(),
        email: email.map(|e| e.to_string()),
        name: name.map(|n| n.to_string()),
        snapshot: snap,
    }
}

#[test]
fn import_rejects_other_versions() {
    let x = envelope(2, None, None, login(None, None));
    assert_eq!(check_import_envelope(&x).unwrap_err(), "Unsupported export version 2");
    let x = envelope(1234, None, None, login(None, None));
    let mut cfg = sample();
    assert_eq!(import_account(&mut cfg, &x, "n".into(), "t".into()).unwrap_err(), "Unsupported export version 1234");
}

#[test]
fn import_rejects_envelope_without_tokens() {
    let x = envelope(1, None, None, AuthSnapshot::new());
    assert_eq!(check_import_envelope(&x).unwrap_err(), "Import envelope has no login tokens");
}

#[test]
fn import_adds_account_without_activating() {
    let mut cfg = sample();
    let x = envelope(1, None, None, login(Some("imp@x.io"), None));
    let a = import_account(&mut cfg, &x, "n9".into(), "t9".into()).unwrap();
    assert_eq!(a.id, "n9");
    assert_eq!(a.email.as_deref(), Some("imp@x.io"));
    assert_eq!(a.name, "imp@x.io");
    assert_eq!(cfg.accounts.len(), 4);
    assert_eq!(cfg.active.account_id.as_deref(), Some("a1"));
    let y = envelope(1, None, None, login(None, None));
    assert_eq!(import_account(&mut cfg, &y, "n10".into(), "t".into()).unwrap().name, "Imported account");
}

#[test]
fn import_refreshes_same_email_and_keeps_name_unless_given() {
    let mut cfg = sample();
    let x = envelope(1, Some("alice@work.com"), None, login(None, Some("Someone")));
    let a = import_account(&mut cfg, &x, "n".into(), "t5".into()).unwrap();
    assert_eq!(a.id, "a1");
    assert_eq!(a.name, "Alice Work");
    assert_eq!(cfg.accounts.len(), 3);
    let y = envelope(1, Some("alice@work.com"), Some("Alice"), login(None, None));
    assert_eq!(import_account(&mut cfg, &y, "n".into(), "t6".into()).unwrap().name, "Alice");
}

#[test]
fn import_requires_active_environment() {
    let mut cfg = config(vec![], None, None);
    let x = envelope(1, None, None, login(None, None));
    assert_eq!(import_account(&mut cfg, &x, "n".into(), "t".into()).unwrap_err(), "No active environment");
}

#[test]
fn import_twice_files_login_once() {
    let mut cfg = sample();
    let x = envelope(1, Some("twice@x.io"), None, login(None, None));
    let first = import_account(&mut cfg, &x, "n1".into(), "t1".into()).unwrap();
    let count = cfg.accounts.len();
    let second = import_account(&mut cfg, &x, "n2".into(), "t2".into()).unwrap();
    assert_eq!(cfg.accounts.len(), count);
    assert_eq!(second.id, first.id);
    assert_eq!(second.updated_at, "t2");
}

#[test]
fn export_packages_account() {
    let a = account("a1", "env1", "Alice", None);
    let x = export_account(&a, login(Some("alice@x.io"), None), "now".into()).unwrap();
    assert_eq!(x.version, 1);
    assert_eq!(x.exported_at, "now");
    assert_eq!(x.email.as_deref(), Some("alice@x.io"));
    assert_eq!(x.name.as_deref(), Some("Alice"));
    assert!(check_import_envelope(&x).is_ok());
    let err = export_account(&a, AuthSnapshot::new(), "now".into()).unwrap_err();
    assert_eq!(err, "Account snapshot has no login tokens");
}

#[test]
fn export_then_import_files_the_account() {
    let a = account("a1", "env1", "Alice", Some("alice@x.io"));
    let x = export_account(&a, login(None, None), "now".into()).unwrap();
    let mut cfg = config(vec![], Some("env1"), None);
    let imported = import_account(&mut cfg, &x, "fresh".into(), "t".into()).unwrap();
    assert_eq!(imported.email.as_deref(), Some("alice@x.io"));
    assert_eq!(imported.name, "Alice");
}

#[test]
fn plan_switch_records_previous_login() {
    let cfg = sample();
    let plan = plan_switch(&cfg, "bob").unwrap();
    assert_eq!(plan.account.id, "a2");
    assert_eq!(plan.previous.unwrap().id, "a1");
    let same = plan_switch(&cfg, "a1").unwrap();
    assert!(same.previous.is_none());
}

#[test]
fn live_login_saved_onto_previous_only_when_it_holds_a_login() {
    let cfg = sample();
    let plan = plan_switch(&cfg, "bob").unwrap();
    assert_eq!(live_login_owner(&plan, &login(None, None)).unwrap().id, "a1");
    assert!(live_login_owner(&plan, &AuthSnapshot::new()).is_none());
    let same = plan_switch(&cfg, "a1").unwrap();
    assert!(live_login_owner(&same, &login(None, None)).is_none());
}

#[test]
fn plan_switch_refuses_pending_account() {
    let mut cfg = sample();
    cfg.accounts[1].pending_login = true;
    assert_eq!(plan_switch(&cfg, "a2").unwrap_err(), "Account is still pending login");
    assert_eq!(plan_switch(&cfg, "zzz").unwrap_err(), "No account matches \"zzz\"");
}

#[test]
fn switch_account_activates_target() {
    let mut cfg = sample();
    let target = account("a2", "env1", "Bob", Some("bob@home.org"));
    let err = switch_account(&mut cfg, &target, &AuthSnapshot::new()).unwrap_err();
    assert_eq!(err, "Account snapshot has no login tokens");
    assert_eq!(cfg.active.account_id.as_deref(), Some("a1"));
    let done = switch_account(&mut cfg, &target, &login(None, None)).unwrap();
    assert_eq!(done.id, "a2");
    assert_eq!(cfg.active.account_id.as_deref(), Some("a2"));
    assert_eq!(cfg.active.env_id.as_deref(), Some("env1"));
    assert_eq!(active_account(&cfg).unwrap().name, "Bob");
}

#[test]
fn remove_active_account_activates_next_in_environment() {
    let mut cfg = sample();
    let removal = remove_account(&mut cfg, "a1").unwrap();
    assert_eq!(removal.account.id, "a1");
    assert_eq!(cfg.accounts.len(), 2);
    assert_eq!(cfg.active.account_id.as_deref(), Some("a2"));
    match removal.cli_auth {
        CliAuthFollowUp::SyncFrom { env_id, account_id } => {
            assert_eq!(env_id, "env1");
            assert_eq!(account_id, "a2");
        }
        other => panic!("unexpected follow-up {other:?}"),
    }
}

#[test]
fn remove_last_active_account_clears_cli() {
    let mut cfg = config(vec![account("only", "env1", "Solo", None)], Some("env1"), Some("only"));
    let removal = remove_account(&mut cfg, "solo").unwrap();
    assert!(matches!(removal.cli_auth, CliAuthFollowUp::Clear));
    assert!(cfg.accounts.is_empty());
    assert!(cfg.active.account_id.is_none());
}

#[test]
fn remove_inactive_account_keeps_cli() {
    let mut cfg = sample();
    let removal = remove_account(&mut cfg, "bob").unwrap();
    assert!(matches!(removal.cli_auth, CliAuthFollowUp::Keep));
    assert_eq!(cfg.active.account_id.as_deref(), Some("a1"));
    assert!(cfg.accounts.iter().all(|a| a.id != "a2"));
    assert_eq!(remove_account(&mut cfg, "").unwrap_err(), "Account query is empty");
}

#[test]
fn bootstrap_adds_and_selects_default_environment() {
    let mut cfg = AppConfig::new("/Applications/Cursor.app".to_string());
    assert!(ensure_default_environment(&mut cfg, "e1".into(), "t".into()));
    assert_eq!(cfg.environments.len(), 1);
    assert_eq!(cfg.environments[0].name, "Default");
    assert_eq!(cfg.active.env_id.as_deref(), Some("e1"));
    assert!(!ensure_default_environment(&mut cfg, "e2".into(), "t".into()));
    assert!(!select_default_environment(&mut cfg));

    let mut other = sample();
    other.active.env_id = None;
    assert!(select_default_environment(&mut other));
    assert_eq!(other.active.env_id.as_deref(), Some("env1"));
}

#[test]
fn bootstrap_adopts_live_login() {
    let mut cfg = config(vec![], Some("env1"), None);
    assert!(!environment_has_accounts(&cfg, &"env1".to_string()));
    assert!(adopt_live_account(&mut cfg, "env1".into(), "id".into(), &AuthSnapshot::new(), "t".into()).is_none());
    let a = adopt_live_account(&mut cfg, "env1".into(), "id".into(), &login(None, None), "t".into()).unwrap();
    assert_eq!(a.name, "Signed-in account");
    assert_eq!(cfg.active.account_id.as_deref(), Some("id"));
    assert!(environment_has_accounts(&cfg, &"env1".to_string()));
}
