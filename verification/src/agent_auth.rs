//! What syncing an account into the Cursor Agent CLI writes: the tokens for the
//! platform credential store and the `authInfo` member of `cli-config.json`.

use vstd::prelude::*;

use crate::accounts::err_view;
use crate::config::opt_view;
use crate::json::{
    has_prefix, json_empty_object, json_error_message, json_get, json_as_str, json_insert, json_remove,
    json_string, json_to_string_pretty, parse_json, parse_model, pretty_text, Json,
};
use crate::snapshot::{
    access_token_key, built_from_tokens, display_name_from_snapshot, email_from_snapshot,
    has_login_tokens, holds_login, member, non_empty, refresh_token_key, snapshot_display_name,
    snapshot_email, snapshot_from_tokens, AuthSnapshot,
};
use crate::text::{owned, trim, trimmed};

verus! {

/// The identity the CLI shows for a login.
#[derive(Debug)]
pub struct AuthInfo {
    pub email: Option<String>,
    pub display_name: Option<String>,
}

/// What to do to the Agent CLI login.
#[derive(Debug)]
pub enum CliAuthSync {
    /// Remove the stored tokens and the `authInfo` member.
    Clear,
    /// Store these tokens and set `authInfo`.
    Write { access: String, refresh: String, auth_info: AuthInfo },
}

/// The `authInfo` object: `email` and `displayName` where present.
pub open spec fn auth_info_json(info: AuthInfo) -> Json {
    let with_email = match info.email {
        Some(e) => Map::<Seq<char>, Json>::empty().insert("email"@, Json::Text(e@)),
        None => Map::<Seq<char>, Json>::empty(),
    };
    Json::Object(
        match info.display_name {
            Some(n) => with_email.insert("displayName"@, Json::Text(n@)),
            None => with_email,
        },
    )
}

/// The identity of a snapshot: its e-mail address and display name.
pub fn auth_info_from_snapshot(snap: &AuthSnapshot) -> (r: AuthInfo)
    ensures
        opt_view(r.email) == snapshot_email(*snap),
        opt_view(r.display_name) == snapshot_display_name(*snap),
{
    AuthInfo { email: email_from_snapshot(snap), display_name: display_name_from_snapshot(snap) }
}

/// Push account tokens into the platform credential store + `cli-config.json`:
/// a snapshot without a login clears the CLI login, any other writes its
/// tokens and identity.
pub fn sync_cli_auth_from_snapshot(snap: &AuthSnapshot) -> (r: Result<CliAuthSync, String>)
    ensures
        !holds_login(*snap) ==> r matches Ok(CliAuthSync::Clear),
        holds_login(*snap) ==> match non_empty(snap.value_of(refresh_token_key())) {
            None => err_view(r) == Err::<CliAuthSync, Seq<char>>(
                "Missing refresh token in account snapshot"@,
            ),
            Some(refresh) => (r matches Ok(CliAuthSync::Write { access: a, refresh: t, auth_info })
                && Some(a@) == snap.value_of(access_token_key()) && t@ == refresh && opt_view(
                auth_info.email,
            ) == snapshot_email(*snap) && opt_view(auth_info.display_name) == snapshot_display_name(
                *snap,
            )),
        },
{
    if !has_login_tokens(snap) {
        return Ok(CliAuthSync::Clear);
    }
    let access = match snap.get("cursorAuth/accessToken") {
        Some(t) => if t.as_str().is_empty() {
            return Err(owned("Missing access token in account snapshot"));
        } else {
            t.clone()
        },
        None => return Err(owned("Missing access token in account snapshot")),
    };
    let refresh = match snap.get("cursorAuth/refreshToken") {
        Some(t) => if t.as_str().is_empty() {
            return Err(owned("Missing refresh token in account snapshot"));
        } else {
            t.clone()
        },
        None => return Err(owned("Missing refresh token in account snapshot")),
    };
    Ok(CliAuthSync::Write { access, refresh, auth_info: auth_info_from_snapshot(snap) })
}

/// The `authInfo` value for the CLI configuration.
fn auth_info_value(info: &AuthInfo) -> (r: serde_json::Value)
    ensures
        crate::json::json_model(r) == auth_info_json(*info),
{
    let mut value = json_empty_object();
    match &info.email {
        Some(e) => {
            json_insert(&mut value, owned("email"), json_string(e.clone()));
        },
        None => {},
    }
    match &info.display_name {
        Some(n) => {
            json_insert(&mut value, owned("displayName"), json_string(n.clone()));
        },
        None => {},
    }
    value
}

/// The members of the CLI configuration after setting or dropping `authInfo`.
pub open spec fn with_auth_info(members: Map<Seq<char>, Json>, auth_info: Option<AuthInfo>) -> Map<Seq<char>, Json> {
    match auth_info {
        Some(info) => members.insert("authInfo"@, auth_info_json(info)),
        None => members.remove("authInfo"@),
    }
}

/// The new text of `cli-config.json` (`raw`) with `authInfo` set from
/// `auth_info`, or dropped where it is `None`.
pub fn update_cli_config_auth_info(raw: &str, auth_info: Option<AuthInfo>) -> (r: Result<String, String>)
    ensures
        match parse_model(raw@) {
            None => (r matches Err(e) && has_prefix(e@, "Parse cli-config.json: "@)),
            Some(Json::Object(members)) => (r matches Ok(text) && text@ == pretty_text(
                Json::Object(with_auth_info(members, auth_info)),
            ) + "\n"@),
            Some(_) => err_view(r) == Err::<String, Seq<char>>(
                "cli-config.json root must be an object"@,
            ),
        },
{
    let mut value = match parse_json(raw) {
        Ok(value) => value,
        Err(e) => return Err(json_error_message("Parse cli-config.json: ", &e)),
    };
    let is_object = match &auth_info {
        Some(info) => json_insert(&mut value, owned("authInfo"), auth_info_value(info)),
        None => json_remove(&mut value, "authInfo"),
    };
    if !is_object {
        return Err(owned("cli-config.json root must be an object"));
    }
    match json_to_string_pretty(&value) {
        Ok(mut text) => {
            text.append("\n");
            Ok(text)
        },
        Err(e) => Err(json_error_message("Serialize cli-config.json: ", &e)),
    }
}

/// A trimmed, non-empty string member of the `authInfo` object.
pub open spec fn identity_field(doc: Json, key: Seq<char>) -> Option<Seq<char>> {
    match member(doc, "authInfo"@) {
        Some(info) => match member(info, key) {
            Some(Json::Text(s)) => non_empty(Some(trimmed(s))),
            _ => None,
        },
        None => None,
    }
}

/// The identity recorded in `cli-config.json`: e-mail and display name.
pub open spec fn cli_config_identity(raw: Option<Seq<char>>) -> (Option<Seq<char>>, Option<Seq<char>>) {
    match raw {
        Some(text) => match parse_model(text) {
            Some(doc) => (identity_field(doc, "email"@), identity_field(doc, "displayName"@)),
            None => (None, None),
        },
        None => (None, None),
    }
}

fn identity_text(doc: &serde_json::Value, key: &str) -> (r: Option<String>)
    ensures
        opt_view(r) == identity_field(crate::json::json_model(*doc), key@),
{
    let info = match json_get(doc, "authInfo") {
        Some(info) => info,
        None => return None,
    };
    let field = match json_get(info, key) {
        Some(field) => field,
        None => return None,
    };
    match json_as_str(field) {
        Some(text) => {
            let t = trim(text);
            if t.as_str().is_empty() {
                None
            } else {
                Some(t)
            }
        },
        None => None,
    }
}

/// The identity recorded in the text of `cli-config.json`, where it could be read.
pub fn read_cli_config_identity(raw: Option<&str>) -> (r: (Option<String>, Option<String>))
    ensures
        (opt_view(r.0), opt_view(r.1)) == cli_config_identity(
            match raw {
                Some(t) => Some(t@),
                None => None,
            },
        ),
{
    let text = match raw {
        Some(text) => text,
        None => return (None, None),
    };
    let doc = match parse_json(text) {
        Ok(doc) => doc,
        Err(_) => return (None, None),
    };
    (identity_text(&doc, "email"), identity_text(&doc, "displayName"))
}

/// The live Agent login as a snapshot: its tokens with the identity recorded
/// in `cli-config.json` (`cli_config`, where it could be read).
pub fn read_live_agent_snapshot(access: &str, refresh: &str, cli_config: Option<&str>) -> (r: AuthSnapshot)
    ensures
        ({
            let identity = cli_config_identity(
                match cli_config {
                    Some(t) => Some(t@),
                    None => None,
                },
            );
            built_from_tokens(r, access@, refresh@, identity.0, identity.1)
        }),
{
    let (email, name) = read_cli_config_identity(cli_config);
    let email_ref: Option<&str> = match &email {
        Some(e) => Some(e.as_str()),
        None => None,
    };
    let name_ref: Option<&str> = match &name {
        Some(n) => Some(n.as_str()),
        None => None,
    };
    snapshot_from_tokens(access, refresh, email_ref, name_ref)
}

} // verus!
