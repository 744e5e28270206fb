//! Agent CLI tokens in `~/.config/cursor/auth.json` (Linux).

use vstd::prelude::*;

use crate::accounts::err_view;
use crate::json::{
    has_prefix, json_empty_object, json_error_message, json_get, json_as_str, json_insert, json_model, json_remove,
    json_string, json_to_string_pretty, parse_json, parse_model, pretty_text, Json,
};
use crate::snapshot::member;
use crate::text::owned;

verus! {

/// What clearing the tokens does to `auth.json`.
#[derive(Debug)]
pub enum AuthFileChange {
    /// There is no file: nothing to do.
    Keep,
    /// Nothing but the tokens was kept: remove the file.
    Delete,
    /// Write this text to the file.
    Rewrite(String),
}

/// The document that the file holds: `{}` where there is no file, `None` where
/// its text does not parse.
pub open spec fn auth_document(existing: Option<Seq<char>>) -> Option<Json> {
    match existing {
        Some(raw) => parse_model(raw),
        None => Some(Json::Object(Map::empty())),
    }
}

/// The text of an optional string slice.
pub open spec fn opt_str(o: Option<&str>) -> Option<Seq<char>> {
    match o {
        Some(s) => Some(s@),
        None => None,
    }
}

/// A non-empty string member of the document.
pub open spec fn token_member(doc: Json, key: Seq<char>) -> Option<Seq<char>> {
    match member(doc, key) {
        Some(Json::Text(s)) => if s.len() > 0 {
            Some(s)
        } else {
            None
        },
        _ => None,
    }
}

/// The document held by `existing`, the file's text (`None`: no file).
fn read_auth_json(existing: Option<&str>) -> (r: Result<serde_json::Value, String>)
    ensures
        match auth_document(opt_str(existing)) {
            Some(doc) => (r matches Ok(v) && json_model(v) == doc),
            None => (r matches Err(e) && has_prefix(e@, "Parse auth.json: "@)),
        },
{
    match existing {
        Some(raw) => match parse_json(raw) {
            Ok(v) => Ok(v),
            Err(e) => Err(json_error_message("Parse auth.json: ", &e)),
        },
        None => Ok(json_empty_object()),
    }
}

/// A non-empty string member of a document.
fn token_text(doc: &serde_json::Value, key: &str) -> (r: Option<String>)
    ensures
        match r {
            Some(t) => token_member(json_model(*doc), key@) == Some(t@),
            None => token_member(json_model(*doc), key@) is None,
        },
{
    match json_get(doc, key) {
        Some(field) => match json_as_str(field) {
            Some(text) => if text.is_empty() {
                None
            } else {
                Some(owned(text))
            },
            None => None,
        },
        None => None,
    }
}

/// The stored tokens, given the text of `auth.json` (`None`: no file).
pub fn read_platform_tokens(existing: Option<&str>) -> (r: Result<(String, String), String>)
    ensures
        match auth_document(opt_str(existing)) {
            None => (r matches Err(e) && has_prefix(e@, "Parse auth.json: "@)),
            Some(doc) => match (token_member(doc, "accessToken"@), token_member(doc, "refreshToken"@)) {
                (Some(a), Some(t)) => (r matches Ok(pair) && pair.0@ == a && pair.1@ == t),
                (None, _) => err_view(r) == Err::<(String, String), Seq<char>>(
                    "No accessToken in ~/.config/cursor/auth.json"@,
                ),
                (Some(_), None) => err_view(r) == Err::<(String, String), Seq<char>>(
                    "No refreshToken in ~/.config/cursor/auth.json"@,
                ),
            },
        },
{
    let doc = match read_auth_json(existing) {
        Ok(doc) => doc,
        Err(e) => return Err(e),
    };
    let access = match token_text(&doc, "accessToken") {
        Some(a) => a,
        None => return Err(owned("No accessToken in ~/.config/cursor/auth.json")),
    };
    let refresh = match token_text(&doc, "refreshToken") {
        Some(t) => t,
        None => return Err(owned("No refreshToken in ~/.config/cursor/auth.json")),
    };
    Ok((access, refresh))
}

/// The text written for a document: pretty JSON and a final newline.
fn auth_json_text(doc: &serde_json::Value) -> (r: Result<String, String>)
    ensures
        (r matches Ok(text) && text@ == pretty_text(json_model(*doc)) + "\n"@),
{
    match json_to_string_pretty(doc) {
        Ok(mut text) => {
            text.append("\n");
            Ok(text)
        },
        Err(e) => Err(json_error_message("Serialize auth.json: ", &e)),
    }
}

/// The new text of `auth.json` holding the tokens, given its text (`None`: no file).
pub fn write_platform_tokens(existing: Option<&str>, access: &str, refresh: &str) -> (r: Result<
    String,
    String,
>)
    ensures
        match auth_document(opt_str(existing)) {
            None => (r matches Err(e) && has_prefix(e@, "Parse auth.json: "@)),
            Some(Json::Object(m)) => (r matches Ok(text) && text@ == pretty_text(
                Json::Object(
                    m.insert("accessToken"@, Json::Text(access@)).insert(
                        "refreshToken"@,
                        Json::Text(refresh@),
                    ),
                ),
            ) + "\n"@),
            Some(_) => err_view(r) == Err::<String, Seq<char>>("auth.json root must be an object"@),
        },
{
    let mut doc = match read_auth_json(existing) {
        Ok(doc) => doc,
        Err(e) => return Err(e),
    };
    if !json_insert(&mut doc, owned("accessToken"), json_string(owned(access))) {
        return Err(owned("auth.json root must be an object"));
    }
    json_insert(&mut doc, owned("refreshToken"), json_string(owned(refresh)));
    auth_json_text(&doc)
}

/// The members left after the tokens are dropped.
pub open spec fn without_tokens(m: Map<Seq<char>, Json>) -> Map<Seq<char>, Json> {
    m.remove("accessToken"@).remove("refreshToken"@)
}

/// What clearing the tokens does to `auth.json`, given its text (`None`: no
/// file): drop the tokens, and remove the file where neither `apiKey` nor
/// `bedrockCredentials` is left.
pub fn clear_platform_tokens(existing: Option<&str>) -> (r: Result<AuthFileChange, String>)
    ensures
        match existing {
            None => r matches Ok(AuthFileChange::Keep),
            Some(raw) => match parse_model(raw@) {
                None => (r matches Err(e) && has_prefix(e@, "Parse auth.json: "@)),
                Some(doc) => {
                    let kept = match doc {
                        Json::Object(m) => Json::Object(without_tokens(m)),
                        _ => doc,
                    };
                    if (doc is Object && member(kept, "apiKey"@) is None && member(
                        kept,
                        "bedrockCredentials"@,
                    ) is None) {
                        r matches Ok(AuthFileChange::Delete)
                    } else {
                        (r matches Ok(AuthFileChange::Rewrite(text)) && text@ == pretty_text(kept)
                            + "\n"@)
                    }
                },
            },
        },
{
    let raw = match existing {
        Some(raw) => raw,
        None => return Ok(AuthFileChange::Keep),
    };
    let mut doc = match parse_json(raw) {
        Ok(doc) => doc,
        Err(e) => return Err(json_error_message("Parse auth.json: ", &e)),
    };
    let is_object = json_remove(&mut doc, "accessToken");
    json_remove(&mut doc, "refreshToken");
    if is_object && json_get(&doc, "apiKey").is_none() && json_get(&doc, "bedrockCredentials").is_none() {
        return Ok(AuthFileChange::Delete);
    }
    match auth_json_text(&doc) {
        Ok(text) => Ok(AuthFileChange::Rewrite(text)),
        Err(e) => Err(e),
    }
}

} // verus!
