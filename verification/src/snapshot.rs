//! Account snapshots: the `cursorAuth/*` keys that hold a login.

use vstd::prelude::*;

use crate::config::opt_view;
use crate::json::{compact_text, json_empty_object, json_get, json_insert, json_as_str, json_string, json_to_string, parse_json, parse_model, Json};
use crate::text::{owned, trim, trimmed};

verus! {

/// The key that holds the access token.
pub open spec fn access_token_key() -> Seq<char> {
    "cursorAuth/accessToken"@
}

/// The key that holds the refresh token.
pub open spec fn refresh_token_key() -> Seq<char> {
    "cursorAuth/refreshToken"@
}

/// The key that holds the cached e-mail address.
pub open spec fn cached_email_key() -> Seq<char> {
    "cursorAuth/cachedEmail"@
}

/// The key that holds the cached profile, a JSON object.
pub open spec fn cached_profile_key() -> Seq<char> {
    "cursorAuth/cachedScopedProfile"@
}

/// Saved auth state: key/value pairs, where a later pair for a key overrides
/// an earlier one.
#[derive(Debug)]
pub struct AuthSnapshot {
    pub keys: Vec<(String, String)>,
}

/// The value of `key` among `entries`: that of its last pair.
pub open spec fn lookup(entries: Seq<(String, String)>, key: Seq<char>) -> Option<Seq<char>>
    decreases entries.len(),
{
    if entries.len() == 0 {
        None
    } else if entries.last().0@ == key {
        Some(entries.last().1@)
    } else {
        lookup(entries.drop_last(), key)
    }
}

impl AuthSnapshot {
    /// The value that the snapshot holds for `key`.
    pub open spec fn value_of(&self, key: Seq<char>) -> Option<Seq<char>> {
        lookup(self.keys@, key)
    }

    /// An empty snapshot.
    pub fn new() -> (r: AuthSnapshot)
        ensures
            forall|k: Seq<char>| r.value_of(k) is None,
    {
        AuthSnapshot { keys: Vec::new() }
    }

    /// The value held for `key`.
    pub fn get(&self, key: &str) -> (r: Option<&String>)
        ensures
            match r {
                Some(v) => self.value_of(key@) == Some(v@),
                None => self.value_of(key@) is None,
            },
    {
        let wanted = owned(key);
        let mut i = self.keys.len();
        assert(self.keys@.take(i as int) == self.keys@);
        while i > 0
            invariant
                i <= self.keys@.len(),
                wanted@ == key@,
                lookup(self.keys@, key@) == lookup(self.keys@.take(i as int), key@),
            decreases i,
        {
            let ghost prefix = self.keys@.take(i as int);
            assert(prefix.drop_last() == self.keys@.take(i - 1));
            assert(prefix.last() == self.keys@[i - 1]);
            if self.keys[i - 1].0 == wanted {
                return Some(&self.keys[i - 1].1);
            }
            i = i - 1;
        }
        None
    }

    /// Sets `key` to `value`.
    pub fn insert(&mut self, key: String, value: String)
        ensures
            forall|k: Seq<char>|
                #[trigger] final(self).value_of(k) == if k == key@ {
                    Some(value@)
                } else {
                    old(self).value_of(k)
                },
    {
        let ghost before = self.keys@;
        let ghost key_view = key@;
        let ghost value_view = value@;
        self.keys.push((key, value));
        assert forall|k: Seq<char>|
            #[trigger] self.value_of(k) == if k == key_view {
                Some(value_view)
            } else {
                lookup(before, k)
            } by {
            assert(self.keys@.drop_last() == before);
        }
    }
}


/// The four snapshot keys are distinct.
pub proof fn lemma_snapshot_keys_distinct()
    ensures
        access_token_key() != refresh_token_key(),
        access_token_key() != cached_email_key(),
        access_token_key() != cached_profile_key(),
        refresh_token_key() != cached_email_key(),
        refresh_token_key() != cached_profile_key(),
        cached_email_key() != cached_profile_key(),
{
    reveal_strlit("cursorAuth/accessToken");
    reveal_strlit("cursorAuth/refreshToken");
    reveal_strlit("cursorAuth/cachedEmail");
    reveal_strlit("cursorAuth/cachedScopedProfile");
    assert(access_token_key()[11] != refresh_token_key()[11]);
    assert(access_token_key()[11] != cached_email_key()[11]);
    assert(access_token_key()[11] != cached_profile_key()[11]);
    assert(refresh_token_key()[11] != cached_email_key()[11]);
    assert(refresh_token_key()[11] != cached_profile_key()[11]);
    assert(cached_email_key().len() != cached_profile_key().len());
}

/// A value that is present and not empty.
pub open spec fn non_empty(v: Option<Seq<char>>) -> Option<Seq<char>> {
    match v {
        Some(s) => if s.len() > 0 {
            Some(s)
        } else {
            None
        },
        None => None,
    }
}

/// The text of an optional string slice, where it is not empty.
pub open spec fn non_empty_str(v: Option<&str>) -> Option<Seq<char>> {
    match v {
        Some(s) => non_empty(Some(s@)),
        None => None,
    }
}

/// The cached e-mail address, where it is present and not empty.
pub open spec fn snapshot_email(snap: AuthSnapshot) -> Option<Seq<char>> {
    non_empty(snap.value_of(cached_email_key()))
}

/// A snapshot holds a login when its access token is present and not empty.
pub open spec fn holds_login(snap: AuthSnapshot) -> bool {
    non_empty(snap.value_of(access_token_key())) is Some
}

/// The member `key` of a JSON object; `None` for a missing key or a value
/// that is not an object (as `Value::get` with a string key).
pub open spec fn member(doc: Json, key: Seq<char>) -> Option<Json> {
    match doc {
        Json::Object(m) => if m.contains_key(key) {
            Some(m[key])
        } else {
            None
        },
        _ => None,
    }
}

/// The profile member that names the user: `displayName`, or else `name`.
pub open spec fn profile_field(doc: Json) -> Option<Json> {
    if member(doc, "displayName"@) is Some {
        member(doc, "displayName"@)
    } else {
        member(doc, "name"@)
    }
}

/// The trimmed, non-empty display name of the cached profile, where its text
/// parses as JSON and the naming member is a string.
pub open spec fn snapshot_profile_name(snap: AuthSnapshot) -> Option<Seq<char>> {
    match snap.value_of(cached_profile_key()) {
        Some(raw) => match parse_model(raw) {
            Some(doc) => match profile_field(doc) {
                Some(Json::Text(s)) => non_empty(Some(trimmed(s))),
                _ => None,
            },
            None => None,
        },
        None => None,
    }
}

/// The profile name, or else the e-mail address.
pub open spec fn snapshot_display_name(snap: AuthSnapshot) -> Option<Seq<char>> {
    if snapshot_profile_name(snap) is Some {
        snapshot_profile_name(snap)
    } else {
        snapshot_email(snap)
    }
}

/// The cached profile text that carries a display name.
pub open spec fn profile_text(name: Seq<char>) -> Seq<char> {
    compact_text(Json::Object(Map::empty().insert("displayName"@, Json::Text(name))))
}

/// `snap` holds exactly the tokens `access` and `refresh`, the e-mail address
/// `email` and a profile that names `name`, the last two where present.
pub open spec fn built_from_tokens(
    snap: AuthSnapshot,
    access: Seq<char>,
    refresh: Seq<char>,
    email: Option<Seq<char>>,
    name: Option<Seq<char>>,
) -> bool {
    &&& snap.value_of(access_token_key()) == Some(access)
    &&& snap.value_of(refresh_token_key()) == Some(refresh)
    &&& snap.value_of(cached_email_key()) == email
    &&& snap.value_of(cached_profile_key()) == match name {
        Some(n) => Some(profile_text(n)),
        None => None,
    }
    &&& forall|k: Seq<char>|
        k != access_token_key() && k != refresh_token_key() && k != cached_email_key() && k
            != cached_profile_key() ==> #[trigger] snap.value_of(k) is None
}

/// A copy of a present, non-empty value.
fn non_empty_copy(v: Option<&String>) -> (r: Option<String>)
    ensures
        opt_view(r) == non_empty(
            match v {
                Some(s) => Some(s@),
                None => None,
            },
        ),
{
    match v {
        Some(s) => if s.as_str().is_empty() {
            None
        } else {
            Some(s.clone())
        },
        None => None,
    }
}

/// The cached e-mail address, unless it is missing or empty.
pub fn email_from_snapshot(snap: &AuthSnapshot) -> (r: Option<String>)
    ensures
        opt_view(r) == snapshot_email(*snap),
{
    non_empty_copy(snap.get("cursorAuth/cachedEmail"))
}

/// Display name from `cursorAuth/cachedScopedProfile` JSON (`displayName` or `name`).
pub fn profile_name_from_snapshot(snap: &AuthSnapshot) -> (r: Option<String>)
    ensures
        opt_view(r) == snapshot_profile_name(*snap),
{
    let raw = match snap.get("cursorAuth/cachedScopedProfile") {
        Some(raw) => raw,
        None => return None,
    };
    let value = match parse_json(raw.as_str()) {
        Ok(value) => value,
        Err(_) => return None,
    };
    let field = match json_get(&value, "displayName") {
        Some(field) => Some(field),
        None => json_get(&value, "name"),
    };
    match field {
        Some(field) => match json_as_str(field) {
            Some(text) => {
                let name = trim(text);
                if name.as_str().is_empty() {
                    None
                } else {
                    Some(name)
                }
            },
            None => None,
        },
        None => None,
    }
}

/// Prefer profile display name; fall back to email.
pub fn display_name_from_snapshot(snap: &AuthSnapshot) -> (r: Option<String>)
    ensures
        opt_view(r) == snapshot_display_name(*snap),
{
    match profile_name_from_snapshot(snap) {
        Some(name) => Some(name),
        None => email_from_snapshot(snap),
    }
}

/// True when the snapshot holds a non-empty access token.
pub fn has_login_tokens(snap: &AuthSnapshot) -> (r: bool)
    ensures
        r == holds_login(*snap),
{
    match snap.get("cursorAuth/accessToken") {
        Some(token) => !token.as_str().is_empty(),
        None => false,
    }
}

/// Build a snapshot from raw tokens and optional identity fields.
pub fn snapshot_from_tokens(
    access: &str,
    refresh: &str,
    email: Option<&str>,
    display_name: Option<&str>,
) -> (r: AuthSnapshot)
    ensures
        built_from_tokens(r, access@, refresh@, non_empty_str(email), non_empty_str(display_name)),
{
    proof {
        lemma_snapshot_keys_distinct();
    }
    let mut snap = AuthSnapshot::new();
    snap.insert(owned("cursorAuth/accessToken"), owned(access));
    snap.insert(owned("cursorAuth/refreshToken"), owned(refresh));
    match email {
        Some(email) => if !email.is_empty() {
            snap.insert(owned("cursorAuth/cachedEmail"), owned(email));
        },
        None => {},
    }
    match display_name {
        Some(name) => if !name.is_empty() {
            let mut profile = json_empty_object();
            json_insert(&mut profile, owned("displayName"), json_string(owned(name)));
            snap.insert(owned("cursorAuth/cachedScopedProfile"), json_to_string(&profile));
        },
        None => {},
    }
    snap
}

} // verus!
