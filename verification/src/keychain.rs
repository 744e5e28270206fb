//! Agent CLI tokens in the macOS Keychain, written and read with `security`.

use vstd::prelude::*;

use crate::accounts::err_view;
use crate::command::CommandOutcome;
use crate::config::opt_view;
use crate::snapshot::non_empty;
use crate::text::{contains, owned, str_contains, trim, trimmed};

verus! {

/// The Keychain service that holds the access token.
pub open spec fn access_token_service() -> Seq<char> {
    "cursor-access-token"@
}

/// The Keychain service that holds the refresh token.
pub open spec fn refresh_token_service() -> Seq<char> {
    "cursor-refresh-token"@
}

/// The texts of a list of strings.
pub open spec fn texts(v: Seq<String>) -> Seq<Seq<char>> {
    v.map_values(|s: String| s@)
}

/// Arguments of `security` that delete the item of `service`.
pub fn delete_keychain_args(service: &str) -> (r: Vec<String>)
    ensures
        texts(r@) == seq!["delete-generic-password"@, "-s"@, service@, "-a"@, "cursor-user"@],
{
    let r = vec![owned("delete-generic-password"), owned("-s"), owned(service), owned("-a"), owned("cursor-user")];
    assert(texts(r@) =~= seq!["delete-generic-password"@, "-s"@, service@, "-a"@, "cursor-user"@]);
    r
}

/// Arguments of `security` that add (or update) the item of `service`.
pub fn add_keychain_args(service: &str, password: &str) -> (r: Vec<String>)
    ensures
        texts(r@) == seq![
            "add-generic-password"@,
            "-s"@,
            service@,
            "-a"@,
            "cursor-user"@,
            "-w"@,
            password@,
            "-U"@,
        ],
{
    let r = vec![
        owned("add-generic-password"),
        owned("-s"),
        owned(service),
        owned("-a"),
        owned("cursor-user"),
        owned("-w"),
        owned(password),
        owned("-U"),
    ];
    assert(texts(r@) =~= seq![
        "add-generic-password"@,
        "-s"@,
        service@,
        "-a"@,
        "cursor-user"@,
        "-w"@,
        password@,
        "-U"@,
    ]);
    r
}

/// Arguments of `security` that print the password of `service`.
pub fn find_keychain_args(service: &str) -> (r: Vec<String>)
    ensures
        texts(r@) == seq!["find-generic-password"@, "-s"@, service@, "-a"@, "cursor-user"@, "-w"@],
{
    let r = vec![
        owned("find-generic-password"),
        owned("-s"),
        owned(service),
        owned("-a"),
        owned("cursor-user"),
        owned("-w"),
    ];
    assert(texts(r@) =~= seq![
        "find-generic-password"@,
        "-s"@,
        service@,
        "-a"@,
        "cursor-user"@,
        "-w"@,
    ]);
    r
}

/// A deletion succeeded, or found no item to delete (exit code 44, or a
/// "could not be found" message).
pub open spec fn deletion_done(outcome: CommandOutcome) -> bool {
    ||| outcome.success
    ||| outcome.code == Some(44i32)
    ||| contains(outcome.stderr@, "could not be found"@)
    ||| contains(outcome.stderr@, "The specified item could not be found"@)
}

/// The result of deleting the item of `service`, given what `security` reported.
pub fn delete_keychain_password(service: &str, outcome: &CommandOutcome) -> (r: Result<(), String>)
    ensures
        deletion_done(*outcome) ==> r is Ok,
        !deletion_done(*outcome) ==> err_view(r) == Err::<(), Seq<char>>(
            "Failed to delete Keychain item "@ + service@ + ": "@ + trimmed(outcome.stderr@),
        ),
{
    let not_found = match outcome.code {
        Some(code) => code == 44,
        None => false,
    };
    if outcome.success || not_found {
        return Ok(());
    }
    if str_contains(outcome.stderr.as_str(), "could not be found") || str_contains(
        outcome.stderr.as_str(),
        "The specified item could not be found",
    ) {
        return Ok(());
    }
    let mut msg = owned("Failed to delete Keychain item ");
    msg.append(service);
    msg.append(": ");
    let detail = trim(outcome.stderr.as_str());
    msg.append(detail.as_str());
    Err(msg)
}

/// The result of adding the item of `service`, given what `security` reported.
pub fn set_keychain_password(service: &str, outcome: &CommandOutcome) -> (r: Result<(), String>)
    ensures
        outcome.success ==> r is Ok,
        !outcome.success ==> err_view(r) == Err::<(), Seq<char>>(
            "Failed to write Keychain item "@ + service@ + ": "@ + trimmed(outcome.stderr@),
        ),
{
    if outcome.success {
        return Ok(());
    }
    let mut msg = owned("Failed to write Keychain item ");
    msg.append(service);
    msg.append(": ");
    let detail = trim(outcome.stderr.as_str());
    msg.append(detail.as_str());
    Err(msg)
}

/// The password that `security find-generic-password -w` printed, trimmed;
/// `None` where it failed or printed nothing.
pub fn get_keychain_password(outcome: &CommandOutcome) -> (r: Option<String>)
    ensures
        !outcome.success ==> r is None,
        outcome.success ==> opt_view(r) == non_empty(Some(trimmed(outcome.stdout@))),
{
    if !outcome.success {
        return None;
    }
    let value = trim(outcome.stdout.as_str());
    if value.as_str().is_empty() {
        None
    } else {
        Some(value)
    }
}

/// The items that storing the tokens writes, in order: service and password.
pub fn write_platform_tokens(access: &str, refresh: &str) -> (r: Vec<(String, String)>)
    ensures
        r@.len() == 2,
        r@[0].0@ == access_token_service() && r@[0].1@ == access@,
        r@[1].0@ == refresh_token_service() && r@[1].1@ == refresh@,
{
    vec![(owned("cursor-access-token"), owned(access)), (owned("cursor-refresh-token"), owned(refresh))]
}

/// The items that clearing the tokens deletes, in order.
pub fn clear_platform_tokens() -> (r: Vec<String>)
    ensures
        texts(r@) == seq![access_token_service(), refresh_token_service()],
{
    let r = vec![owned("cursor-access-token"), owned("cursor-refresh-token")];
    assert(texts(r@) =~= seq![access_token_service(), refresh_token_service()]);
    r
}

/// The stored tokens, given the passwords found for the access and the
/// refresh token service.
pub fn read_platform_tokens(access: Option<String>, refresh: Option<String>) -> (r: Result<
    (String, String),
    String,
>)
    ensures
        match (access, refresh) {
            (Some(a), Some(t)) => r == Ok::<(String, String), String>((a, t)),
            (None, _) => err_view(r) == Err::<(String, String), Seq<char>>(
                "No cursor-access-token in Keychain"@,
            ),
            (Some(_), None) => err_view(r) == Err::<(String, String), Seq<char>>(
                "No cursor-refresh-token in Keychain"@,
            ),
        },
{
    let access = match access {
        Some(a) => a,
        None => return Err(owned("No cursor-access-token in Keychain")),
    };
    let refresh = match refresh {
        Some(t) => t,
        None => return Err(owned("No cursor-refresh-token in Keychain")),
    };
    Ok((access, refresh))
}

} // verus!
