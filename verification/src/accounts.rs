//! High-level account operations: finding, switching, capturing, exporting,
//! importing and removing accounts.

use vstd::prelude::*;

use crate::config::{opt_view, Account, AppConfig, Environment};
use crate::snapshot::{
    display_name_from_snapshot, email_from_snapshot, has_login_tokens, holds_login,
    snapshot_display_name, snapshot_email, AuthSnapshot,
};
use crate::text::{
    contains, decimal, decimal_text, eq_ignore_ascii_case, joined, lowercase, owned, str_contains,
    str_eq_ignore_ascii_case, to_lowercase, trim, trimmed,
};

verus! {

/// An account matches a (trimmed) query by id, by name or e-mail ignoring ASCII
/// case, or by a lower-cased substring of its e-mail or name.
pub open spec fn account_matches(a: Account, q: Seq<char>) -> bool {
    ||| a.id@ == q
    ||| eq_ignore_ascii_case(a.name@, q)
    ||| (a.email matches Some(e) && eq_ignore_ascii_case(e@, q))
    ||| (a.email matches Some(e) && contains(lowercase(e@), lowercase(q)))
    ||| contains(lowercase(a.name@), lowercase(q))
}

/// The accounts that match a trimmed query, in their order.
pub open spec fn matching_accounts(accounts: Seq<Account>, q: Seq<char>) -> Seq<Account> {
    accounts.filter(|a: Account| account_matches(a, q))
}

/// `name (email)`, or `name (id)` for an account without an e-mail address.
pub open spec fn account_summary(a: Account) -> Seq<char> {
    a.name@ + " ("@ + match a.email {
        Some(e) => e@,
        None => a.id@,
    } + ")"@
}

/// What looking up `query` among `accounts` gives: the one account that
/// matches, or the error message.
pub open spec fn find_outcome(accounts: Seq<Account>, query: Seq<char>) -> Result<Account, Seq<char>> {
    let q = trimmed(query);
    let found = matching_accounts(accounts, q);
    if q.len() == 0 {
        Err("Account query is empty"@)
    } else if found.len() == 1 {
        Ok(found[0])
    } else if found.len() == 0 {
        Err("No account matches \""@ + q + "\""@)
    } else {
        Err(
            "Ambiguous account \""@ + q + "\": "@ + joined(
                found.map_values(|a: Account| account_summary(a)),
                ", "@,
            ),
        )
    }
}

/// A result with its error message taken by its text.
pub open spec fn err_view<T>(r: Result<T, String>) -> Result<T, Seq<char>> {
    match r {
        Ok(v) => Ok(v),
        Err(e) => Err(e@),
    }
}

/// `name (email)`, or `name (id)` for an account without an e-mail address.
pub fn account_summary_text(a: &Account) -> (r: String)
    ensures
        r@ == account_summary(*a),
{
    let mut r = a.name.clone();
    r.append(" (");
    match &a.email {
        Some(e) => r.append(e.as_str()),
        None => r.append(a.id.as_str()),
    }
    r.append(")");
    r
}

fn matches_query(a: &Account, q: &String, q_lower: &String) -> (r: bool)
    requires
        q_lower@ == lowercase(q@),
    ensures
        r == account_matches(*a, q@),
{
    if a.id == *q || str_eq_ignore_ascii_case(a.name.as_str(), q.as_str()) {
        return true;
    }
    match &a.email {
        Some(e) => {
            if str_eq_ignore_ascii_case(e.as_str(), q.as_str()) {
                return true;
            }
            let e_lower = to_lowercase(e.as_str());
            if str_contains(e_lower.as_str(), q_lower.as_str()) {
                return true;
            }
        },
        None => {},
    }
    let name_lower = to_lowercase(a.name.as_str());
    str_contains(name_lower.as_str(), q_lower.as_str())
}

/// Positions of the accounts that match `q`, with the matching accounts.
fn matching_positions(accounts: &Vec<Account>, q: &String) -> (r: Vec<usize>)
    ensures
        r@.len() == matching_accounts(accounts@, q@).len(),
        forall|k: int|
            0 <= k < r@.len() ==> #[trigger] r@[k] < accounts@.len() && accounts@[r@[k] as int]
                == matching_accounts(accounts@, q@)[k],
{
    let q_lower = to_lowercase(q.as_str());
    let ghost pred = |a: Account| account_matches(a, q@);
    let mut r: Vec<usize> = Vec::new();
    let mut i: usize = 0;
    assert(accounts@.take(0).filter(pred) == Seq::<Account>::empty()) by {
        reveal_with_fuel(Seq::<_>::filter, 1);
    }
    while i < accounts.len()
        invariant
            q_lower@ == lowercase(q@),
            i <= accounts@.len(),
            pred == (|a: Account| account_matches(a, q@)),
            r@.len() == accounts@.take(i as int).filter(pred).len(),
            forall|k: int|
                0 <= k < r@.len() ==> #[trigger] r@[k] < i && accounts@[r@[k] as int]
                    == accounts@.take(i as int).filter(pred)[k],
        decreases accounts@.len() - i,
    {
        let ghost before = accounts@.take(i as int).filter(pred);
        assert(accounts@.take(i + 1).drop_last() == accounts@.take(i as int));
        assert(accounts@.take(i + 1).last() == accounts@[i as int]);
        assert(accounts@.take(i + 1).filter(pred) == if pred(accounts@[i as int]) {
            before.push(accounts@[i as int])
        } else {
            before
        }) by {
            reveal_with_fuel(Seq::<_>::filter, 1);
        }
        if matches_query(&accounts[i], q, &q_lower) {
            r.push(i);
        }
        i = i + 1;
    }
    assert(accounts@.take(accounts@.len() as int) == accounts@);
    r
}

/// The position of the one account that `query` names.
pub fn find_account_index(cfg: &AppConfig, query: &str) -> (r: Result<usize, String>)
    ensures
        match r {
            Ok(i) => i < cfg.accounts@.len() && find_outcome(cfg.accounts@, query@) == Ok::<
                Account,
                Seq<char>,
            >(cfg.accounts@[i as int]),
            Err(e) => find_outcome(cfg.accounts@, query@) == Err::<Account, Seq<char>>(e@),
        },
{
    let q = trim(query);
    if q.as_str().is_empty() {
        return Err(owned("Account query is empty"));
    }
    let positions = matching_positions(&cfg.accounts, &q);
    let ghost found = matching_accounts(cfg.accounts@, q@);
    if positions.len() == 1 {
        return Ok(positions[0]);
    }
    if positions.len() == 0 {
        let mut msg = owned("No account matches \"");
        msg.append(q.as_str());
        msg.append("\"");
        return Err(msg);
    }
    let ghost summaries = found.map_values(|a: Account| account_summary(a));
    let mut list = account_summary_text(&cfg.accounts[positions[0]]);
    let mut k: usize = 1;
    assert(summaries.take(1).drop_last() == Seq::<Seq<char>>::empty());
    while k < positions.len()
        invariant
            1 <= k <= positions@.len(),
            positions@.len() == found.len(),
            summaries == found.map_values(|a: Account| account_summary(a)),
            forall|j: int|
                0 <= j < positions@.len() ==> #[trigger] positions@[j] < cfg.accounts@.len()
                    && cfg.accounts@[positions@[j] as int] == found[j],
            list@ == joined(summaries.take(k as int), ", "@),
        decreases positions@.len() - k,
    {
        let item = account_summary_text(&cfg.accounts[positions[k]]);
        list.append(", ");
        list.append(item.as_str());
        assert(summaries.take(k + 1).drop_last() == summaries.take(k as int));
        assert(summaries.take(k + 1).last() == summaries[k as int]);
        k = k + 1;
    }
    assert(summaries.take(k as int) == summaries);
    let mut msg = owned("Ambiguous account \"");
    msg.append(q.as_str());
    msg.append("\": ");
    msg.append(list.as_str());
    Err(msg)
}

/// The one account that `query` names, or why there is none.
pub fn find_account<'a>(cfg: &'a AppConfig, query: &str) -> (r: Result<&'a Account, String>)
    ensures
        err_view(
            match r {
                Ok(a) => Ok::<Account, String>(*a),
                Err(e) => Err(e),
            },
        ) == find_outcome(cfg.accounts@, query@),
{
    match find_account_index(cfg, query) {
        Ok(i) => Ok(&cfg.accounts[i]),
        Err(e) => Err(e),
    }
}


/// The first position in `s` whose account satisfies `pred`.
pub open spec fn first_index(s: Seq<Account>, pred: spec_fn(Account) -> bool) -> Option<int>
    decreases s.len(),
{
    if s.len() == 0 {
        None
    } else {
        match first_index(s.drop_last(), pred) {
            Some(i) => Some(i),
            None => if pred(s.last()) {
                Some(s.len() - 1)
            } else {
                None
            },
        }
    }
}

/// What `first_index` gives: a satisfying position with none before it, or
/// `None` when no position satisfies `pred`.
pub proof fn lemma_first_index(s: Seq<Account>, pred: spec_fn(Account) -> bool)
    ensures
        match first_index(s, pred) {
            Some(i) => 0 <= i < s.len() && pred(s[i]) && forall|j: int|
                0 <= j < i ==> !pred(#[trigger] s[j]),
            None => forall|j: int| 0 <= j < s.len() ==> !pred(#[trigger] s[j]),
        },
    decreases s.len(),
{
    if s.len() > 0 {
        lemma_first_index(s.drop_last(), pred);
        assert forall|j: int| 0 <= j < s.len() - 1 implies s.drop_last()[j] == s[j] by {}
    }
}

/// The position of the first account with the given id.
fn position_of_id(accounts: &Vec<Account>, id: &String) -> (r: Option<usize>)
    ensures
        match r {
            Some(i) => i < accounts@.len() && accounts@[i as int].id@ == id@ && forall|j: int|
                0 <= j < i ==> (#[trigger] accounts@[j]).id@ != id@,
            None => forall|j: int| 0 <= j < accounts@.len() ==> (#[trigger] accounts@[j]).id@ != id@,
        },
{
    let mut i: usize = 0;
    while i < accounts.len()
        invariant
            i <= accounts@.len(),
            forall|j: int| 0 <= j < i ==> (#[trigger] accounts@[j]).id@ != id@,
        decreases accounts@.len() - i,
    {
        if accounts[i].id == *id {
            return Some(i);
        }
        i = i + 1;
    }
    None
}

/// The position of the first account of the given environment.
fn position_in_env(accounts: &Vec<Account>, env_id: &String) -> (r: Option<usize>)
    ensures
        match r {
            Some(i) => i < accounts@.len() && accounts@[i as int].env_id@ == env_id@ && forall|j: int|
                0 <= j < i ==> (#[trigger] accounts@[j]).env_id@ != env_id@,
            None => forall|j: int|
                0 <= j < accounts@.len() ==> (#[trigger] accounts@[j]).env_id@ != env_id@,
        },
{
    let mut i: usize = 0;
    while i < accounts.len()
        invariant
            i <= accounts@.len(),
            forall|j: int| 0 <= j < i ==> (#[trigger] accounts@[j]).env_id@ != env_id@,
        decreases accounts@.len() - i,
    {
        if accounts[i].env_id == *env_id {
            return Some(i);
        }
        i = i + 1;
    }
    None
}

/// An account of environment `env` with e-mail address `email`.
pub open spec fn same_login(a: Account, env: Seq<char>, email: Seq<char>) -> bool {
    a.env_id@ == env && opt_view(a.email) == Some(email)
}

/// The position of the first account of environment `env_id` with e-mail `email`.
fn position_of_login(accounts: &Vec<Account>, env_id: &String, email: &String) -> (r: Option<usize>)
    ensures
        match r {
            Some(i) => i < accounts@.len() && same_login(accounts@[i as int], env_id@, email@)
                && forall|j: int| 0 <= j < i ==> !same_login(#[trigger] accounts@[j], env_id@, email@),
            None => forall|j: int|
                0 <= j < accounts@.len() ==> !same_login(#[trigger] accounts@[j], env_id@, email@),
        },
{
    let mut i: usize = 0;
    while i < accounts.len()
        invariant
            i <= accounts@.len(),
            forall|j: int| 0 <= j < i ==> !same_login(#[trigger] accounts@[j], env_id@, email@),
        decreases accounts@.len() - i,
    {
        let a = &accounts[i];
        if a.env_id == *env_id {
            match &a.email {
                Some(e) => if *e == *email {
                    return Some(i);
                },
                None => {},
            }
        }
        i = i + 1;
    }
    None
}


/// A portable account export: the snapshot with the identity it belongs to.
#[derive(Debug)]
pub struct AccountExport {
    pub version: u32,
    pub exported_at: String,
    pub email: Option<String>,
    pub name: Option<String>,
    pub snapshot: AuthSnapshot,
}

/// `first` when present, else `second`.
pub open spec fn or_else(first: Option<Seq<char>>, second: Option<Seq<char>>) -> Option<Seq<char>> {
    if first is Some {
        first
    } else {
        second
    }
}

/// The value of an option, or `fallback`.
pub open spec fn unwrap_or(o: Option<Seq<char>>, fallback: Seq<char>) -> Seq<char> {
    match o {
        Some(v) => v,
        None => fallback,
    }
}

/// The configuration is unchanged but for its accounts and active account.
pub open spec fn same_but_accounts(before: AppConfig, after: AppConfig) -> bool {
    &&& after.environments == before.environments
    &&& after.cursor_app_path == before.cursor_app_path
    &&& after.active.env_id == before.active.env_id
}

/// The account `updated` is `before` refreshed at `now` with the name `name`.
pub open spec fn refreshed(before: Account, updated: Account, name: Seq<char>, now: Seq<char>) -> bool {
    &&& updated.id == before.id
    &&& updated.env_id == before.env_id
    &&& updated.email == before.email
    &&& updated.name@ == name
    &&& updated.updated_at@ == now
    &&& !updated.pending_login
}

/// The account `a` is new, with the given id, environment, name, e-mail and time.
pub open spec fn fresh_account(
    a: Account,
    id: Seq<char>,
    env: Seq<char>,
    name: Seq<char>,
    email: Option<Seq<char>>,
    now: Seq<char>,
) -> bool {
    &&& a.id@ == id
    &&& a.env_id@ == env
    &&& a.name@ == name
    &&& opt_view(a.email) == email
    &&& a.updated_at@ == now
    &&& !a.pending_login
}

/// Where an account with this e-mail already exists in `env`, its position.
pub open spec fn existing_login(accounts: Seq<Account>, env: Seq<char>, email: Option<Seq<char>>) -> Option<int> {
    match email {
        Some(e) => first_index(accounts, |a: Account| same_login(a, env, e)),
        None => None,
    }
}

/// A position found by a forward search is the one `first_index` names.
proof fn lemma_search_is_first(accounts: Seq<Account>, pred: spec_fn(Account) -> bool, r: Option<usize>)
    requires
        match r {
            Some(i) => i < accounts.len() && pred(accounts[i as int]) && forall|j: int|
                0 <= j < i ==> !pred(#[trigger] accounts[j]),
            None => forall|j: int| 0 <= j < accounts.len() ==> !pred(#[trigger] accounts[j]),
        },
    ensures
        first_index(accounts, pred) == match r {
            Some(i) => Some(i as int),
            None => None::<int>,
        },
{
    lemma_first_index(accounts, pred);
    match first_index(accounts, pred) {
        Some(k) => {
            match r {
                Some(i) => {
                    if k < i {
                        assert(!pred(accounts[k]));
                    }
                    if i < k {
                        assert(!pred(accounts[i as int]));
                    }
                },
                None => {
                    assert(!pred(accounts[k]));
                },
            }
        },
        None => {
            match r {
                Some(i) => {
                    assert(!pred(accounts[i as int]));
                },
                None => {},
            }
        },
    }
}

/// The name a capture gives a new account: the one given, else the snapshot's
/// display name, else its e-mail address, else "Captured account".
pub open spec fn capture_name(name: Option<Seq<char>>, snap: AuthSnapshot) -> Seq<char> {
    unwrap_or(or_else(or_else(name, snapshot_display_name(snap)), snapshot_email(snap)), "Captured account"@)
}

/// The name a capture gives an existing account: the one given, else the
/// snapshot's display name, else the one it had.
pub open spec fn recapture_name(name: Option<Seq<char>>, snap: AuthSnapshot, current: Seq<char>) -> Seq<char> {
    unwrap_or(or_else(name, snapshot_display_name(snap)), current)
}

/// A capture of `snap` into environment `env` turned `before` into `after`,
/// giving account `a`: the account with the same e-mail address refreshed,
/// or `a` added with id `new_id`; `a` is active either way.
pub open spec fn capture_applied(
    before: AppConfig,
    after: AppConfig,
    env: Seq<char>,
    name: Option<Seq<char>>,
    snap: AuthSnapshot,
    new_id: Seq<char>,
    now: Seq<char>,
    a: Account,
) -> bool {
    let old_accounts = before.accounts@;
    let new_accounts = after.accounts@;
    &&& same_but_accounts(before, after)
    &&& after.active.account_id == Some(a.id)
    &&& match existing_login(old_accounts, env, snapshot_email(snap)) {
        Some(i) => {
            &&& refreshed(old_accounts[i], a, recapture_name(name, snap, old_accounts[i].name@), now)
            &&& new_accounts == old_accounts.update(i, a)
        },
        None => {
            &&& fresh_account(a, new_id, env, capture_name(name, snap), snapshot_email(snap), now)
            &&& new_accounts == old_accounts.push(a)
        },
    }
}

/// Save the current Agent login (held in `snap`) as an account of the active
/// environment: refresh the account with the same e-mail address, or add one
/// with id `new_id`; either way it becomes the active account. The caller
/// stores `snap` under the returned account.
pub fn capture_current(
    cfg: &mut AppConfig,
    name: Option<String>,
    snap: &AuthSnapshot,
    new_id: String,
    now: String,
) -> (r: Result<Account, String>)
    ensures
        match old(cfg).active.env_id {
            None => err_view(r) == Err::<Account, Seq<char>>("No active environment"@) && *final(cfg)
                == *old(cfg),
            Some(env) => if !holds_login(*snap) {
                err_view(r) == Err::<Account, Seq<char>>("No Cursor Agent login found to capture"@)
                    && *final(cfg) == *old(cfg)
            } else {
                (r matches Ok(a) && capture_applied(
                    *old(cfg),
                    *final(cfg),
                    env@,
                    opt_view(name),
                    *snap,
                    new_id@,
                    now@,
                    a,
                ))
            },
        },
        r matches Ok(a) ==> opt_view(old(cfg).active.env_id) == Some(a.env_id@) && (name matches Some(
            n,
        ) ==> a.name@ == n@),
{
    let env_id = match &cfg.active.env_id {
        Some(env_id) => env_id.clone(),
        None => return Err(owned("No active environment")),
    };
    if !has_login_tokens(snap) {
        return Err(owned("No Cursor Agent login found to capture"));
    }
    let email = email_from_snapshot(snap);
    let display = display_name_from_snapshot(snap);
    match &email {
        Some(e) => {
            let found = position_of_login(&cfg.accounts, &env_id, e);
            proof {
                lemma_search_is_first(cfg.accounts@, |a: Account| same_login(a, env_id@, e@), found);
            }
            match found {
                Some(i) => {
                    let mut account = cfg.accounts[i].clone();
                    account.updated_at = now;
                    account.pending_login = false;
                    match name {
                        Some(n) => account.name = n,
                        None => match display {
                            Some(d) => account.name = d,
                            None => {},
                        },
                    }
                    let out = account.clone();
                    cfg.active.account_id = Some(account.id.clone());
                    cfg.accounts.set(i, account);
                    return Ok(out);
                },
                None => {},
            }
        },
        None => {},
    }
    let account_name = match name {
        Some(n) => n,
        None => match display {
            Some(d) => d,
            None => match &email {
                Some(e) => e.clone(),
                None => owned("Captured account"),
            },
        },
    };
    let account = Account {
        id: new_id,
        env_id,
        name: account_name,
        email,
        updated_at: now,
        pending_login: false,
    };
    let out = account.clone();
    cfg.active.account_id = Some(account.id.clone());
    cfg.accounts.push(account);
    Ok(out)
}


/// Why an import envelope is refused before any account is touched, if it is.
pub open spec fn import_refusal(envelope: AccountExport) -> Option<Seq<char>> {
    if envelope.version != 1 {
        Some("Unsupported export version "@ + decimal(envelope.version as nat))
    } else if !holds_login(envelope.snapshot) {
        Some("Import envelope has no login tokens"@)
    } else {
        None
    }
}

/// The e-mail address an import files the account under: the envelope's, else
/// the snapshot's.
pub open spec fn import_email(envelope: AccountExport) -> Option<Seq<char>> {
    or_else(opt_view(envelope.email), snapshot_email(envelope.snapshot))
}

/// The name an import gives a new account: the envelope's, else the snapshot's
/// display name, else the e-mail address, else "Imported account".
pub open spec fn import_name(envelope: AccountExport) -> Seq<char> {
    unwrap_or(
        or_else(or_else(opt_view(envelope.name), snapshot_display_name(envelope.snapshot)), import_email(envelope)),
        "Imported account"@,
    )
}

/// An import of `envelope` into environment `env` turned `before` into
/// `after`, giving account `a`: the account with the same e-mail address
/// refreshed, or `a` added with id `new_id`; the active account is kept.
pub open spec fn import_applied(
    before: AppConfig,
    after: AppConfig,
    env: Seq<char>,
    envelope: AccountExport,
    new_id: Seq<char>,
    now: Seq<char>,
    a: Account,
) -> bool {
    let old_accounts = before.accounts@;
    let new_accounts = after.accounts@;
    &&& same_but_accounts(before, after)
    &&& after.active.account_id == before.active.account_id
    &&& match existing_login(old_accounts, env, import_email(envelope)) {
        Some(i) => {
            &&& refreshed(old_accounts[i], a, unwrap_or(opt_view(envelope.name), old_accounts[i].name@), now)
            &&& new_accounts == old_accounts.update(i, a)
        },
        None => {
            &&& fresh_account(a, new_id, env, import_name(envelope), import_email(envelope), now)
            &&& new_accounts == old_accounts.push(a)
        },
    }
}

/// Refuse an envelope of another version or without login tokens.
pub fn check_import_envelope(envelope: &AccountExport) -> (r: Result<(), String>)
    ensures
        match import_refusal(*envelope) {
            Some(msg) => err_view(r) == Err::<(), Seq<char>>(msg),
            None => r is Ok,
        },
{
    if envelope.version != 1 {
        let mut msg = owned("Unsupported export version ");
        let number = decimal_text(envelope.version);
        msg.append(number.as_str());
        return Err(msg);
    }
    if !has_login_tokens(&envelope.snapshot) {
        return Err(owned("Import envelope has no login tokens"));
    }
    Ok(())
}

/// File an exported account under the active environment: refresh the account
/// with the same e-mail address, or add one with id `new_id`. The active
/// account stays as it is. The caller stores the envelope's snapshot under the
/// returned account.
pub fn import_account(
    cfg: &mut AppConfig,
    envelope: &AccountExport,
    new_id: String,
    now: String,
) -> (r: Result<Account, String>)
    ensures
        match import_refusal(*envelope) {
            Some(msg) => err_view(r) == Err::<Account, Seq<char>>(msg) && *final(cfg) == *old(cfg),
            None => match old(cfg).active.env_id {
                None => err_view(r) == Err::<Account, Seq<char>>("No active environment"@)
                    && *final(cfg) == *old(cfg),
                Some(env) => (r matches Ok(a) && import_applied(
                    *old(cfg),
                    *final(cfg),
                    env@,
                    *envelope,
                    new_id@,
                    now@,
                    a,
                )),
            },
        },
        r matches Ok(a) ==> opt_view(old(cfg).active.env_id) == Some(a.env_id@) && (
        envelope.name matches Some(n) ==> a.name@ == n@),
{
    match check_import_envelope(envelope) {
        Ok(()) => {},
        Err(e) => return Err(e),
    }
    let env_id = match &cfg.active.env_id {
        Some(env_id) => env_id.clone(),
        None => return Err(owned("No active environment")),
    };
    let email = match &envelope.email {
        Some(e) => Some(e.clone()),
        None => email_from_snapshot(&envelope.snapshot),
    };
    match &email {
        Some(e) => {
            let found = position_of_login(&cfg.accounts, &env_id, e);
            proof {
                lemma_search_is_first(cfg.accounts@, |a: Account| same_login(a, env_id@, e@), found);
            }
            match found {
                Some(i) => {
                    let mut account = cfg.accounts[i].clone();
                    account.updated_at = now;
                    account.pending_login = false;
                    match &envelope.name {
                        Some(n) => account.name = n.clone(),
                        None => {},
                    }
                    let out = account.clone();
                    cfg.accounts.set(i, account);
                    return Ok(out);
                },
                None => {},
            }
        },
        None => {},
    }
    let account_name = match &envelope.name {
        Some(n) => n.clone(),
        None => match display_name_from_snapshot(&envelope.snapshot) {
            Some(d) => d,
            None => match &email {
                Some(e) => e.clone(),
                None => owned("Imported account"),
            },
        },
    };
    let account = Account {
        id: new_id,
        env_id,
        name: account_name,
        email,
        updated_at: now,
        pending_login: false,
    };
    let out = account.clone();
    cfg.accounts.push(account);
    Ok(out)
}

/// `x` is the export of `account` with its stored `snapshot`, taken at `now`.
pub open spec fn exported(x: AccountExport, account: Account, snapshot: AuthSnapshot, now: String) -> bool {
    &&& x.version == 1
    &&& x.exported_at == now
    &&& opt_view(x.email) == or_else(opt_view(account.email), snapshot_email(snapshot))
    &&& x.name == Some(account.name)
    &&& x.snapshot == snapshot
}

/// Package an account and its stored snapshot for export, taken at `now`.
pub fn export_account(account: &Account, snapshot: AuthSnapshot, now: String) -> (r: Result<
    AccountExport,
    String,
>)
    ensures
        !holds_login(snapshot) ==> err_view(r) == Err::<AccountExport, Seq<char>>(
            "Account snapshot has no login tokens"@,
        ),
        holds_login(snapshot) ==> (r matches Ok(x) && exported(x, *account, snapshot, now)),
{
    if !has_login_tokens(&snapshot) {
        return Err(owned("Account snapshot has no login tokens"));
    }
    let email = match &account.email {
        Some(e) => Some(e.clone()),
        None => email_from_snapshot(&snapshot),
    };
    Ok(AccountExport { version: 1, exported_at: now, email, name: Some(account.name.clone()), snapshot })
}

/// The account whose live login a switch saves first: the active account, where
/// it is another account than the target and is not pending login.
pub open spec fn previous_login(cfg: AppConfig, target: Account) -> Option<Account> {
    match cfg.active.account_id {
        Some(prev) => if prev@ != target.id@ {
            match first_index(cfg.accounts@, |a: Account| a.id@ == prev@) {
                Some(i) => if !cfg.accounts@[i].pending_login {
                    Some(cfg.accounts@[i])
                } else {
                    None
                },
                None => None,
            }
        } else {
            None
        },
        None => None,
    }
}

/// A switch to `account`; first save the live login onto `previous`, if any.
#[derive(Debug)]
pub struct SwitchPlan {
    pub account: Account,
    pub previous: Option<Account>,
}

/// Choose the account that `query` names as the switch target.
pub fn plan_switch(cfg: &AppConfig, query: &str) -> (r: Result<SwitchPlan, String>)
    ensures
        match find_outcome(cfg.accounts@, query@) {
            Err(msg) => err_view(r) == Err::<SwitchPlan, Seq<char>>(msg),
            Ok(a) => if a.pending_login {
                err_view(r) == Err::<SwitchPlan, Seq<char>>("Account is still pending login"@)
            } else {
                r matches Ok(p) && p.account == a && p.previous == previous_login(*cfg, a)
            },
        },
{
    let i = match find_account_index(cfg, query) {
        Ok(i) => i,
        Err(e) => return Err(e),
    };
    let account = cfg.accounts[i].clone();
    if account.pending_login {
        return Err(owned("Account is still pending login"));
    }
    let mut previous: Option<Account> = None;
    match &cfg.active.account_id {
        Some(prev_id) => if *prev_id != account.id {
            let found = position_of_id(&cfg.accounts, prev_id);
            proof {
                lemma_search_is_first(cfg.accounts@, |a: Account| a.id@ == prev_id@, found);
            }
            match found {
                Some(k) => if !cfg.accounts[k].pending_login {
                    previous = Some(cfg.accounts[k].clone());
                },
                None => {},
            }
        },
        None => {},
    }
    Ok(SwitchPlan { account, previous })
}

/// The account that the live login `live` is saved onto before a switch: the
/// plan's previous account, where `live` holds a login.
pub fn live_login_owner<'a>(plan: &'a SwitchPlan, live: &AuthSnapshot) -> (r: Option<&'a Account>)
    ensures
        r is Some <==> (holds_login(*live) && plan.previous is Some),
        r matches Some(a) ==> plan.previous == Some(*a),
{
    if !has_login_tokens(live) {
        return None;
    }
    match &plan.previous {
        Some(p) => Some(p),
        None => None,
    }
}

/// A switch to `account` turned `before` into `after`: it and its environment
/// are active, and nothing else changed.
pub open spec fn switch_applied(before: AppConfig, after: AppConfig, account: Account) -> bool {
    &&& after.environments == before.environments
    &&& after.accounts == before.accounts
    &&& after.cursor_app_path == before.cursor_app_path
    &&& after.active.env_id == Some(account.env_id)
    &&& after.active.account_id == Some(account.id)
}

/// Make `account` active, given the snapshot stored for it.
pub fn switch_account(cfg: &mut AppConfig, account: &Account, snap: &AuthSnapshot) -> (r: Result<
    Account,
    String,
>)
    ensures
        !holds_login(*snap) ==> err_view(r) == Err::<Account, Seq<char>>(
            "Account snapshot has no login tokens"@,
        ) && *final(cfg) == *old(cfg),
        holds_login(*snap) ==> r == Ok::<Account, String>(*account) && switch_applied(
            *old(cfg),
            *final(cfg),
            *account,
        ),
{
    if !has_login_tokens(snap) {
        return Err(owned("Account snapshot has no login tokens"));
    }
    cfg.active.env_id = Some(account.env_id.clone());
    cfg.active.account_id = Some(account.id.clone());
    Ok(account.clone())
}


/// What the Agent CLI login needs after an account is removed.
#[derive(Debug)]
pub enum CliAuthFollowUp {
    /// The removed account was not active: leave the CLI login alone.
    Keep,
    /// Sync the CLI from the snapshot of the account that is now active.
    SyncFrom { env_id: String, account_id: String },
    /// No account of the environment is left: clear the CLI login.
    Clear,
}

/// The outcome of a removal: the removed account and what the CLI login needs.
#[derive(Debug)]
pub struct Removal {
    pub account: Account,
    pub cli_auth: CliAuthFollowUp,
}

/// The accounts that remain after removing every account with id `id`.
pub open spec fn without_id(accounts: Seq<Account>, id: Seq<char>) -> Seq<Account> {
    accounts.filter(|a: Account| a.id@ != id)
}

/// Removing account `a` turned `before` into `after`: every account with its
/// id is gone; where it was active, the first remaining account of its
/// environment is active instead (none where there is none), and `follow_up`
/// says how the CLI login follows.
pub open spec fn removal_applied(before: AppConfig, after: AppConfig, a: Account, follow_up: CliAuthFollowUp) -> bool {
    let remaining = after.accounts@;
    &&& remaining == without_id(before.accounts@, a.id@)
    &&& same_but_accounts(before, after)
    &&& if opt_view(before.active.account_id) == Some(a.id@) {
        match first_index(remaining, |x: Account| x.env_id@ == a.env_id@) {
            Some(i) => {
                &&& after.active.account_id == Some(remaining[i].id)
                &&& (follow_up matches CliAuthFollowUp::SyncFrom { env_id, account_id } && env_id@
                    == a.env_id@ && account_id == remaining[i].id)
            },
            None => after.active.account_id is None && follow_up is Clear,
        }
    } else {
        after.active.account_id == before.active.account_id && follow_up is Keep
    }
}

/// A copy of the accounts without those whose id is `id`.
fn accounts_without(accounts: &Vec<Account>, id: &String) -> (r: Vec<Account>)
    ensures
        r@ == without_id(accounts@, id@),
{
    let ghost pred = |a: Account| a.id@ != id@;
    let mut kept: Vec<Account> = Vec::new();
    let mut i: usize = 0;
    assert(accounts@.take(0).filter(pred) == Seq::<Account>::empty()) by {
        reveal_with_fuel(Seq::<_>::filter, 1);
    }
    while i < accounts.len()
        invariant
            i <= accounts@.len(),
            pred == (|a: Account| a.id@ != id@),
            kept@ == accounts@.take(i as int).filter(pred),
        decreases accounts@.len() - i,
    {
        assert(accounts@.take(i + 1).drop_last() == accounts@.take(i as int));
        assert(accounts@.take(i + 1).last() == accounts@[i as int]);
        assert(accounts@.take(i + 1).filter(pred) == if pred(accounts@[i as int]) {
            accounts@.take(i as int).filter(pred).push(accounts@[i as int])
        } else {
            accounts@.take(i as int).filter(pred)
        }) by {
            reveal_with_fuel(Seq::<_>::filter, 1);
        }
        if accounts[i].id != *id {
            kept.push(accounts[i].clone());
        }
        i = i + 1;
    }
    assert(accounts@.take(accounts@.len() as int) == accounts@);
    kept
}

/// Remove the account that `query` names, with every account sharing its id.
/// When it was active, the first remaining account of its environment
/// becomes active. The caller deletes the removed account's snapshot.
pub fn remove_account(cfg: &mut AppConfig, query: &str) -> (r: Result<Removal, String>)
    ensures
        match find_outcome(old(cfg).accounts@, query@) {
            Err(msg) => err_view(r) == Err::<Removal, Seq<char>>(msg) && *final(cfg) == *old(cfg),
            Ok(a) => (r matches Ok(rm) && rm.account == a && removal_applied(*old(cfg), *final(cfg), a, rm.cli_auth)),
        },
{
    let i = match find_account_index(cfg, query) {
        Ok(i) => i,
        Err(e) => return Err(e),
    };
    let account = cfg.accounts[i].clone();
    let was_active = match &cfg.active.account_id {
        Some(active) => *active == account.id,
        None => false,
    };
    cfg.accounts = accounts_without(&cfg.accounts, &account.id);
    if !was_active {
        return Ok(Removal { account, cli_auth: CliAuthFollowUp::Keep });
    }
    let next = position_in_env(&cfg.accounts, &account.env_id);
    proof {
        lemma_search_is_first(cfg.accounts@, |x: Account| x.env_id@ == account.env_id@, next);
    }
    match next {
        Some(k) => {
            let next_id = cfg.accounts[k].id.clone();
            cfg.active.account_id = Some(next_id.clone());
            let env_id = account.env_id.clone();
            Ok(Removal { account, cli_auth: CliAuthFollowUp::SyncFrom { env_id, account_id: next_id } })
        },
        None => {
            cfg.active.account_id = None;
            Ok(Removal { account, cli_auth: CliAuthFollowUp::Clear })
        },
    }
}

/// `after` is `before` with a "Default" environment `id` added and active.
pub open spec fn default_environment_added(before: AppConfig, after: AppConfig, id: String, created_at: String) -> bool {
    &&& after.environments@ == before.environments@.push(
        Environment { id, name: after.environments@.last().name, created_at },
    )
    &&& after.environments@.last().name@ == "Default"@
    &&& after.active.env_id == Some(id)
    &&& after.active.account_id == before.active.account_id
    &&& after.accounts == before.accounts
    &&& after.cursor_app_path == before.cursor_app_path
}

/// On a configuration without environments, add a "Default" environment with
/// id `id` and make it active. Returns whether it was added.
pub fn ensure_default_environment(cfg: &mut AppConfig, id: String, created_at: String) -> (added: bool)
    ensures
        added == (old(cfg).environments@.len() == 0),
        added ==> default_environment_added(*old(cfg), *final(cfg), id, created_at),
        !added ==> *final(cfg) == *old(cfg),
{
    if cfg.environments.len() != 0 {
        return false;
    }
    cfg.environments.push(Environment { id: id.clone(), name: owned("Default"), created_at });
    cfg.active.env_id = Some(id);
    true
}

/// `after` is `before` with its first environment active (none where it has none).
pub open spec fn first_environment_selected(before: AppConfig, after: AppConfig) -> bool {
    &&& after.active.env_id == if before.environments@.len() > 0 {
        Some(before.environments@[0].id)
    } else {
        None
    }
    &&& after.active.account_id == before.active.account_id
    &&& after.environments == before.environments
    &&& after.accounts == before.accounts
    &&& after.cursor_app_path == before.cursor_app_path
}

/// Where no environment is active, make the first one active (none where
/// there is none). Returns whether the selection was unset.
pub fn select_default_environment(cfg: &mut AppConfig) -> (changed: bool)
    ensures
        changed == (old(cfg).active.env_id is None),
        changed ==> first_environment_selected(*old(cfg), *final(cfg)),
        !changed ==> *final(cfg) == *old(cfg),
{
    if cfg.active.env_id.is_some() {
        return false;
    }
    if cfg.environments.len() > 0 {
        cfg.active.env_id = Some(cfg.environments[0].id.clone());
    }
    true
}

/// Whether any account belongs to the environment.
pub fn environment_has_accounts(cfg: &AppConfig, env_id: &String) -> (r: bool)
    ensures
        r == exists|i: int| 0 <= i < cfg.accounts@.len() && (#[trigger] cfg.accounts@[i]).env_id@ == env_id@,
{
    position_in_env(&cfg.accounts, env_id).is_some()
}

/// Adopt the live login `snap` as an account of `env_id` with id `account_id`
/// and make it active; nothing happens where `snap` holds no login. The
/// caller stores `snap` under the returned account.
pub fn adopt_live_account(
    cfg: &mut AppConfig,
    env_id: String,
    account_id: String,
    snap: &AuthSnapshot,
    now: String,
) -> (r: Option<Account>)
    ensures
        !holds_login(*snap) ==> r is None && *final(cfg) == *old(cfg),
        holds_login(*snap) ==> (r matches Some(a) && {
            &&& fresh_account(
                a,
                account_id@,
                env_id@,
                unwrap_or(snapshot_display_name(*snap), "Signed-in account"@),
                snapshot_email(*snap),
                now@,
            )
            &&& final(cfg).accounts@ == old(cfg).accounts@.push(a)
            &&& final(cfg).active.account_id == Some(a.id)
            &&& same_but_accounts(*old(cfg), *final(cfg))
        }),
{
    if !has_login_tokens(snap) {
        return None;
    }
    let name = match display_name_from_snapshot(snap) {
        Some(d) => d,
        None => owned("Signed-in account"),
    };
    let account = Account {
        id: account_id,
        env_id,
        name,
        email: email_from_snapshot(snap),
        updated_at: now,
        pending_login: false,
    };
    let out = account.clone();
    cfg.active.account_id = Some(account.id.clone());
    cfg.accounts.push(account);
    Some(out)
}

/// The active account: the first account with the active account id.
pub fn active_account(cfg: &AppConfig) -> (r: Option<&Account>)
    ensures
        match cfg.active.account_id {
            Some(id) => match first_index(cfg.accounts@, |a: Account| a.id@ == id@) {
                Some(i) => r == Some(&cfg.accounts@[i]),
                None => r is None,
            },
            None => r is None,
        },
{
    match &cfg.active.account_id {
        Some(id) => {
            let found = position_of_id(&cfg.accounts, id);
            proof {
                lemma_search_is_first(cfg.accounts@, |a: Account| a.id@ == id@, found);
            }
            match found {
                Some(i) => Some(&cfg.accounts[i]),
                None => None,
            }
        },
        None => None,
    }
}

} // verus!
