//! Properties that span several operations.

use vstd::prelude::*;

use crate::accounts::{
    account_matches, capture_applied, default_environment_added, exported, find_outcome,
    first_environment_selected, first_index, import_applied, import_email, import_refusal,
    lemma_first_index, matching_accounts, or_else, previous_login, removal_applied, same_login,
    switch_applied, AccountExport, CliAuthFollowUp,
};
use crate::config::{opt_view, Account, AppConfig};
use crate::snapshot::{
    access_token_key, built_from_tokens, holds_login, non_empty, refresh_token_key,
    snapshot_display_name, snapshot_email, AuthSnapshot,
};
use crate::text::{contains, eq_ignore_ascii_case, lemma_trimmed_idempotent, lowercase, trimmed};

verus! {

/// The account that a lookup finds matches the query and is one of the accounts.
pub proof fn law_found_account_matches(accounts: Seq<Account>, query: Seq<char>)
    ensures
        find_outcome(accounts, query) matches Ok(a) ==> account_matches(a, trimmed(query))
            && accounts.contains(a),
{
    let q = trimmed(query);
    let pred = |a: Account| account_matches(a, q);
    if find_outcome(accounts, query) is Ok {
        let found = matching_accounts(accounts, q);
        assert(found == accounts.filter(pred));
        accounts.lemma_filter_pred(pred, 0);
        lemma_filter_member(accounts, pred, 0);
    }
}

/// A lookup trims its query: surrounding white space never changes the outcome.
pub proof fn law_find_ignores_surrounding_space(accounts: Seq<Account>, query: Seq<char>)
    ensures
        find_outcome(accounts, trimmed(query)) == find_outcome(accounts, query),
{
    lemma_trimmed_idempotent(query);
}

/// Filtering keeps each matching element as often as it occurs, and no other.
proof fn lemma_filter_counts(s: Seq<Account>, pred: spec_fn(Account) -> bool, x: Account)
    ensures
        s.filter(pred).to_multiset().count(x) == if pred(x) {
            s.to_multiset().count(x)
        } else {
            0
        },
    decreases s.len(),
{
    broadcast use vstd::seq_lib::group_to_multiset_ensures;

    reveal_with_fuel(Seq::<_>::filter, 1);
    if s.len() > 0 {
        lemma_filter_counts(s.drop_last(), pred, x);
        assert(s == s.drop_last().push(s.last()));
    } else {
        assert(s.filter(pred) == s);
    }
}

/// The order of the accounts never changes whether a lookup finds an account,
/// nor which account it finds.
pub proof fn law_find_ignores_order(a1: Seq<Account>, a2: Seq<Account>, query: Seq<char>)
    requires
        a1.to_multiset() == a2.to_multiset(),
    ensures
        find_outcome(a1, query) is Ok <==> find_outcome(a2, query) is Ok,
        find_outcome(a1, query) matches Ok(x) ==> find_outcome(a2, query) == Ok::<Account, Seq<char>>(x),
{
    broadcast use vstd::seq_lib::group_to_multiset_ensures;

    let q = trimmed(query);
    let pred = |a: Account| account_matches(a, q);
    let f1 = a1.filter(pred);
    let f2 = a2.filter(pred);
    assert forall|x: Account| #[trigger] f1.to_multiset().count(x) == f2.to_multiset().count(x) by {
        lemma_filter_counts(a1, pred, x);
        lemma_filter_counts(a2, pred, x);
    }
    assert(f1.to_multiset() =~= f2.to_multiset());
    assert(f1.to_multiset().len() == f1.len());
    assert(f2.to_multiset().len() == f2.len());
    assert(f1.len() == f2.len());
    assert(f1 == matching_accounts(a1, q));
    assert(f2 == matching_accounts(a2, q));
    if f1.len() == 1 {
        assert(f1.contains(f1[0]));
        assert(f2.to_multiset().count(f1[0]) > 0);
        assert(f2.contains(f1[0]));
    }
}

/// Every element of a filtered sequence is an element of the sequence.
proof fn lemma_filter_member(s: Seq<Account>, pred: spec_fn(Account) -> bool, k: int)
    requires
        0 <= k < s.filter(pred).len(),
    ensures
        s.contains(s.filter(pred)[k]),
    decreases s.len(),
{
    reveal_with_fuel(Seq::<_>::filter, 1);
    let rest = s.drop_last().filter(pred);
    if s.len() > 0 {
        if k < rest.len() {
            lemma_filter_member(s.drop_last(), pred, k);
            let j = choose|j: int| 0 <= j < s.drop_last().len() && s.drop_last()[j] == rest[k];
            assert(s[j] == rest[k]);
        } else {
            assert(s[s.len() - 1] == s.filter(pred)[k]);
        }
    }
}

/// An account matches a query when its id is the query, when its name or
/// e-mail address equals the query ignoring ASCII case, or when the query,
/// lower-cased, occurs in its lower-cased e-mail address or name; in no other
/// case.
pub proof fn law_match_criteria(a: Account, q: Seq<char>)
    ensures
        a.id@ == q ==> account_matches(a, q),
        eq_ignore_ascii_case(a.name@, q) ==> account_matches(a, q),
        a.email matches Some(e) && eq_ignore_ascii_case(e@, q) ==> account_matches(a, q),
        a.email matches Some(e) && contains(lowercase(e@), lowercase(q)) ==> account_matches(a, q),
        contains(lowercase(a.name@), lowercase(q)) ==> account_matches(a, q),
        account_matches(a, q) ==> {
            ||| a.id@ == q
            ||| eq_ignore_ascii_case(a.name@, q)
            ||| (a.email matches Some(e) && (eq_ignore_ascii_case(e@, q) || contains(lowercase(e@), lowercase(q))))
            ||| contains(lowercase(a.name@), lowercase(q))
        },
{
}

/// Filtering a sequence in which no element satisfies `pred` leaves nothing.
proof fn lemma_filter_none(s: Seq<Account>, pred: spec_fn(Account) -> bool)
    requires
        forall|j: int| 0 <= j < s.len() ==> !pred(#[trigger] s[j]),
    ensures
        s.filter(pred) == Seq::<Account>::empty(),
    decreases s.len(),
{
    reveal_with_fuel(Seq::<_>::filter, 1);
    if s.len() > 0 {
        assert(!pred(s[s.len() - 1]));
        assert forall|j: int| 0 <= j < s.drop_last().len() implies !pred(#[trigger] s.drop_last()[j]) by {
            assert(s.drop_last()[j] == s[j]);
        }
        lemma_filter_none(s.drop_last(), pred);
    }
}

/// Filtering a sequence in which only position `i` satisfies `pred` leaves
/// that element alone.
proof fn lemma_filter_single(s: Seq<Account>, pred: spec_fn(Account) -> bool, i: int)
    requires
        0 <= i < s.len(),
        pred(s[i]),
        forall|j: int| 0 <= j < s.len() && j != i ==> !pred(#[trigger] s[j]),
    ensures
        s.filter(pred) == seq![s[i]],
    decreases s.len(),
{
    reveal_with_fuel(Seq::<_>::filter, 1);
    let rest = s.drop_last();
    if i == s.len() - 1 {
        assert forall|j: int| 0 <= j < rest.len() implies !pred(#[trigger] rest[j]) by {
            assert(rest[j] == s[j]);
        }
        lemma_filter_none(rest, pred);
        assert(s.filter(pred) == Seq::<Account>::empty().push(s[i]));
    } else {
        assert(!pred(s[s.len() - 1]));
        assert forall|j: int| 0 <= j < rest.len() && j != i implies !pred(#[trigger] rest[j]) by {
            assert(rest[j] == s[j]);
        }
        assert(rest[i] == s[i]);
        lemma_filter_single(rest, pred, i);
    }
}

/// A lookup whose (trimmed, non-empty) query matches exactly one account
/// gives that account.
pub proof fn law_unique_match_is_found(accounts: Seq<Account>, query: Seq<char>, i: int)
    requires
        trimmed(query).len() > 0,
        0 <= i < accounts.len(),
        account_matches(accounts[i], trimmed(query)),
        forall|j: int| 0 <= j < accounts.len() && j != i ==> !account_matches(#[trigger] accounts[j], trimmed(query)),
    ensures
        find_outcome(accounts, query) == Ok::<Account, Seq<char>>(accounts[i]),
{
    let q = trimmed(query);
    let pred = |a: Account| account_matches(a, q);
    lemma_filter_single(accounts, pred, i);
    assert(matching_accounts(accounts, q) == seq![accounts[i]]);
}

/// A lookup whose query, lower-cased, occurs in one account's lower-cased
/// e-mail address, and matches no other account, gives that account.
pub proof fn law_email_substring_finds_account(accounts: Seq<Account>, query: Seq<char>, i: int, e: String)
    requires
        trimmed(query).len() > 0,
        0 <= i < accounts.len(),
        accounts[i].email == Some(e),
        contains(lowercase(e@), lowercase(trimmed(query))),
        forall|j: int| 0 <= j < accounts.len() && j != i ==> !account_matches(#[trigger] accounts[j], trimmed(query)),
    ensures
        find_outcome(accounts, query) == Ok::<Account, Seq<char>>(accounts[i]),
{
    law_match_criteria(accounts[i], trimmed(query));
    law_unique_match_is_found(accounts, query, i);
}

/// A lookup whose (trimmed, non-empty) query matches no account says so.
pub proof fn law_no_match_is_reported(accounts: Seq<Account>, query: Seq<char>)
    requires
        trimmed(query).len() > 0,
        forall|j: int| 0 <= j < accounts.len() ==> !account_matches(#[trigger] accounts[j], trimmed(query)),
    ensures
        find_outcome(accounts, query) == Err::<Account, Seq<char>>(
            "No account matches \""@ + trimmed(query) + "\""@,
        ),
{
    let q = trimmed(query);
    lemma_filter_none(accounts, |a: Account| account_matches(a, q));
}

/// Filtering keeps at least two elements where two positions satisfy `pred`.
proof fn lemma_filter_two(s: Seq<Account>, pred: spec_fn(Account) -> bool, i: int, j: int)
    requires
        0 <= i < j < s.len(),
        pred(s[i]),
        pred(s[j]),
    ensures
        s.filter(pred).len() >= 2,
    decreases s.len(),
{
    reveal_with_fuel(Seq::<_>::filter, 1);
    let rest = s.drop_last();
    assert(rest[i] == s[i]);
    if j == s.len() - 1 {
        rest.lemma_filter_contains(pred, i);
    } else {
        assert(rest[j] == s[j]);
        lemma_filter_two(rest, pred, i, j);
    }
}

/// A lookup that gives an account gives the only account that matches the
/// query; a query that matches two accounts is refused.
pub proof fn law_found_is_only_match(accounts: Seq<Account>, query: Seq<char>)
    ensures
        find_outcome(accounts, query) matches Ok(x) ==> exists|i: int|
            0 <= i < accounts.len() && #[trigger] accounts[i] == x && forall|j: int|
                0 <= j < accounts.len() && j != i ==> !account_matches(#[trigger] accounts[j], trimmed(query)),
        (exists|i: int, j: int|
            0 <= i < j < accounts.len() && account_matches(#[trigger] accounts[i], trimmed(query))
                && account_matches(#[trigger] accounts[j], trimmed(query))) ==> find_outcome(accounts, query) is Err,
        trimmed(query).len() == 0 ==> find_outcome(accounts, query) == Err::<Account, Seq<char>>(
            "Account query is empty"@,
        ),
{
    let q = trimmed(query);
    let pred = |a: Account| account_matches(a, q);
    assert(matching_accounts(accounts, q) == accounts.filter(pred));
    if exists|i: int, j: int|
        0 <= i < j < accounts.len() && account_matches(#[trigger] accounts[i], q)
            && account_matches(#[trigger] accounts[j], q) {
        let (i, j) = choose|i: int, j: int|
            0 <= i < j < accounts.len() && account_matches(#[trigger] accounts[i], q)
                && account_matches(#[trigger] accounts[j], q);
        lemma_filter_two(accounts, pred, i, j);
    }
    if find_outcome(accounts, query) is Ok {
        law_found_account_matches(accounts, query);
        let x = find_outcome(accounts, query)->Ok_0;
        let i = choose|i: int| 0 <= i < accounts.len() && accounts[i] == x;
        assert forall|j: int| 0 <= j < accounts.len() && j != i implies !account_matches(#[trigger] accounts[j], q) by {
            if account_matches(accounts[j], q) {
                if i < j {
                    lemma_filter_two(accounts, pred, i, j);
                } else {
                    lemma_filter_two(accounts, pred, j, i);
                }
            }
        }
    }
}

/// An account of `env` filed under `e` makes later lookups of that login find one.
proof fn lemma_login_on_file(accounts: Seq<Account>, k: int, env: Seq<char>, e: Seq<char>)
    requires
        0 <= k < accounts.len(),
        same_login(accounts[k], env, e),
    ensures
        first_index(accounts, |a: Account| same_login(a, env, e)) is Some,
{
    lemma_first_index(accounts, |a: Account| same_login(a, env, e));
}

/// The account that a capture or an import gives carries the filed login.
proof fn lemma_filed_account(before: Seq<Account>, after: Seq<Account>, env: Seq<char>, e: Seq<char>, a: Account, i: Option<int>)
    requires
        match i {
            Some(i) => 0 <= i < before.len() && same_login(before[i], env, e) && a.env_id == before[i].env_id
                && a.email == before[i].email && after == before.update(i, a),
            None => a.env_id@ == env && opt_view(a.email) == Some(e) && after == before.push(a),
        },
    ensures
        first_index(after, |x: Account| same_login(x, env, e)) is Some,
{
    match i {
        Some(i) => {
            assert(same_login(after[i], env, e));
            lemma_login_on_file(after, i, env, e);
        },
        None => {
            assert(same_login(after[after.len() - 1], env, e));
            lemma_login_on_file(after, after.len() - 1, env, e);
        },
    }
}

/// Capturing a login whose e-mail address is already filed in the environment
/// refreshes that account instead of adding one.
pub proof fn law_capture_files_login_once(
    c1: AppConfig,
    c2: AppConfig,
    c3: AppConfig,
    env: Seq<char>,
    name1: Option<Seq<char>>,
    snap1: AuthSnapshot,
    id1: Seq<char>,
    now1: Seq<char>,
    a1: Account,
    name2: Option<Seq<char>>,
    snap2: AuthSnapshot,
    id2: Seq<char>,
    now2: Seq<char>,
    a2: Account,
)
    requires
        capture_applied(c1, c2, env, name1, snap1, id1, now1, a1),
        capture_applied(c2, c3, env, name2, snap2, id2, now2, a2),
        snapshot_email(snap1) is Some,
        snapshot_email(snap2) == snapshot_email(snap1),
    ensures
        c3.accounts@.len() == c2.accounts@.len(),
        a2.id == a1.id,
{
    let e = snapshot_email(snap1).unwrap();
    let pred = |x: Account| same_login(x, env, e);
    lemma_first_index(c1.accounts@, pred);
    lemma_filed_account(c1.accounts@, c2.accounts@, env, e, a1, first_index(c1.accounts@, pred));
    lemma_first_index(c2.accounts@, pred);
    let j = first_index(c2.accounts@, pred).unwrap();
    match first_index(c1.accounts@, pred) {
        Some(i) => {
            if j != i {
                if j < i {
                    assert(c2.accounts@[j] == c1.accounts@[j]);
                } else {
                    assert(pred(c2.accounts@[i]));
                }
            }
        },
        None => {
            if j < c1.accounts@.len() {
                assert(c2.accounts@[j] == c1.accounts@[j]);
            }
        },
    }
}

/// Importing an envelope whose e-mail address is already filed in the
/// environment refreshes that account instead of adding one.
pub proof fn law_import_files_login_once(
    c1: AppConfig,
    c2: AppConfig,
    c3: AppConfig,
    env: Seq<char>,
    x1: AccountExport,
    id1: Seq<char>,
    now1: Seq<char>,
    a1: Account,
    x2: AccountExport,
    id2: Seq<char>,
    now2: Seq<char>,
    a2: Account,
)
    requires
        import_applied(c1, c2, env, x1, id1, now1, a1),
        import_applied(c2, c3, env, x2, id2, now2, a2),
        import_email(x1) is Some,
        import_email(x2) == import_email(x1),
    ensures
        c3.accounts@.len() == c2.accounts@.len(),
        a2.id == a1.id,
{
    let e = import_email(x1).unwrap();
    let pred = |x: Account| same_login(x, env, e);
    lemma_first_index(c1.accounts@, pred);
    lemma_filed_account(c1.accounts@, c2.accounts@, env, e, a1, first_index(c1.accounts@, pred));
    lemma_first_index(c2.accounts@, pred);
    let j = first_index(c2.accounts@, pred).unwrap();
    match first_index(c1.accounts@, pred) {
        Some(i) => {
            if j != i {
                if j < i {
                    assert(c2.accounts@[j] == c1.accounts@[j]);
                } else {
                    assert(pred(c2.accounts@[i]));
                }
            }
        },
        None => {
            if j < c1.accounts@.len() {
                assert(c2.accounts@[j] == c1.accounts@[j]);
            }
        },
    }
}

/// What an export packages, an import accepts, filed under the same e-mail
/// address.
pub proof fn law_export_is_importable(x: AccountExport, account: Account, snapshot: AuthSnapshot, now: String)
    requires
        holds_login(snapshot),
        exported(x, account, snapshot, now),
    ensures
        import_refusal(x) is None,
        import_email(x) == or_else(opt_view(account.email), snapshot_email(snapshot)),
{
}

/// A snapshot built from tokens holds a login exactly when its access token is
/// not empty, reports the e-mail address it was given, and hands its tokens
/// to a sync.
pub proof fn law_built_snapshot_reads_back(
    snap: AuthSnapshot,
    access: Seq<char>,
    refresh: Seq<char>,
    email: Option<Seq<char>>,
    name: Option<Seq<char>>,
)
    requires
        built_from_tokens(snap, access, refresh, email, name),
    ensures
        holds_login(snap) == (access.len() > 0),
        snapshot_email(snap) == non_empty(email),
        snap.value_of(access_token_key()) == Some(access),
        non_empty(snap.value_of(refresh_token_key())) == non_empty(Some(refresh)),
{
}

/// After a removal, no remaining account and not the active selection refers
/// to the removed id, and every account with another id is kept.
pub proof fn law_removed_account_is_gone(before: AppConfig, after: AppConfig, a: Account, follow_up: CliAuthFollowUp)
    requires
        removal_applied(before, after, a, follow_up),
    ensures
        forall|k: int| 0 <= k < after.accounts@.len() ==> (#[trigger] after.accounts@[k]).id@ != a.id@,
        forall|x: Account| before.accounts@.contains(x) && x.id@ != a.id@ ==> #[trigger] after.accounts@.contains(x),
        opt_view(after.active.account_id) != Some(a.id@),
{
    let pred = |x: Account| x.id@ != a.id@;
    assert forall|k: int| 0 <= k < after.accounts@.len() implies (#[trigger] after.accounts@[k]).id@ != a.id@ by {
        before.accounts@.lemma_filter_pred(pred, k);
    }
    assert forall|x: Account| before.accounts@.contains(x) && x.id@ != a.id@ implies #[trigger] after.accounts@.contains(x) by {
        let i = choose|i: int| 0 <= i < before.accounts@.len() && before.accounts@[i] == x;
        before.accounts@.lemma_filter_contains(pred, i);
    }
    if opt_view(before.active.account_id) == Some(a.id@) {
        let remaining = after.accounts@;
        lemma_first_index(remaining, |x: Account| x.env_id@ == a.env_id@);
    }
}

/// After a switch to an account of the configuration, the active selection
/// names an account with its id, in its environment.
pub proof fn law_switch_activates_target(before: AppConfig, after: AppConfig, target: Account)
    requires
        switch_applied(before, after, target),
        before.accounts@.contains(target),
    ensures
        after.active.env_id == Some(target.env_id),
        after.active.account_id matches Some(id) && first_index(after.accounts@, |a: Account| a.id@ == id@) is Some,
{
    let k = choose|k: int| 0 <= k < before.accounts@.len() && before.accounts@[k] == target;
    lemma_first_index(after.accounts@, |a: Account| a.id@ == target.id@);
    assert((|a: Account| a.id@ == target.id@)(after.accounts@[k]));
}

/// The login a switch saves first belongs to another account of the
/// configuration that is not pending login.
pub proof fn law_switch_saves_other_login(cfg: AppConfig, target: Account)
    ensures
        previous_login(cfg, target) matches Some(p) ==> p.id@ != target.id@ && !p.pending_login
            && cfg.accounts@.contains(p),
{
    match cfg.active.account_id {
        Some(prev) => {
            let pred = |a: Account| a.id@ == prev@;
            lemma_first_index(cfg.accounts@, pred);
            match first_index(cfg.accounts@, pred) {
                Some(i) => {
                    assert(cfg.accounts@.contains(cfg.accounts@[i]));
                },
                None => {},
            }
        },
        None => {},
    }
}

/// A capture into `env` gives, and makes active, an account of `env`, named as
/// asked where a name is given; every account of another environment is left
/// as it was, and the account it gives is on file afterwards.
pub proof fn law_capture_stays_in_environment(
    before: AppConfig,
    after: AppConfig,
    env: Seq<char>,
    name: Option<Seq<char>>,
    snap: AuthSnapshot,
    new_id: Seq<char>,
    now: Seq<char>,
    a: Account,
)
    requires
        capture_applied(before, after, env, name, snap, new_id, now, a),
    ensures
        a.env_id@ == env,
        after.active.account_id == Some(a.id),
        name matches Some(n) ==> a.name@ == n,
        name is None ==> (snapshot_display_name(snap) matches Some(d) ==> a.name@ == d),
        opt_view(a.email) == snapshot_email(snap),
        a.updated_at@ == now && !a.pending_login,
        snapshot_email(snap) is None ==> a.id@ == new_id && after.accounts@ == before.accounts@.push(a),
        after.accounts@.contains(a),
        forall|k: int|
            0 <= k < before.accounts@.len() && (#[trigger] before.accounts@[k]).env_id@ != env
                ==> after.accounts@[k] == before.accounts@[k],
{
    match snapshot_email(snap) {
        Some(e) => {
            let filed = |x: Account| same_login(x, env, e);
            lemma_first_index(before.accounts@, filed);
            match first_index(before.accounts@, filed) {
                Some(i) => {
                    assert(after.accounts@[i] == a);
                },
                None => {
                    assert(after.accounts@[after.accounts@.len() - 1] == a);
                },
            }
        },
        None => {
            assert(after.accounts@[after.accounts@.len() - 1] == a);
        },
    }
}

/// An import into `env` gives an account of `env`, named as the envelope says
/// where it names one; every account of another environment is left as it
/// was, and the account it gives is on file afterwards.
pub proof fn law_import_stays_in_environment(
    before: AppConfig,
    after: AppConfig,
    env: Seq<char>,
    x: AccountExport,
    new_id: Seq<char>,
    now: Seq<char>,
    a: Account,
)
    requires
        import_applied(before, after, env, x, new_id, now, a),
    ensures
        a.env_id@ == env,
        after.active == before.active,
        x.name matches Some(n) ==> a.name@ == n@,
        x.email matches Some(e) ==> opt_view(a.email) == Some(e@),
        x.email is None ==> opt_view(a.email) == snapshot_email(x.snapshot),
        a.updated_at@ == now && !a.pending_login,
        after.accounts@.len() == before.accounts@.len() + 1 && x.name is None ==> (
            snapshot_display_name(x.snapshot) matches Some(d) ==> a.name@ == d),
        after.accounts@.len() == before.accounts@.len() + 1 ==> a.id@ == new_id,
        after.accounts@.contains(a),
        forall|k: int|
            0 <= k < before.accounts@.len() && (#[trigger] before.accounts@[k]).env_id@ != env
                ==> after.accounts@[k] == before.accounts@[k],
{
    match import_email(x) {
        Some(e) => {
            let filed = |y: Account| same_login(y, env, e);
            lemma_first_index(before.accounts@, filed);
            match first_index(before.accounts@, filed) {
                Some(i) => {
                    assert(after.accounts@[i] == a);
                },
                None => {
                    assert(after.accounts@[after.accounts@.len() - 1] == a);
                },
            }
        },
        None => {
            assert(after.accounts@[after.accounts@.len() - 1] == a);
        },
    }
}

/// When the active account is removed, the account that becomes active is the
/// first remaining account of the removed account's environment, and the CLI
/// login is synced from it; no account becomes active, and the CLI login is
/// cleared, only where that environment has no account left.
pub proof fn law_removal_reselects_in_environment(
    before: AppConfig,
    after: AppConfig,
    a: Account,
    follow_up: CliAuthFollowUp,
)
    requires
        removal_applied(before, after, a, follow_up),
        opt_view(before.active.account_id) == Some(a.id@),
    ensures
        after.active.account_id matches Some(id) ==> exists|k: int|
            0 <= k < after.accounts@.len() && (#[trigger] after.accounts@[k]).id == id
                && after.accounts@[k].env_id@ == a.env_id@ && forall|j: int|
                0 <= j < k ==> (#[trigger] after.accounts@[j]).env_id@ != a.env_id@,
        after.active.account_id is None <==> forall|k: int|
            0 <= k < after.accounts@.len() ==> (#[trigger] after.accounts@[k]).env_id@ != a.env_id@,
        follow_up matches CliAuthFollowUp::SyncFrom { env_id, account_id } ==> env_id@ == a.env_id@
            && after.active.account_id == Some(account_id),
        follow_up is Clear <==> after.active.account_id is None,
        follow_up !is Keep,
{
    let same_env = |x: Account| x.env_id@ == a.env_id@;
    lemma_first_index(after.accounts@, same_env);
    match first_index(after.accounts@, same_env) {
        Some(i) => {
            assert(same_env(after.accounts@[i]));
        },
        None => {},
    }
}

/// When the active account is another account of the configuration and is not
/// pending login, a switch saves the live login onto it first, whatever its
/// environment.
pub proof fn law_switch_saves_active_login(cfg: AppConfig, target: Account, i: int)
    requires
        0 <= i < cfg.accounts@.len(),
        opt_view(cfg.active.account_id) == Some(cfg.accounts@[i].id@),
        cfg.accounts@[i].id@ != target.id@,
        forall|j: int| 0 <= j < i ==> (#[trigger] cfg.accounts@[j]).id@ != cfg.accounts@[i].id@,
        !cfg.accounts@[i].pending_login,
    ensures
        previous_login(cfg, target) == Some(cfg.accounts@[i]),
{
    let prev = cfg.active.account_id.unwrap();
    let named = |x: Account| x.id@ == prev@;
    lemma_first_index(cfg.accounts@, named);
    match first_index(cfg.accounts@, named) {
        Some(k) => {
            if k < i {
                assert(named(cfg.accounts@[k]));
            }
            if i < k {
                assert(named(cfg.accounts@[i]));
            }
        },
        None => {
            assert(named(cfg.accounts@[i]));
        },
    }
}

/// Bootstrapping leaves an environment, and an active one.
pub proof fn law_bootstrap_selects_environment(
    c0: AppConfig,
    c1: AppConfig,
    c2: AppConfig,
    id: String,
    created_at: String,
)
    requires
        c0.environments@.len() == 0 ==> default_environment_added(c0, c1, id, created_at),
        c0.environments@.len() != 0 ==> c1 == c0,
        c1.active.env_id is None ==> first_environment_selected(c1, c2),
        c1.active.env_id is Some ==> c2 == c1,
    ensures
        c2.environments@.len() > 0,
        c2.active.env_id is Some,
{
}

} // verus!
