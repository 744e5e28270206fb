//! The e-mail address that `cursor-agent about` reports.

use vstd::prelude::*;

use crate::json::has_prefix;
use crate::command::CommandOutcome;
use crate::config::opt_view;
use crate::snapshot::non_empty;
use crate::text::{chars_of, string_from_chars, trim, trimmed};

verus! {

/// The lines of `s`: its pieces between newline characters.
pub open spec fn split_lines(s: Seq<char>) -> Seq<Seq<char>>
    decreases s.len(),
{
    if s.len() == 0 {
        seq![Seq::<char>::empty()]
    } else {
        let prev = split_lines(s.drop_last());
        if s.last() == '\n' {
            prev.push(Seq::<char>::empty())
        } else {
            prev.update(prev.len() - 1, prev.last().push(s.last()))
        }
    }
}

/// `s` without its leading colons.
pub open spec fn drop_colons(s: Seq<char>) -> Seq<char>
    decreases s.len(),
{
    if s.len() > 0 && s[0] == ':' {
        drop_colons(s.drop_first())
    } else {
        s
    }
}

/// The address on a `User Email: ...` line, where it is not empty.
pub open spec fn line_email(line: Seq<char>) -> Option<Seq<char>> {
    let t = trimmed(line);
    let label = "User Email"@;
    if has_prefix(t, label) {
        non_empty(Some(trimmed(drop_colons(trimmed(t.skip(label.len() as int))))))
    } else {
        None
    }
}

/// The address on the first line of `text` that carries one.
pub open spec fn reported_email(text: Seq<char>) -> Option<Seq<char>> {
    let lines = split_lines(text);
    if exists|k: int| 0 <= k < lines.len() && #[trigger] line_email(lines[k]) is Some {
        let k = choose|k: int|
            0 <= k < lines.len() && #[trigger] line_email(lines[k]) is Some && forall|j: int|
                0 <= j < k ==> line_email(#[trigger] lines[j]) is None;
        line_email(lines[k])
    } else {
        None
    }
}

proof fn lemma_split_lines_nonempty(s: Seq<char>)
    ensures
        split_lines(s).len() >= 1,
    decreases s.len(),
{
    if s.len() > 0 {
        lemma_split_lines_nonempty(s.drop_last());
    }
}

/// Lines completed in a prefix stay lines of the whole text.
proof fn lemma_split_lines_prefix(s: Seq<char>, i: int)
    requires
        0 <= i <= s.len(),
    ensures
        split_lines(s.take(i)).len() <= split_lines(s).len(),
        forall|k: int|
            0 <= k < split_lines(s.take(i)).len() - 1 ==> #[trigger] split_lines(s)[k] == split_lines(
                s.take(i),
            )[k],
    decreases s.len() - i,
{
    lemma_split_lines_nonempty(s.take(i));
    if i < s.len() {
        lemma_split_lines_prefix(s, i + 1);
        assert(s.take(i + 1).drop_last() == s.take(i));
        lemma_split_lines_nonempty(s.take(i + 1));
    } else {
        assert(s.take(i) == s);
    }
}

/// The address after a `User Email` label.
fn email_of_line(line: &Vec<char>) -> (r: Option<String>)
    ensures
        opt_view(r) == line_email(line@),
{
    let text = string_from_chars(line, 0, line.len());
    assert(line@.subrange(0, line@.len() as int) == line@);
    let t = chars_of(trim(text.as_str()).as_str());
    let label = chars_of("User Email");
    if t.len() < label.len() {
        return None;
    }
    let mut k: usize = 0;
    while k < label.len()
        invariant
            t@ == trimmed(line@),
            label@ == "User Email"@,
            k <= label@.len() <= t@.len(),
            forall|j: int| 0 <= j < k ==> t@[j] == #[trigger] label@[j],
        decreases label@.len() - k,
    {
        if t[k] != label[k] {
            assert(t@.subrange(0, label@.len() as int)[k as int] != label@[k as int]);
            return None;
        }
        k = k + 1;
    }
    assert(t@.subrange(0, label@.len() as int) =~= label@);
    let rest = string_from_chars(&t, label.len(), t.len());
    assert(t@.subrange(label@.len() as int, t@.len() as int) == t@.skip(label@.len() as int));
    let r = chars_of(trim(rest.as_str()).as_str());
    let mut c: usize = 0;
    assert(r@.skip(0) == r@);
    while c < r.len() && r[c] == ':'
        invariant
            c <= r@.len(),
            drop_colons(r@) == drop_colons(r@.skip(c as int)),
        decreases r@.len() - c,
    {
        assert(r@.skip(c as int).drop_first() == r@.skip(c + 1));
        c = c + 1;
    }
    assert(drop_colons(r@.skip(c as int)) == r@.skip(c as int)) by {
        if c < r@.len() {
            assert(r@.skip(c as int)[0] == r@[c as int]);
        }
    }
    let stripped = string_from_chars(&r, c, r.len());
    assert(r@.subrange(c as int, r@.len() as int) == r@.skip(c as int));
    let email = trim(stripped.as_str());
    if email.as_str().is_empty() {
        None
    } else {
        Some(email)
    }
}

/// The e-mail address that `cursor-agent about` printed on a `User Email`
/// line, where the command succeeded.
pub fn agent_about_email(about: &CommandOutcome) -> (r: Option<String>)
    ensures
        !about.success ==> r is None,
        about.success ==> opt_view(r) == reported_email(about.stdout@),
{
    if !about.success {
        return None;
    }
    let s = chars_of(about.stdout.as_str());
    let ghost text = about.stdout@;
    let mut line: Vec<char> = Vec::new();
    let mut i: usize = 0;
    assert(text.take(0) == Seq::<char>::empty());
    while i < s.len()
        invariant
            about.success,
            text == about.stdout@,
            s@ == text,
            i <= s@.len(),
            split_lines(text.take(i as int)).len() >= 1,
            line@ == split_lines(text.take(i as int)).last(),
            forall|j: int|
                0 <= j < split_lines(text.take(i as int)).len() - 1 ==> line_email(
                    #[trigger] split_lines(text.take(i as int))[j],
                ) is None,
        decreases s@.len() - i,
    {
        let ghost before = split_lines(text.take(i as int));
        assert(text.take(i + 1).drop_last() == text.take(i as int));
        assert(text.take(i + 1).last() == text[i as int]);
        if s[i] == '\n' {
            let found = email_of_line(&line);
            if found.is_some() {
                proof {
                    lemma_split_lines_prefix(text, i + 1);
                    let lines = split_lines(text);
                    let k = before.len() - 1;
                    assert(lines[k] == split_lines(text.take(i + 1))[k]);
                    assert(line_email(lines[k]) is Some);
                    let c = choose|c: int|
                        0 <= c < lines.len() && #[trigger] line_email(lines[c]) is Some && forall|
                            j: int,
                        | 0 <= j < c ==> line_email(#[trigger] lines[j]) is None;
                    assert forall|j: int| 0 <= j < k implies line_email(#[trigger] lines[j]) is None by {
                        assert(lines[j] == split_lines(text.take(i + 1))[j]);
                    }
                    if c < k {
                        assert(lines[c] == split_lines(text.take(i + 1))[c]);
                    }
                    if c > k {
                        assert(line_email(lines[k]) is None);
                    }
                }
                return found;
            }
            line = Vec::new();
        } else {
            line.push(s[i]);
        }
        i = i + 1;
    }
    assert(text.take(i as int) == text);
    let found = email_of_line(&line);
    proof {
        let lines = split_lines(text);
        let k = lines.len() - 1;
        if found.is_some() {
            let c = choose|c: int|
                0 <= c < lines.len() && #[trigger] line_email(lines[c]) is Some && forall|j: int|
                    0 <= j < c ==> line_email(#[trigger] lines[j]) is None;
            if c < k {
                assert(line_email(lines[c]) is None);
            }
            if c > k {
                assert(line_email(lines[k]) is None);
            }
        } else {
            assert forall|c: int| 0 <= c < lines.len() implies !(#[trigger] line_email(lines[c]) is Some) by {
                if c < k {
                }
            }
        }
    }
    found
}

} // verus!
