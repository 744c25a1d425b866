//! Credentials in a `.env` file.

use crate::error::{ErrorView, NotifyError};
use crate::text::{
    eq_ignore_ascii_case, first_at, is_blank, is_space, law_split_at_first, law_trim_is_idempotent,
    law_trim_removes_the_outer_whitespace, lemma_first_occurrence, lemma_no_split, lemma_split_at,
    lemma_trim_padded, lemma_trimmed_already, lines, lines_of, lower, occurs_at, opt_text,
    split_at_first, split_once, strip_prefix, texts, trim, trimmed, without_prefix,
};
use vstd::prelude::*;
use vstd::string::StrSliceExecFns;

verus! {

/// Whether `s` stands between two quotes `q`.
pub open spec fn quoted_by(s: Seq<char>, q: char) -> bool {
    s.len() >= 2 && s.first() == q && s.last() == q
}

/// `raw` without the whitespace around it, and then without the pair of single
/// or double quotes around it, if there is one.
pub open spec fn unquoted(raw: Seq<char>) -> Seq<char> {
    let s = trimmed(raw);
    if quoted_by(s, '"') || quoted_by(s, '\'') {
        s.subrange(1, s.len() - 1)
    } else {
        s
    }
}

/// `s` up to a comment. A comment starts with a space and a `#`.
pub open spec fn uncommented(s: Seq<char>) -> Seq<char> {
    match split_at_first(s, " #"@) {
        Some((value, _)) => value,
        None => s,
    }
}

/// The value that `raw` stands for on the right of an assignment: unquoted, up
/// to a comment, and trimmed.
pub open spec fn env_value(raw: Seq<char>) -> Seq<char> {
    trimmed(uncommented(unquoted(raw)))
}

/// A line without `export ` in front of it and the whitespace behind that.
pub open spec fn unexported(line: Seq<char>) -> Seq<char> {
    match without_prefix(line, "export "@) {
        Some(rest) => trimmed(rest),
        None => line,
    }
}

/// The key and the value that a line of a `.env` file assigns. Blank lines,
/// lines that start with `#` and lines without `=` assign nothing; `export ` in
/// front of the key is passed over.
pub open spec fn env_entry(line: Seq<char>) -> Option<(Seq<char>, Seq<char>)> {
    let line = trimmed(line);
    if line.len() == 0 || line.first() == '#' {
        None
    } else {
        match split_at_first(unexported(line), "="@) {
            Some((key, value)) => Some((trimmed(key), env_value(value))),
            None => None,
        }
    }
}

/// The value that `line` assigns to `name`, in any ASCII letter case.
pub open spec fn assigned(line: Seq<char>, name: Seq<char>) -> Option<Seq<char>> {
    match env_entry(line) {
        Some((key, value)) => if lower(key) == lower(name) {
            Some(value)
        } else {
            None
        },
        None => None,
    }
}

/// The value of `name` after all `lines`: the last one assigned.
pub open spec fn last_assigned(lines: Seq<Seq<char>>, name: Seq<char>) -> Option<Seq<char>>
    decreases lines.len(),
{
    if lines.len() == 0 {
        None
    } else {
        match assigned(lines.last(), name) {
            Some(value) => Some(value),
            None => last_assigned(lines.drop_last(), name),
        }
    }
}

/// The Pushover token and user key that the text of a `.env` file assigns.
pub open spec fn credentials_in(content: Seq<char>) -> Result<(Seq<char>, Seq<char>), ErrorView> {
    match last_assigned(lines_of(content), "PUSHOVER_TOKEN"@) {
        None => Err(ErrorView::TokenNotFound),
        Some(token) => match last_assigned(lines_of(content), "PUSHOVER_USER_KEY"@) {
            None => Err(ErrorView::UserKeyNotFound),
            Some(user_key) => Ok((token, user_key)),
        },
    }
}

/// The value that `raw` stands for on the right of an assignment.
pub fn parse_env_value(raw: &str) -> (r: String)
    ensures
        r@ == env_value(raw@),
{
    let s = trim(raw);
    let n: usize = s.unicode_len();
    let unquoted_text = if n >= 2 && ((s.get_char(0) == '"' && s.get_char(n - 1) == '"') || (
    s.get_char(0) == '\'' && s.get_char(n - 1) == '\'')) {
        s.substring_char(1, n - 1)
    } else {
        s
    };
    match split_once(unquoted_text, " #") {
        Some((value, _)) => trim(value).to_owned(),
        None => trim(unquoted_text).to_owned(),
    }
}

/// The key and the value that a line of a `.env` file assigns.
pub fn parse_env_line(line: &str) -> (r: Option<(String, String)>)
    ensures
        match r {
            Some((key, value)) => env_entry(line@) == Some((key@, value@)),
            None => env_entry(line@) is None,
        },
{
    let line = trim(line);
    if line.is_empty() || line.get_char(0) == '#' {
        return None;
    }
    let assignment = match strip_prefix(line, "export ") {
        Some(rest) => trim(rest),
        None => line,
    };
    match split_once(assignment, "=") {
        Some((key, value)) => Some((trim(key).to_owned(), parse_env_value(value))),
        None => None,
    }
}

/// The Pushover token and user key that the text of a `.env` file assigns.
pub fn parse_credentials(content: &str) -> (r: Result<(String, String), NotifyError>)
    ensures
        match r {
            Ok((token, user_key)) => credentials_in(content@) == Ok::<_, ErrorView>(
                (token@, user_key@),
            ),
            Err(e) => credentials_in(content@) == Err::<(Seq<char>, Seq<char>), _>(e@),
        },
{
    let all = lines(content);
    let mut token: Option<String> = None;
    let mut user_key: Option<String> = None;
    let mut i: usize = 0;
    while i < all.len()
        invariant
            i <= all@.len(),
            opt_text(token) == last_assigned(texts(all@).take(i as int), "PUSHOVER_TOKEN"@),
            opt_text(user_key) == last_assigned(texts(all@).take(i as int), "PUSHOVER_USER_KEY"@),
        decreases all@.len() - i,
    {
        let ghost seen = texts(all@).take(i + 1);
        proof {
            assert(seen.drop_last() =~= texts(all@).take(i as int));
            assert(seen.last() == all@[i as int]@);
            reveal_strlit("PUSHOVER_TOKEN");
            reveal_strlit("PUSHOVER_USER_KEY");
            assert(lower("PUSHOVER_TOKEN"@).len() != lower("PUSHOVER_USER_KEY"@).len());
        }
        match parse_env_line(all[i]) {
            Some((key, value)) => {
                if eq_ignore_ascii_case(key.as_str(), "PUSHOVER_TOKEN") {
                    token = Some(value);
                } else if eq_ignore_ascii_case(key.as_str(), "PUSHOVER_USER_KEY") {
                    user_key = Some(value);
                }
            },
            None => {},
        }
        i += 1;
    }
    assert(texts(all@).take(all@.len() as int) =~= lines_of(content@));
    match token {
        None => Err(NotifyError::TokenNotFound),
        Some(token) => match user_key {
            None => Err(NotifyError::UserKeyNotFound),
            Some(user_key) => Ok((token, user_key)),
        },
    }
}

// ---------------------------------------------------------------------------
// Laws
// ---------------------------------------------------------------------------

/// Whether `v` has no whitespace around it and no comment in it.
pub open spec fn is_clean(v: Seq<char>) -> bool {
    trimmed(v) == v && forall|i: int| !occurs_at(v, " #"@, i)
}

/// A value is clean: it has no whitespace around it and no comment in it. It is
/// a contiguous part of the text it is read from.
pub proof fn law_env_value_is_a_clean_part(raw: Seq<char>)
    ensures
        is_clean(env_value(raw)),
        exists|i: int, j: int|
            0 <= i <= j <= raw.len() && env_value(raw) == #[trigger] raw.subrange(i, j),
{
    let u = unquoted(raw);
    let cut = uncommented(u);
    let (a, b) = lemma_unquoted_part(raw);
    lemma_uncommented(u);
    let (c, d) = lemma_trimmed_part(cut);
    lemma_part_of_part(u, 0, cut.len() as int, c, d);
    lemma_part_of_part(raw, a, b, c, d);
    lemma_trimmed_is_clean(cut);
}

/// Whitespace around the text of a value changes nothing.
pub proof fn law_env_value_ignores_outer_whitespace(
    before: Seq<char>,
    raw: Seq<char>,
    after: Seq<char>,
)
    requires
        is_blank(before),
        is_blank(after),
    ensures
        env_value(before + raw + after) == env_value(raw),
{
    lemma_trim_padded(before, raw, after);
}

/// A trimmed text is a contiguous part of the text.
proof fn lemma_trimmed_part(s: Seq<char>) -> (part: (int, int))
    ensures
        0 <= part.0 <= part.1 <= s.len(),
        trimmed(s) == s.subrange(part.0, part.1),
{
    law_trim_removes_the_outer_whitespace(s);
    let (before, after) = choose|before: Seq<char>, after: Seq<char>|
        #![trigger is_blank(before), is_blank(after)]
        is_blank(before) && is_blank(after) && s == before + trimmed(s) + after;
    let i = before.len() as int;
    let j = i + trimmed(s).len();
    assert(trimmed(s) =~= s.subrange(i, j));
    (i, j)
}

/// What stands in a part of a text stands in the text.
proof fn lemma_occurs_in_whole(s: Seq<char>, pat: Seq<char>, i: int, j: int, k: int)
    requires
        0 <= i <= j <= s.len(),
        occurs_at(s.subrange(i, j), pat, k),
    ensures
        occurs_at(s, pat, i + k),
{
    assert(s.subrange(i + k, i + k + pat.len()) =~= s.subrange(i, j).subrange(k, k + pat.len()));
}

/// A part of a part of a text is a part of the text.
proof fn lemma_part_of_part(s: Seq<char>, a: int, b: int, c: int, d: int)
    requires
        0 <= a <= b <= s.len(),
        0 <= c <= d <= b - a,
    ensures
        s.subrange(a, b).subrange(c, d) == s.subrange(a + c, a + d),
{
    assert(s.subrange(a, b).subrange(c, d) =~= s.subrange(a + c, a + d));
}

/// An unquoted text is a contiguous part of the text.
proof fn lemma_unquoted_part(raw: Seq<char>) -> (part: (int, int))
    ensures
        0 <= part.0 <= part.1 <= raw.len(),
        unquoted(raw) == raw.subrange(part.0, part.1),
{
    let (a, b) = lemma_trimmed_part(raw);
    let s = trimmed(raw);
    if quoted_by(s, '"') || quoted_by(s, '\'') {
        lemma_part_of_part(raw, a, b, 1, s.len() - 1);
        (a + 1, b - 1)
    } else {
        (a, b)
    }
}

/// A text up to its first comment is the front of the text, and no comment
/// stands in it.
proof fn lemma_uncommented(s: Seq<char>)
    ensures
        uncommented(s).len() <= s.len(),
        uncommented(s) == s.subrange(0, uncommented(s).len() as int),
        forall|k: int| !occurs_at(uncommented(s), " #"@, k),
{
    if exists|i: int| first_at(s, " #"@, i) {
        let i = choose|i: int| first_at(s, " #"@, i);
        lemma_split_at(s, " #"@, i);
        reveal_strlit(" #");
        lemma_front_has_none(s, " #"@, i);
    } else {
        assert(s =~= s.subrange(0, s.len() as int));
        assert forall|k: int| !occurs_at(s, " #"@, k) by {
            if occurs_at(s, " #"@, k) {
                let i: int = lemma_first_exists(s, " #"@, k);
                assert(first_at(s, " #"@, i));
            }
        }
    }
}

/// In front of its first occurrence a pattern does not occur.
proof fn lemma_front_has_none(s: Seq<char>, pat: Seq<char>, i: int)
    requires
        pat.len() > 0,
        first_at(s, pat, i),
    ensures
        s.take(i).len() == i,
        s.take(i) == s.subrange(0, i),
        forall|k: int| !occurs_at(s.take(i), pat, k),
{
    assert(s.take(i) =~= s.subrange(0, i));
    assert forall|k: int| !occurs_at(s.take(i), pat, k) by {
        if occurs_at(s.take(i), pat, k) {
            lemma_occurs_in_whole(s, pat, 0, i, k);
            assert(occurs_at(s, pat, k));
        }
    }
}

/// A text without comments is clean once it is trimmed.
proof fn lemma_trimmed_is_clean(s: Seq<char>)
    requires
        forall|k: int| !occurs_at(s, " #"@, k),
    ensures
        is_clean(trimmed(s)),
{
    let (i, j) = lemma_trimmed_part(s);
    law_trim_is_idempotent(s);
    assert forall|k: int| !occurs_at(trimmed(s), " #"@, k) by {
        if occurs_at(trimmed(s), " #"@, k) {
            lemma_occurs_in_whole(s, " #"@, i, j, k);
        }
    }
}

/// Where a pattern stands somewhere, it stands somewhere first.
proof fn lemma_first_exists(s: Seq<char>, pat: Seq<char>, k: int) -> (i: int)
    requires
        occurs_at(s, pat, k),
    ensures
        first_at(s, pat, i),
{
    lemma_first_occurrence(s, pat, k)
}

/// A clean value is read back from between quotes, and also without them when
/// it does not look quoted itself.
pub proof fn law_env_value_reads_back(v: Seq<char>, q: char)
    requires
        is_clean(v),
        q == '"' || q == '\'',
    ensures
        env_value(seq![q] + v + seq![q]) == v,
        !quoted_by(v, '"') && !quoted_by(v, '\'') ==> env_value(v) == v,
{
    let raw = seq![q] + v + seq![q];
    lemma_no_split(v, " #"@);
    assert(uncommented(v) == v);
    lemma_trimmed_already(raw);
    assert(quoted_by(raw, q));
    assert(unquoted(raw) =~= v);
}

/// A text that starts without whitespace keeps its front when it is trimmed, at
/// least up to any character that is no whitespace.
proof fn lemma_trimmed_prefix(s: Seq<char>, k: int)
    requires
        0 <= k < s.len(),
        !is_space(s[0]),
        !is_space(s[k]),
    ensures
        k < trimmed(s).len() <= s.len(),
        trimmed(s) == s.take(trimmed(s).len() as int),
{
    law_trim_removes_the_outer_whitespace(s);
    let (before, after) = choose|before: Seq<char>, after: Seq<char>|
        #![trigger is_blank(before), is_blank(after)]
        is_blank(before) && is_blank(after) && s == before + trimmed(s) + after;
    if before.len() > 0 {
        assert(s[0] == before[0]);
    }
    let n = trimmed(s).len() as int;
    if n <= k {
        assert(s[k] == after[k - n]);
    }
    assert(trimmed(s) =~= s.take(n));
}

/// The first comment sign in a text that starts with a clean value and a comment
/// sign stands behind the value.
proof fn lemma_comment_at(v: Seq<char>, s: Seq<char>)
    requires
        is_clean(v),
        v.len() + 2 <= s.len(),
        s.take(v.len() as int) == v,
        s[v.len() as int] == ' ',
        s[v.len() as int + 1] == '#',
    ensures
        first_at(s, " #"@, v.len() as int),
{
    reveal_strlit(" #");
    let n = v.len() as int;
    assert(s.subrange(n, n + 2) =~= " #"@);
    assert forall|j: int| 0 <= j < n implies !occurs_at(s, " #"@, j) by {
        if occurs_at(s, " #"@, j) {
            assert(s.subrange(j, j + 2)[0] == ' ');
            assert(s.subrange(j, j + 2)[1] == '#');
            if j + 2 <= n {
                assert(v.subrange(j, j + 2) =~= s.subrange(j, j + 2));
                assert(occurs_at(v, " #"@, j));
            } else {
                assert(s[n] == ' ');
            }
        }
    }
}

/// A comment after a clean value is passed over.
pub proof fn law_env_comment_is_dropped(v: Seq<char>, comment: Seq<char>)
    requires
        is_clean(v),
        v.len() > 0,
        v.first() != '"',
        v.first() != '\'',
    ensures
        env_value(v + " #"@ + comment) == v,
{
    reveal_strlit(" #");
    law_trim_removes_the_outer_whitespace(v);
    let raw = v + " #"@ + comment;
    let n = v.len() as int;
    lemma_trimmed_prefix(raw, n + 1);
    let s = trimmed(raw);
    assert(s.take(n) =~= v);
    lemma_comment_at(v, s);
    lemma_split_at(s, " #"@, n);
}

/// Blank lines and comment lines assign nothing.
pub proof fn law_comments_assign_nothing(line: Seq<char>, name: Seq<char>)
    requires
        is_blank(line) || trimmed(line).first() == '#',
    ensures
        assigned(line, name) is None,
{
    law_trim_removes_the_outer_whitespace(line);
}

/// A line that does not assign `name` may be left out.
pub proof fn law_other_lines_do_not_matter(
    before: Seq<Seq<char>>,
    line: Seq<char>,
    after: Seq<Seq<char>>,
    name: Seq<char>,
)
    requires
        assigned(line, name) is None,
    ensures
        last_assigned(before + seq![line] + after, name) == last_assigned(before + after, name),
    decreases after.len(),
{
    let with = before + seq![line] + after;
    let without = before + after;
    if after.len() == 0 {
        assert(with.drop_last() =~= before);
        assert(without =~= before);
    } else {
        law_other_lines_do_not_matter(before, line, after.drop_last(), name);
        assert(with.drop_last() =~= before + seq![line] + after.drop_last());
        assert(without.drop_last() =~= before + after.drop_last());
    }
}

/// Of several assignments to a name, the last one counts.
pub proof fn law_last_assignment_counts(
    before: Seq<Seq<char>>,
    line: Seq<char>,
    after: Seq<Seq<char>>,
    name: Seq<char>,
)
    requires
        assigned(line, name) is Some,
        forall|i: int| 0 <= i < after.len() ==> assigned(#[trigger] after[i], name) is None,
    ensures
        last_assigned(before + seq![line] + after, name) == assigned(line, name),
    decreases after.len(),
{
    let all = before + seq![line] + after;
    if after.len() > 0 {
        assert(assigned(after[after.len() - 1], name) is None);
        assert(all.drop_last() =~= before + seq![line] + after.drop_last());
        assert forall|i: int| 0 <= i < after.drop_last().len() implies assigned(
            #[trigger] after.drop_last()[i],
            name,
        ) is None by {
            assert(assigned(after[i], name) is None);
        }
        law_last_assignment_counts(before, line, after.drop_last(), name);
    }
}

/// `export ` in front of an assignment changes nothing.
pub proof fn law_export_is_passed_over(line: Seq<char>)
    requires
        trimmed(line) == line,
        line.len() > 0,
        line.first() != '#',
        !"export "@.is_prefix_of(line),
    ensures
        env_entry("export "@ + line) == env_entry(line),
{
    reveal_strlit("export ");
    let exported = "export "@ + line;
    law_trim_removes_the_outer_whitespace(line);
    assert(exported.first() == 'e');
    assert(exported.last() == line.last());
    lemma_trimmed_already(exported);
    assert("export "@.is_prefix_of(exported));
    assert(exported.skip(7) =~= line);
    assert(unexported(exported) == line);
    assert(unexported(line) == line);
}

/// Whether `key` can stand on the left of an assignment as it is.
pub open spec fn is_plain_key(key: Seq<char>) -> bool {
    &&& trimmed(key) == key
    &&& key.len() > 0
    &&& key.first() != '#'
    &&& !key.contains('=')
    &&& !"export "@.is_prefix_of(key)
}

/// Whether `v` can stand on the right of an assignment as it is.
pub open spec fn is_plain_value(v: Seq<char>) -> bool {
    is_clean(v) && !quoted_by(v, '"') && !quoted_by(v, '\'')
}

/// An assignment is read back: the key as it is written, the value when it is
/// clean and does not look quoted.
pub proof fn law_assignment_reads_back(key: Seq<char>, v: Seq<char>)
    requires
        is_plain_key(key),
        is_plain_value(v),
    ensures
        env_entry(key + "="@ + v) == Some((key, v)),
{
    let line = key + "="@ + v;
    lemma_assignment_is_plain(key, v);
    lemma_assignment_splits(key, v);
    assert(unexported(line) == line);
    law_env_value_reads_back(v, '"');
}

/// An assignment has no whitespace around it, is no comment and does not start
/// with `export `.
proof fn lemma_assignment_is_plain(key: Seq<char>, v: Seq<char>)
    requires
        is_plain_key(key),
        trimmed(v) == v,
    ensures
        trimmed(key + "="@ + v) == key + "="@ + v,
        (key + "="@ + v).len() > 0,
        (key + "="@ + v).first() != '#',
        !"export "@.is_prefix_of(key + "="@ + v),
{
    reveal_strlit("=");
    reveal_strlit("export ");
    let line = key + "="@ + v;
    let n = key.len() as int;
    law_trim_removes_the_outer_whitespace(key);
    law_trim_removes_the_outer_whitespace(v);
    assert(line.first() == key.first());
    assert(line.last() == if v.len() > 0 {
        v.last()
    } else {
        '='
    });
    lemma_trimmed_already(line);
    if "export "@.is_prefix_of(line) {
        assert forall|i: int| 0 <= i < 7 implies "export "@[i] == #[trigger] line[i] by {
            assert(line.subrange(0, 7)[i] == line[i]);
        }
        if n >= 7 {
            assert("export "@ =~= key.subrange(0, 7));
        } else {
            assert(line[n] == '=');
        }
    }
}

/// An assignment is split behind its key.
proof fn lemma_assignment_splits(key: Seq<char>, v: Seq<char>)
    requires
        !key.contains('='),
    ensures
        split_at_first(key + "="@ + v, "="@) == Some((key, v)),
{
    reveal_strlit("=");
    let line = key + "="@ + v;
    let n = key.len() as int;
    assert(line.subrange(n, n + 1) =~= "="@);
    assert forall|j: int| 0 <= j < n implies !occurs_at(line, "="@, j) by {
        if occurs_at(line, "="@, j) {
            assert(line.subrange(j, j + 1)[0] == '=');
            assert(key[j] == '=');
        }
    }
    assert(first_at(line, "="@, n));
    lemma_split_at(line, "="@, n);
    assert(line.take(n) =~= key);
    assert(line.skip(n + 1) =~= v);
}

/// Two lines without line feeds are read back from a text of two lines.
proof fn lemma_two_lines(first: Seq<char>, second: Seq<char>)
    requires
        !first.contains('\n'),
        !second.contains('\n'),
        first.len() > 0 ==> first.last() != '\r',
        second.len() > 0,
    ensures
        lines_of(first + "\n"@ + second) == seq![first, second],
{
    reveal_strlit("\n");
    let content = first + "\n"@ + second;
    let n = first.len() as int;
    let feed = seq!['\n'];
    assert(content.subrange(n, n + 1) =~= feed);
    assert forall|j: int| 0 <= j < n implies !occurs_at(content, feed, j) by {
        if occurs_at(content, feed, j) {
            assert(content.subrange(j, j + 1)[0] == '\n');
            assert(first[j] == '\n');
        }
    }
    assert(first_at(content, feed, n));
    lemma_split_at(content, feed, n);
    assert(content.take(n) =~= first);
    assert(content.skip(n + 1) =~= second);
    assert forall|j: int| !occurs_at(second, feed, j) by {
        if occurs_at(second, feed, j) {
            assert(second.subrange(j, j + 1)[0] == '\n');
            assert(second[j] == '\n');
        }
    }
    lemma_no_split(second, feed);
    assert(lines_of(second) =~= seq![second]);
    assert(lines_of(content) =~= seq![first, second]);
}

/// An assignment without line feeds in it is a line of its own.
proof fn lemma_assignment_is_a_line(key: Seq<char>, v: Seq<char>)
    requires
        is_plain_value(v),
        !key.contains('\n'),
        !v.contains('\n'),
    ensures
        !(key + "="@ + v).contains('\n'),
        (key + "="@ + v).last() != '\r',
{
    reveal_strlit("=");
    let line = key + "="@ + v;
    let n = key.len() as int;
    if line.contains('\n') {
        let i = choose|i: int| 0 <= i < line.len() && line[i] == '\n';
        if i < n {
            assert(key[i] == '\n');
        } else {
            assert(i > n);
            assert(v[i - n - 1] == '\n');
        }
    }
    law_trim_removes_the_outer_whitespace(v);
    assert(line.last() == if v.len() > 0 {
        v.last()
    } else {
        '='
    });
}

/// Of two lines that assign different names, each gives the value of its own.
proof fn lemma_last_of_two(
    first: Seq<char>,
    second: Seq<char>,
    a: (Seq<char>, Seq<char>),
    b: (Seq<char>, Seq<char>),
)
    requires
        env_entry(first) == Some(a),
        env_entry(second) == Some(b),
        lower(a.0) != lower(b.0),
    ensures
        last_assigned(seq![first, second], a.0) == Some(a.1),
        last_assigned(seq![first, second], b.0) == Some(b.1),
{
    let all = seq![first, second];
    assert(all.drop_last() =~= seq![first]);
    assert(assigned(first, a.0) == Some(a.1));
    assert(assigned(second, a.0) is None);
    assert(assigned(second, b.0) == Some(b.1));
    assert(last_assigned(seq![first], a.0) == Some(a.1));
}

/// Two names that differ in more than letter case are assigned in a text of two
/// lines.
proof fn lemma_two_assignments(
    key: Seq<char>,
    v: Seq<char>,
    other: Seq<char>,
    w: Seq<char>,
)
    requires
        is_plain_key(key) && is_plain_value(v),
        is_plain_key(other) && is_plain_value(w),
        !key.contains('\n') && !v.contains('\n'),
        !other.contains('\n') && !w.contains('\n'),
        lower(key) != lower(other),
    ensures
        last_assigned(lines_of(key + "="@ + v + "\n"@ + (other + "="@ + w)), key) == Some(v),
        last_assigned(lines_of(key + "="@ + v + "\n"@ + (other + "="@ + w)), other) == Some(w),
{
    let first = key + "="@ + v;
    let second = other + "="@ + w;
    lemma_assignment_is_a_line(key, v);
    lemma_assignment_is_a_line(other, w);
    lemma_two_lines(first, second);
    law_assignment_reads_back(key, v);
    law_assignment_reads_back(other, w);
    lemma_last_of_two(first, second, (key, v), (other, w));
}

/// The names of the credentials are plain keys of one line each, and differ in
/// more than letter case.
proof fn lemma_credential_names()
    ensures
        is_plain_key("PUSHOVER_TOKEN"@),
        is_plain_key("PUSHOVER_USER_KEY"@),
        !"PUSHOVER_TOKEN"@.contains('\n'),
        !"PUSHOVER_USER_KEY"@.contains('\n'),
        lower("PUSHOVER_TOKEN"@) != lower("PUSHOVER_USER_KEY"@),
{
    reveal_strlit("PUSHOVER_TOKEN");
    reveal_strlit("PUSHOVER_USER_KEY");
    reveal_strlit("export ");
    assert("export "@[0] == 'e');
    assert("PUSHOVER_TOKEN"@.subrange(0, 7)[0] == 'P');
    assert("PUSHOVER_USER_KEY"@.subrange(0, 7)[0] == 'P');
    assert(trimmed("PUSHOVER_TOKEN"@) == "PUSHOVER_TOKEN"@);
    assert(trimmed("PUSHOVER_USER_KEY"@) == "PUSHOVER_USER_KEY"@);
    assert(lower("PUSHOVER_TOKEN"@).len() != lower("PUSHOVER_USER_KEY"@).len());
}

/// A token and a user key that are written to a `.env` file are read back.
pub proof fn law_credentials_read_back(token: Seq<char>, user_key: Seq<char>)
    requires
        is_plain_value(token),
        is_plain_value(user_key),
        !token.contains('\n'),
        !user_key.contains('\n'),
    ensures
        credentials_in(
            "PUSHOVER_TOKEN"@ + "="@ + token + "\n"@ + ("PUSHOVER_USER_KEY"@ + "="@ + user_key),
        ) == Ok::<_, ErrorView>((token, user_key)),
{
    lemma_credential_names();
    lemma_two_assignments("PUSHOVER_TOKEN"@, token, "PUSHOVER_USER_KEY"@, user_key);
}

/// A value is taken apart as far as its quotes and its comment go, and no further:
/// of a text between two equal quotes, or one that is not, what stands before the
/// first comment sign counts, without the whitespace around it.
pub proof fn law_env_value_parts(
    raw: Seq<char>,
    quote: Option<char>,
    inner: Seq<char>,
    cut: Seq<char>,
    comment: Option<Seq<char>>,
)
    requires
        match quote {
            Some(q) => (q == '"' || q == '\'') && trimmed(raw) == seq![q] + inner + seq![q],
            None => trimmed(raw) == inner && !(inner.len() >= 2 && inner[0] == inner[inner.len() - 1]
                && (inner[0] == '"' || inner[0] == '\'')),
        },
        match comment {
            Some(rest) => inner == cut + seq![' ', '#'] + rest && forall|j: int|
                0 <= j < cut.len() ==> !(#[trigger] inner[j] == ' ' && inner[j + 1] == '#'),
            None => inner == cut && forall|j: int|
                0 <= j < inner.len() - 1 ==> !(#[trigger] inner[j] == ' ' && inner[j + 1] == '#'),
        },
    ensures
        env_value(raw) == trimmed(cut),
{
    let s = trimmed(raw);
    match quote {
        Some(q) => {
            assert(quoted_by(s, q));
            assert(s.subrange(1, s.len() - 1) =~= inner);
        },
        None => {
            assert(!quoted_by(s, '"') && !quoted_by(s, '\''));
        },
    }
    assert(unquoted(raw) == inner);
    lemma_cut_at(inner, cut, comment);
}

/// What stands before the first comment sign of a text.
proof fn lemma_cut_at(inner: Seq<char>, cut: Seq<char>, comment: Option<Seq<char>>)
    requires
        match comment {
            Some(rest) => inner == cut + seq![' ', '#'] + rest && forall|j: int|
                0 <= j < cut.len() ==> !(#[trigger] inner[j] == ' ' && inner[j + 1] == '#'),
            None => inner == cut && forall|j: int|
                0 <= j < inner.len() - 1 ==> !(#[trigger] inner[j] == ' ' && inner[j + 1] == '#'),
        },
    ensures
        uncommented(inner) == cut,
{
    reveal_strlit(" #");
    assert forall|j: int| occurs_at(inner, " #"@, j) implies 0 <= j < inner.len() - 1 && inner[j]
        == ' ' && inner[j + 1] == '#' by {
        assert(inner.subrange(j, j + 2)[0] == inner[j]);
        assert(inner.subrange(j, j + 2)[1] == inner[j + 1]);
    }
    match comment {
        Some(rest) => {
            let n = cut.len() as int;
            assert(inner.subrange(n, n + 2) =~= " #"@);
            assert(first_at(inner, " #"@, n));
            lemma_split_at(inner, " #"@, n);
            assert(inner.take(n) =~= cut);
        },
        None => {
            assert forall|j: int| !occurs_at(inner, " #"@, j) by {}
            lemma_no_split(inner, " #"@);
        },
    }
}

/// A line assigns nothing exactly when it is blank, a comment, or without `=`.
pub proof fn law_which_lines_assign(line: Seq<char>)
    ensures
        env_entry(line) is None <==> is_blank(line) || trimmed(line)[0] == '#' || !line.contains(
            '=',
        ),
{
    law_trim_removes_the_outer_whitespace(line);
    let t = trimmed(line);
    lemma_trim_keeps(line, '=');
    let a = unexported(t);
    assert(a.contains('=') == t.contains('=')) by {
        reveal_strlit("export ");
        if "export "@.is_prefix_of(t) {
            let rest = t.skip("export "@.len() as int);
            lemma_trim_keeps(rest, '=');
            assert(t =~= "export "@ + rest);
            if t.contains('=') {
                let i = choose|i: int| 0 <= i < t.len() && t[i] == '=';
                assert(rest[i - 7] == '=');
            }
            if rest.contains('=') {
                let i = choose|i: int| 0 <= i < rest.len() && rest[i] == '=';
                assert(t[i + 7] == '=');
            }
        }
    }
    law_split_at_first(a, "="@);
    reveal_strlit("=");
    if a.contains('=') {
        let i = choose|i: int| 0 <= i < a.len() && a[i] == '=';
        assert(a.subrange(i, i + "="@.len()) =~= "="@);
    }
    if let Some((before, after)) = split_at_first(a, "="@) {
        assert(a[before.len() as int] == '=');
    }
}

/// Trimming takes away and adds no character that is no whitespace.
proof fn lemma_trim_keeps(s: Seq<char>, c: char)
    requires
        !is_space(c),
    ensures
        trimmed(s).contains(c) == s.contains(c),
{
    law_trim_removes_the_outer_whitespace(s);
    let (before, after) = choose|before: Seq<char>, after: Seq<char>|
        #![trigger is_blank(before), is_blank(after)]
        is_blank(before) && is_blank(after) && s == before + trimmed(s) + after;
    let t = trimmed(s);
    let n = before.len() as int;
    if s.contains(c) {
        let i = choose|i: int| 0 <= i < s.len() && s[i] == c;
        if i < n {
            assert(before[i] == c);
        } else if i >= n + t.len() {
            assert(after[i - n - t.len()] == c);
        } else {
            assert(t[i - n] == c);
        }
    }
    if t.contains(c) {
        let i = choose|i: int| 0 <= i < t.len() && t[i] == c;
        assert(s[n + i] == c);
    }
}

/// A line that assigns is taken apart at its first `=`: the key is what stands
/// before it, without `export ` and the whitespace around it, and the value is
/// read from what stands behind it.
pub proof fn law_lines_are_taken_apart(
    line: Seq<char>,
    exported: bool,
    key: Seq<char>,
    raw: Seq<char>,
)
    requires
        !is_blank(line),
        trimmed(line)[0] != '#',
        !key.contains('='),
        exported ==> trimmed(line) == "export "@ + (key + seq!['='] + raw),
        !exported ==> trimmed(line) == key + seq!['='] + raw && !"export "@.is_prefix_of(
            trimmed(line),
        ),
    ensures
        env_entry(line) == Some((trimmed(key), env_value(raw))),
{
    law_trim_removes_the_outer_whitespace(line);
    let t = trimmed(line);
    let body = key + seq!['='] + raw;
    reveal_strlit("=");
    assert(seq!['='] =~= "="@);
    if exported {
        assert("export "@.is_prefix_of(t));
        assert(t.skip("export "@.len() as int) =~= body);
        let (k, r) = lemma_trimmed_assignment(key, raw);
        lemma_assignment_splits(k, r);
    } else {
        lemma_assignment_splits(key, raw);
    }
}

/// Whitespace around an assignment belongs to its key and its value, and goes
/// with theirs.
proof fn lemma_trimmed_assignment(key: Seq<char>, raw: Seq<char>) -> (parts: (Seq<char>, Seq<char>))
    requires
        !key.contains('='),
    ensures
        trimmed(key + "="@ + raw) == parts.0 + "="@ + parts.1,
        !parts.0.contains('='),
        trimmed(parts.0) == trimmed(key),
        env_value(parts.1) == env_value(raw),
{
    reveal_strlit("=");
    assert("="@ =~= seq!['=']);
    let s = key + "="@ + raw;
    law_trim_removes_the_outer_whitespace(s);
    let (before, after) = choose|before: Seq<char>, after: Seq<char>|
        #![trigger is_blank(before), is_blank(after)]
        is_blank(before) && is_blank(after) && s == before + trimmed(s) + after;
    let t = trimmed(s);
    lemma_outer_parts(key, raw, before, t, after);
    let k = key.skip(before.len() as int);
    let r = raw.take(raw.len() - after.len());
    assert(key =~= before + k + Seq::<char>::empty());
    assert(raw =~= Seq::<char>::empty() + r + after);
    lemma_trim_padded(before, k, Seq::empty());
    law_env_value_ignores_outer_whitespace(Seq::empty(), r, after);
    if k.contains('=') {
        let i = choose|i: int| 0 <= i < k.len() && k[i] == '=';
        assert(key[before.len() + i] == '=');
    }
    (k, r)
}

/// Of an assignment with whitespace around it, the one whitespace stands in front
/// of the key and the other behind the value.
proof fn lemma_outer_parts(
    key: Seq<char>,
    raw: Seq<char>,
    before: Seq<char>,
    t: Seq<char>,
    after: Seq<char>,
)
    requires
        key + seq!['='] + raw == before + t + after,
        is_blank(before),
        is_blank(after),
    ensures
        before.len() <= key.len(),
        after.len() <= raw.len(),
        key == before + key.skip(before.len() as int),
        raw == raw.take(raw.len() - after.len()) + after,
        t == key.skip(before.len() as int) + seq!['='] + raw.take(raw.len() - after.len()),
{
    let s = key + seq!['='] + raw;
    let n = key.len() as int;
    let b = before.len() as int;
    let e = b + t.len();
    assert(s.len() == n + 1 + raw.len() && s.len() == e + after.len());
    assert(s[n] == '=');
    assert(b <= n) by {
        if b > n {
            assert(s[n] == before[n]);
        }
    }
    assert(n < e) by {
        if e <= n {
            assert(s[n] == after[n - e]);
        }
    }
    assert forall|i: int| 0 <= i < b implies before[i] == key[i] by {
        assert(s[i] == before[i] && s[i] == key[i]);
    }
    assert(key =~= before + key.skip(b));
    assert forall|i: int| 0 <= i < after.len() implies after[i] == raw[e - n - 1 + i] by {
        assert(s[e + i] == after[i]);
        assert(s[e + i] == raw[e - n - 1 + i]);
    }
    assert(raw =~= raw.take(raw.len() - after.len()) + after);
    assert(t =~= s.subrange(b, e));
    assert(t =~= key.skip(b) + seq!['='] + raw.take(raw.len() - after.len()));
}

/// A line assigns a value to a name exactly when it assigns that value to a key
/// that is the name up to ASCII letter case.
pub proof fn law_names_are_taken_in_any_case(line: Seq<char>, name: Seq<char>, v: Seq<char>)
    ensures
        assigned(line, name) == Some(v) <==> exists|key: Seq<char>| #[trigger]
            lower(key) == lower(name) && env_entry(line) == Some((key, v)),
{
    if let Some((key, value)) = env_entry(line) {
        assert(lower(key) == lower(key));
    }
}

/// Whether `v` is the value of `name` after all `lines`: some line assigns it, and
/// no later one assigns the name.
pub open spec fn is_last_value(lines: Seq<Seq<char>>, name: Seq<char>, v: Seq<char>) -> bool {
    exists|i: int|
        0 <= i < lines.len() && #[trigger] assigned(lines[i], name) == Some(v) && forall|j: int|
            i < j < lines.len() ==> #[trigger] assigned(lines[j], name) is None
}

/// The credentials of a text are found exactly when some line assigns the token
/// and some line assigns the user key, wherever the two stand, and are the last
/// values assigned to each. A missing token is told before a missing user key.
pub proof fn law_credentials_are_the_last_values(content: Seq<char>, t: Seq<char>, u: Seq<char>)
    ensures
        credentials_in(content) == Ok::<_, ErrorView>((t, u)) <==> is_last_value(
            lines_of(content),
            "PUSHOVER_TOKEN"@,
            t,
        ) && is_last_value(lines_of(content), "PUSHOVER_USER_KEY"@, u),
        credentials_in(content) is Ok <==> (exists|i: int|
            0 <= i < lines_of(content).len() && #[trigger] assigned(
                lines_of(content)[i],
                "PUSHOVER_TOKEN"@,
            ) is Some) && (exists|i: int|
            0 <= i < lines_of(content).len() && #[trigger] assigned(
                lines_of(content)[i],
                "PUSHOVER_USER_KEY"@,
            ) is Some),
        credentials_in(content) == Err::<(Seq<char>, Seq<char>), _>(ErrorView::TokenNotFound)
            <==> forall|i: int|
            0 <= i < lines_of(content).len() ==> #[trigger] assigned(
                lines_of(content)[i],
                "PUSHOVER_TOKEN"@,
            ) is None,
        credentials_in(content) == Err::<(Seq<char>, Seq<char>), _>(ErrorView::UserKeyNotFound)
            <==> (exists|i: int|
            0 <= i < lines_of(content).len() && #[trigger] assigned(
                lines_of(content)[i],
                "PUSHOVER_TOKEN"@,
            ) is Some) && forall|i: int|
            0 <= i < lines_of(content).len() ==> #[trigger] assigned(
                lines_of(content)[i],
                "PUSHOVER_USER_KEY"@,
            ) is None,
{
    lemma_last_value(lines_of(content), "PUSHOVER_TOKEN"@, t);
    lemma_last_value(lines_of(content), "PUSHOVER_USER_KEY"@, u);
}

/// The last value of a name, told by the lines.
proof fn lemma_last_value(lines: Seq<Seq<char>>, name: Seq<char>, v: Seq<char>)
    ensures
        last_assigned(lines, name) == Some(v) <==> is_last_value(lines, name, v),
        last_assigned(lines, name) is None <==> forall|i: int|
            0 <= i < lines.len() ==> #[trigger] assigned(lines[i], name) is None,
    decreases lines.len(),
{
    if lines.len() > 0 {
        let front = lines.drop_last();
        let n = lines.len() - 1;
        lemma_last_value(front, name, v);
        assert(forall|i: int| 0 <= i < n ==> front[i] == lines[i]);
        if assigned(lines[n], name) is Some {
            if is_last_value(lines, name, v) {
                let i = choose|i: int|
                    0 <= i < lines.len() && #[trigger] assigned(lines[i], name) == Some(v)
                        && forall|j: int|
                        i < j < lines.len() ==> #[trigger] assigned(lines[j], name) is None;
                assert(i == n);
            }
        } else {
            if is_last_value(front, name, v) {
                let i = choose|i: int|
                    0 <= i < front.len() && #[trigger] assigned(front[i], name) == Some(v)
                        && forall|j: int|
                        i < j < front.len() ==> #[trigger] assigned(front[j], name) is None;
                assert(assigned(lines[i], name) == Some(v));
                assert forall|j: int| i < j < lines.len() implies #[trigger] assigned(
                    lines[j],
                    name,
                ) is None by {
                    if j < n {
                        assert(assigned(front[j], name) is None);
                    }
                }
            }
            if is_last_value(lines, name, v) {
                let i = choose|i: int|
                    0 <= i < lines.len() && #[trigger] assigned(lines[i], name) == Some(v)
                        && forall|j: int|
                        i < j < lines.len() ==> #[trigger] assigned(lines[j], name) is None;
                assert(assigned(front[i], name) == Some(v));
                assert forall|j: int| i < j < front.len() implies #[trigger] assigned(
                    front[j],
                    name,
                ) is None by {
                    assert(assigned(lines[j], name) is None);
                }
            }
            if forall|i: int| 0 <= i < front.len() ==> #[trigger] assigned(front[i], name) is None {
                assert forall|i: int| 0 <= i < lines.len() implies #[trigger] assigned(
                    lines[i],
                    name,
                ) is None by {
                    if i < n {
                        assert(assigned(front[i], name) is None);
                    }
                }
            }
            if forall|i: int| 0 <= i < lines.len() ==> #[trigger] assigned(lines[i], name) is None {
                assert forall|i: int| 0 <= i < front.len() implies #[trigger] assigned(
                    front[i],
                    name,
                ) is None by {
                    assert(assigned(lines[i], name) is None);
                }
            }
        }
    }
}

/// The order of two lines that assign different names makes no difference, whatever
/// lines stand around them.
pub proof fn law_order_of_other_names_does_not_matter(
    a: Seq<char>,
    b: Seq<char>,
    before: Seq<Seq<char>>,
    x: Seq<char>,
    y: Seq<char>,
    after: Seq<Seq<char>>,
)
    requires
        lines_of(a) == before + seq![x, y] + after,
        lines_of(b) == before + seq![y, x] + after,
        assigned(x, "PUSHOVER_TOKEN"@) is None || assigned(y, "PUSHOVER_TOKEN"@) is None,
        assigned(x, "PUSHOVER_USER_KEY"@) is None || assigned(y, "PUSHOVER_USER_KEY"@) is None,
    ensures
        credentials_in(a) == credentials_in(b),
{
    lemma_swapped(before, x, y, after, "PUSHOVER_TOKEN"@);
    lemma_swapped(before, x, y, after, "PUSHOVER_USER_KEY"@);
}

/// Two lines of which one does not assign a name may be swapped.
proof fn lemma_swapped(
    before: Seq<Seq<char>>,
    x: Seq<char>,
    y: Seq<char>,
    after: Seq<Seq<char>>,
    name: Seq<char>,
)
    requires
        assigned(x, name) is None || assigned(y, name) is None,
    ensures
        last_assigned(before + seq![x, y] + after, name) == last_assigned(
            before + seq![y, x] + after,
            name,
        ),
{
    let one = before + seq![x, y] + after;
    let two = before + seq![y, x] + after;
    if assigned(x, name) is None {
        assert(one =~= before + seq![x] + (seq![y] + after));
        assert(two =~= (before + seq![y]) + seq![x] + after);
        law_other_lines_do_not_matter(before, x, seq![y] + after, name);
        law_other_lines_do_not_matter(before + seq![y], x, after, name);
        assert(before + (seq![y] + after) =~= (before + seq![y]) + after);
    } else {
        assert(one =~= (before + seq![x]) + seq![y] + after);
        assert(two =~= before + seq![y] + (seq![x] + after));
        law_other_lines_do_not_matter(before + seq![x], y, after, name);
        law_other_lines_do_not_matter(before, y, seq![x] + after, name);
        assert(before + (seq![x] + after) =~= (before + seq![x]) + after);
    }
}

/// A user key and a token that are written to a `.env` file in this order are read
/// back too.
pub proof fn law_credentials_read_back_in_either_order(token: Seq<char>, user_key: Seq<char>)
    requires
        is_plain_value(token),
        is_plain_value(user_key),
        !token.contains('\n'),
        !user_key.contains('\n'),
    ensures
        credentials_in(
            "PUSHOVER_TOKEN"@ + "="@ + token + "\n"@ + ("PUSHOVER_USER_KEY"@ + "="@ + user_key),
        ) == Ok::<_, ErrorView>((token, user_key)),
        credentials_in(
            "PUSHOVER_USER_KEY"@ + "="@ + user_key + "\n"@ + ("PUSHOVER_TOKEN"@ + "="@ + token),
        ) == Ok::<_, ErrorView>((token, user_key)),
{
    law_credentials_read_back(token, user_key);
    lemma_credential_names();
    lemma_two_assignments("PUSHOVER_USER_KEY"@, user_key, "PUSHOVER_TOKEN"@, token);
}

} // verus!
