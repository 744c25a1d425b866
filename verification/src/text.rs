//! Text helpers over characters.
//!
//! Every function is specified on the sequence of characters that a string
//! holds, so that callers can reason about prefixes, whitespace and letter case
//! without looking at the UTF-8 encoding.

use vstd::prelude::*;
use vstd::string::StrSliceExecFns;

verus! {

broadcast use vstd::string::group_string_axioms;

/// `String::push` of std: appends one character at the end.
pub assume_specification[ String::push ](s: &mut String, c: char)
    ensures
        final(s)@ == old(s)@.push(c),
;

/// The view of an optional text.
pub open spec fn opt_text(s: Option<String>) -> Option<Seq<char>> {
    match s {
        Some(s) => Some(s@),
        None => None,
    }
}

/// The characters of `s`, in order.
pub fn chars_of(s: &str) -> (chars: Vec<char>)
    ensures
        chars@ == s@,
{
    let mut chars: Vec<char> = Vec::new();
    for c in it: s.chars()
        invariant
            it.seq() == s@,
            chars@ == s@.take(it.index()),
    {
        chars.push(c);
        assert(s@.take(it.index()).push(c) =~= s@.take(it.index() + 1));
    }
    assert(s@.take(s@.len() as int) =~= s@);
    chars
}

/// Whether two texts hold the same characters.
pub fn same_text(a: &str, b: &str) -> (same: bool)
    ensures
        same == (a@ == b@),
{
    let left = chars_of(a);
    let right = chars_of(b);
    if left.len() != right.len() {
        return false;
    }
    let mut i: usize = 0;
    while i < left.len()
        invariant
            i <= left@.len(),
            left@ == a@,
            right@ == b@,
            left@.len() == right@.len(),
            forall|j: int| 0 <= j < i ==> left@[j] == right@[j],
        decreases left@.len() - i,
    {
        if left[i] != right[i] {
            return false;
        }
        i += 1;
    }
    assert(a@ =~= b@);
    true
}

// ---------------------------------------------------------------------------
// Letter case
// ---------------------------------------------------------------------------

/// `c` with an ASCII capital letter turned into its small letter.
pub open spec fn lower_char(c: char) -> char {
    if 'A' <= c && c <= 'Z' {
        (c as u32 + 32) as char
    } else {
        c
    }
}

/// `s` with every ASCII capital letter turned into its small letter.
pub open spec fn lower(s: Seq<char>) -> Seq<char> {
    s.map_values(|c: char| lower_char(c))
}

/// The ASCII small letter of `c`, or `c` itself.
pub fn to_lower_char(c: char) -> (r: char)
    ensures
        r == lower_char(c),
{
    if 'A' <= c && c <= 'Z' {
        ((c as u8) + 32) as char
    } else {
        c
    }
}

/// `s` in ASCII lower case; every other character stays as it is.
pub fn to_ascii_lowercase(s: &str) -> (r: String)
    ensures
        r@ == lower(s@),
{
    let chars = chars_of(s);
    let mut r = String::new();
    let mut i: usize = 0;
    while i < chars.len()
        invariant
            i <= chars@.len(),
            chars@ == s@,
            r@ == lower(s@.take(i as int)),
        decreases chars@.len() - i,
    {
        r.push(to_lower_char(chars[i]));
        i += 1;
        assert(r@ =~= lower(s@.take(i as int)));
    }
    assert(s@.take(s@.len() as int) =~= s@);
    r
}

/// Whether two texts are equal when ASCII letter case is ignored.
pub fn eq_ignore_ascii_case(a: &str, b: &str) -> (same: bool)
    ensures
        same == (lower(a@) == lower(b@)),
{
    let left = to_ascii_lowercase(a);
    let right = to_ascii_lowercase(b);
    same_text(left.as_str(), right.as_str())
}

/// Lower-casing twice changes nothing more.
pub proof fn law_lower_is_idempotent(s: Seq<char>)
    ensures
        lower(lower(s)) == lower(s),
{
    assert(lower(lower(s)) =~= lower(s));
}

// ---------------------------------------------------------------------------
// Whitespace
// ---------------------------------------------------------------------------

/// Whether `c` has the Unicode property `White_Space`.
pub open spec fn is_space(c: char) -> bool {
    ||| '\u{9}' <= c && c <= '\u{d}'
    ||| c == '\u{20}'
    ||| c == '\u{85}'
    ||| c == '\u{a0}'
    ||| c == '\u{1680}'
    ||| '\u{2000}' <= c && c <= '\u{200a}'
    ||| c == '\u{2028}'
    ||| c == '\u{2029}'
    ||| c == '\u{202f}'
    ||| c == '\u{205f}'
    ||| c == '\u{3000}'
}

/// `s` without its leading whitespace.
pub open spec fn trim_start(s: Seq<char>) -> Seq<char>
    decreases s.len(),
{
    if s.len() > 0 && is_space(s.first()) {
        trim_start(s.drop_first())
    } else {
        s
    }
}

/// `s` without its trailing whitespace.
pub open spec fn trim_end(s: Seq<char>) -> Seq<char>
    decreases s.len(),
{
    if s.len() > 0 && is_space(s.last()) {
        trim_end(s.drop_last())
    } else {
        s
    }
}

/// `s` without its leading and trailing whitespace.
pub open spec fn trimmed(s: Seq<char>) -> Seq<char> {
    trim_end(trim_start(s))
}

/// Whether every character of `s` is whitespace.
pub open spec fn is_blank(s: Seq<char>) -> bool {
    forall|i: int| 0 <= i < s.len() ==> is_space(s[i])
}

/// Whether `c` has the Unicode property `White_Space`.
pub fn is_whitespace(c: char) -> (b: bool)
    ensures
        b == is_space(c),
{
    ('\u{9}' <= c && c <= '\u{d}') || c == '\u{20}' || c == '\u{85}' || c == '\u{a0}' || c
        == '\u{1680}' || ('\u{2000}' <= c && c <= '\u{200a}') || c == '\u{2028}' || c == '\u{2029}'
        || c == '\u{202f}' || c == '\u{205f}' || c == '\u{3000}'
}

/// `s` without its leading and trailing whitespace.
pub fn trim<'a>(s: &'a str) -> (r: &'a str)
    ensures
        r@ == trimmed(s@),
{
    let chars = chars_of(s);
    let mut from: usize = 0;
    assert(s@.skip(0) =~= s@);
    while from < chars.len() && is_whitespace(chars[from])
        invariant
            from <= chars@.len(),
            chars@ == s@,
            trim_start(s@) == trim_start(s@.skip(from as int)),
        decreases chars@.len() - from,
    {
        assert(s@.skip(from as int).drop_first() =~= s@.skip(from + 1));
        from += 1;
    }
    assert(trim_start(s@) == s@.skip(from as int));
    let mut to: usize = chars.len();
    assert(s@.subrange(from as int, to as int) =~= s@.skip(from as int));
    while from < to && is_whitespace(chars[to - 1])
        invariant
            from <= to <= chars@.len(),
            chars@ == s@,
            trimmed(s@) == trim_end(s@.subrange(from as int, to as int)),
        decreases to,
    {
        assert(s@.subrange(from as int, to as int).drop_last() =~= s@.subrange(
            from as int,
            to - 1,
        ));
        to -= 1;
    }
    s.substring_char(from, to)
}

/// Trimming leaves a middle part of the text: what it takes away on either side
/// is whitespace, and what it leaves neither starts nor ends with whitespace.
pub proof fn law_trim_removes_the_outer_whitespace(s: Seq<char>)
    ensures
        exists|before: Seq<char>, after: Seq<char>|
            #![trigger is_blank(before), is_blank(after)]
            is_blank(before) && is_blank(after) && s == before + trimmed(s) + after,
        trimmed(s).len() > 0 ==> !is_space(trimmed(s).first()) && !is_space(trimmed(s).last()),
        (trimmed(s).len() == 0) == is_blank(s),
{
    let before = lemma_trim_start(s);
    let after = lemma_trim_end(trim_start(s));
    assert(s =~= before + trimmed(s) + after);
    if trimmed(s).len() > 0 {
        assert(trimmed(s).first() == trim_start(s).first());
        assert(!is_space(s[before.len() as int]));
    } else {
        assert(s =~= before + after);
    }
}

/// Trimming a trimmed text changes nothing more.
pub proof fn law_trim_is_idempotent(s: Seq<char>)
    ensures
        trimmed(trimmed(s)) == trimmed(s),
{
    law_trim_removes_the_outer_whitespace(s);
}

/// A text that neither starts nor ends with whitespace is trimmed already.
pub proof fn lemma_trimmed_already(s: Seq<char>)
    requires
        s.len() > 0 ==> !is_space(s.first()) && !is_space(s.last()),
    ensures
        trimmed(s) == s,
{
    assert(trim_start(s) == s);
    assert(trim_end(s) == s);
}

proof fn lemma_trim_start(s: Seq<char>) -> (before: Seq<char>)
    ensures
        is_blank(before),
        s == before + trim_start(s),
        trim_start(s).len() > 0 ==> !is_space(trim_start(s).first()),
    decreases s.len(),
{
    if s.len() > 0 && is_space(s.first()) {
        let rest = lemma_trim_start(s.drop_first());
        let before = seq![s.first()] + rest;
        assert(s =~= seq![s.first()] + s.drop_first());
        assert(seq![s.first()] + (rest + trim_start(s.drop_first())) =~= before + trim_start(s));
        before
    } else {
        assert(s =~= Seq::<char>::empty() + s);
        Seq::empty()
    }
}

proof fn lemma_trim_end(s: Seq<char>) -> (after: Seq<char>)
    ensures
        is_blank(after),
        s == trim_end(s) + after,
        trim_end(s).len() > 0 ==> !is_space(trim_end(s).last()),
    decreases s.len(),
{
    if s.len() > 0 && is_space(s.last()) {
        let rest = lemma_trim_end(s.drop_last());
        let after = rest.push(s.last());
        assert(s =~= s.drop_last().push(s.last()));
        assert((trim_end(s.drop_last()) + rest).push(s.last()) =~= trim_end(s) + after);
        after
    } else {
        assert(s =~= s + Seq::<char>::empty());
        Seq::empty()
    }
}

/// Whitespace around a text does not change what trimming leaves of it.
pub proof fn lemma_trim_padded(before: Seq<char>, s: Seq<char>, after: Seq<char>)
    requires
        is_blank(before),
        is_blank(after),
    ensures
        trimmed(before + s + after) == trimmed(s),
{
    assert(before + s + after =~= before + (s + after));
    lemma_trim_start_padded(before, s + after);
    law_trim_removes_the_outer_whitespace(s);
    if is_blank(s) {
        let all = s + after;
        assert(is_blank(all));
        law_trim_removes_the_outer_whitespace(all);
        assert(trimmed(all) =~= trimmed(s));
    } else {
        lemma_trim_start_front(s, after);
        lemma_trim_end_padded(trim_start(s), after);
    }
}

proof fn lemma_trim_start_padded(before: Seq<char>, s: Seq<char>)
    requires
        is_blank(before),
    ensures
        trim_start(before + s) == trim_start(s),
    decreases before.len(),
{
    if before.len() == 0 {
        assert(before + s =~= s);
    } else {
        assert((before + s).drop_first() =~= before.drop_first() + s);
        lemma_trim_start_padded(before.drop_first(), s);
    }
}

proof fn lemma_trim_start_front(s: Seq<char>, after: Seq<char>)
    requires
        !is_blank(s),
    ensures
        trim_start(s + after) == trim_start(s) + after,
    decreases s.len(),
{
    if is_space(s.first()) {
        assert((s + after).drop_first() =~= s.drop_first() + after);
        assert(!is_blank(s.drop_first())) by {
            let i = choose|i: int| 0 <= i < s.len() && !is_space(s[i]);
            assert(s.drop_first()[i - 1] == s[i]);
        }
        lemma_trim_start_front(s.drop_first(), after);
    }
}

proof fn lemma_trim_end_padded(s: Seq<char>, after: Seq<char>)
    requires
        is_blank(after),
    ensures
        trim_end(s + after) == trim_end(s),
    decreases after.len(),
{
    if after.len() == 0 {
        assert(s + after =~= s);
    } else {
        assert((s + after).drop_last() =~= s + after.drop_last());
        lemma_trim_end_padded(s, after.drop_last());
    }
}

// ---------------------------------------------------------------------------
// Searching and splitting
// ---------------------------------------------------------------------------

/// Whether `pat` stands in `s` at position `i`.
pub open spec fn occurs_at(s: Seq<char>, pat: Seq<char>, i: int) -> bool {
    0 <= i && i + pat.len() <= s.len() && s.subrange(i, i + pat.len()) == pat
}

/// Whether `i` is the first position at which `pat` stands in `s`.
pub open spec fn first_at(s: Seq<char>, pat: Seq<char>, i: int) -> bool {
    occurs_at(s, pat, i) && forall|j: int| 0 <= j < i ==> !occurs_at(s, pat, j)
}

/// What stands before and after the first `pat` in `s`; `None` when there is none.
pub open spec fn split_at_first(s: Seq<char>, pat: Seq<char>) -> Option<(Seq<char>, Seq<char>)> {
    if exists|i: int| first_at(s, pat, i) {
        let i = choose|i: int| first_at(s, pat, i);
        Some((s.take(i), s.skip(i + pat.len())))
    } else {
        None
    }
}

/// `s` without the prefix `p`, or `None` when `s` does not start with `p`.
pub open spec fn without_prefix(s: Seq<char>, p: Seq<char>) -> Option<Seq<char>> {
    if p.is_prefix_of(s) {
        Some(s.skip(p.len() as int))
    } else {
        None
    }
}

/// The split is made at the first occurrence, whichever way that is known.
pub proof fn lemma_split_at(s: Seq<char>, pat: Seq<char>, i: int)
    requires
        first_at(s, pat, i),
    ensures
        split_at_first(s, pat) == Some((s.take(i), s.skip(i + pat.len()))),
{
    let k = choose|k: int| first_at(s, pat, k);
    assert(k == i);
}

/// Without any occurrence there is no split.
pub proof fn lemma_no_split(s: Seq<char>, pat: Seq<char>)
    requires
        forall|i: int| !occurs_at(s, pat, i),
    ensures
        split_at_first(s, pat) is None,
{
}

/// What follows the first occurrence of a pattern is shorter than the text.
pub proof fn lemma_split_shrinks(s: Seq<char>, pat: Seq<char>)
    requires
        pat.len() > 0,
    ensures
        split_at_first(s, pat) matches Some((_, rest)) ==> rest.len() < s.len(),
{
}

/// Whether `pat` stands in `s` at position `i`.
fn matches_at(s: &Vec<char>, pat: &Vec<char>, i: usize) -> (found: bool)
    requires
        i + pat@.len() <= s@.len(),
    ensures
        found == occurs_at(s@, pat@, i as int),
{
    let n: usize = s.len();
    let mut k: usize = 0;
    while k < pat.len()
        invariant
            k <= pat@.len(),
            n == s@.len(),
            i + pat@.len() <= n,
            forall|j: int| 0 <= j < k ==> s@[i + j] == pat@[j],
        decreases pat@.len() - k,
    {
        if s[i + k] != pat[k] {
            assert(s@.subrange(i as int, i + pat@.len())[k as int] != pat@[k as int]);
            return false;
        }
        k += 1;
    }
    assert(s@.subrange(i as int, i + pat@.len()) =~= pat@);
    true
}

/// What stands before and after the first `pat` in `s`.
pub fn split_once<'a>(s: &'a str, pat: &str) -> (r: Option<(&'a str, &'a str)>)
    ensures
        match r {
            Some((before, after)) => split_at_first(s@, pat@) == Some((before@, after@)),
            None => split_at_first(s@, pat@) is None,
        },
{
    let chars = chars_of(s);
    let wanted = chars_of(pat);
    let n: usize = chars.len();
    let m: usize = wanted.len();
    let mut i: usize = 0;
    while i <= n && m <= n - i
        invariant
            n == chars@.len(),
            m == wanted@.len(),
            i <= n + 1,
            chars@ == s@,
            wanted@ == pat@,
            forall|j: int| 0 <= j < i ==> !occurs_at(s@, pat@, j),
        decreases n + 1 - i,
    {
        if matches_at(&chars, &wanted, i) {
            proof {
                lemma_split_at(s@, pat@, i as int);
                assert(s@.subrange(0, i as int) =~= s@.take(i as int));
                assert(s@.subrange(i + m, n as int) =~= s@.skip(i + m));
            }
            return Some((s.substring_char(0, i), s.substring_char(i + m, n)));
        }
        if i == n {
            proof {
                lemma_no_split(s@, pat@);
            }
            return None;
        }
        i += 1;
    }
    proof {
        lemma_no_split(s@, pat@);
    }
    None
}

/// Whether `s` starts with `p`.
pub fn starts_with(s: &str, p: &str) -> (b: bool)
    ensures
        b == p@.is_prefix_of(s@),
{
    let chars = chars_of(s);
    let wanted = chars_of(p);
    if wanted.len() > chars.len() {
        return false;
    }
    let b = matches_at(&chars, &wanted, 0);
    b
}

/// `s` without the prefix `p`.
pub fn strip_prefix<'a>(s: &'a str, p: &str) -> (r: Option<&'a str>)
    ensures
        match r {
            Some(rest) => without_prefix(s@, p@) == Some(rest@),
            None => without_prefix(s@, p@) is None,
        },
{
    if starts_with(s, p) {
        let n: usize = s.unicode_len();
        let from: usize = p.unicode_len();
        assert(s@.subrange(from as int, n as int) =~= s@.skip(from as int));
        Some(s.substring_char(from, n))
    } else {
        None
    }
}

// ---------------------------------------------------------------------------
// Lines
// ---------------------------------------------------------------------------

/// `line` without one carriage return at its end.
pub open spec fn without_return(line: Seq<char>) -> Seq<char> {
    if line.len() > 0 && line.last() == '\r' {
        line.drop_last()
    } else {
        line
    }
}

/// The lines of `s`. A line ends with a line feed, or a carriage return and a
/// line feed, neither of which belongs to it; the ending of the last line is
/// optional.
pub open spec fn lines_of(s: Seq<char>) -> Seq<Seq<char>>
    decreases s.len(),
{
    if s.len() == 0 {
        Seq::empty()
    } else {
        match split_at_first(s, seq!['\n']) {
            Some((line, rest)) => {
                proof {
                    lemma_split_shrinks(s, seq!['\n']);
                }
                seq![without_return(line)] + lines_of(rest)
            },
            None => seq![s],
        }
    }
}

/// The character sequences of a list of texts.
pub open spec fn texts(list: Seq<&str>) -> Seq<Seq<char>> {
    list.map_values(|t: &str| t@)
}

/// The lines of `s`, without their endings.
pub fn lines<'a>(s: &'a str) -> (r: Vec<&'a str>)
    ensures
        texts(r@) == lines_of(s@),
{
    let mut r: Vec<&'a str> = Vec::new();
    let mut rest: &'a str = s;
    assert(texts(r@) + lines_of(rest@) =~= lines_of(s@));
    while !rest.is_empty()
        invariant
            texts(r@) + lines_of(rest@) == lines_of(s@),
        decreases rest@.len(),
    {
        proof {
            reveal_strlit("\n");
            assert("\n"@ =~= seq!['\n']);
        }
        let ghost done = r@;
        proof {
            lemma_split_shrinks(rest@, seq!['\n']);
        }
        match split_once(rest, "\n") {
            Some((line, tail)) => {
                let n: usize = line.unicode_len();
                let line = if n > 0 && line.get_char(n - 1) == '\r' {
                    line.substring_char(0, n - 1)
                } else {
                    line
                };
                r.push(line);
                assert(texts(r@) =~= texts(done) + seq![line@]);
                assert(texts(r@) + lines_of(tail@) =~= texts(done) + (seq![line@] + lines_of(
                    tail@,
                )));
                rest = tail;
            },
            None => {
                r.push(rest);
                assert(texts(r@) =~= texts(done) + seq![rest@]);
                return r;
            },
        }
    }
    assert(texts(r@) + lines_of(rest@) =~= texts(r@));
    r
}

// ---------------------------------------------------------------------------
// Decimal numbers
// ---------------------------------------------------------------------------

/// The decimal digit `d`.
pub open spec fn digit(d: nat) -> char {
    (48 + d) as char
}

/// `n` in decimal digits, without leading zeros.
pub open spec fn digits(n: nat) -> Seq<char>
    decreases n,
{
    if n < 10 {
        seq![digit(n)]
    } else {
        digits(n / 10).push(digit(n % 10))
    }
}

/// `n` in decimal notation, with a minus sign when it is negative.
pub open spec fn decimal(n: int) -> Seq<char> {
    if n < 0 {
        seq!['-'] + digits((-n) as nat)
    } else {
        digits(n as nat)
    }
}

/// Appends the decimal digits of `n` to `s`.
fn push_digits(s: &mut String, n: u64)
    ensures
        final(s)@ == old(s)@ + digits(n as nat),
    decreases n,
{
    if n >= 10 {
        push_digits(s, n / 10);
    }
    s.push((48u8 + (n % 10) as u8) as char);
    proof {
        if n >= 10 {
            assert(s@ =~= old(s)@ + digits(n as nat));
        } else {
            assert(s@ =~= old(s)@ + seq![digit(n as nat)]);
        }
    }
}

/// `n` in decimal notation.
pub fn decimal_text(n: i64) -> (r: String)
    ensures
        r@ == decimal(n as int),
{
    let mut r = String::new();
    if n < 0 {
        r.push('-');
        let magnitude: u64 = (-(n + 1)) as u64 + 1;
        push_digits(&mut r, magnitude);
        assert(r@ =~= decimal(n as int));
    } else {
        push_digits(&mut r, n as u64);
        assert(r@ =~= decimal(n as int));
    }
    r
}

// ---------------------------------------------------------------------------
// Laws
// ---------------------------------------------------------------------------

/// Lower-casing goes character by character: a capital letter from A to Z becomes
/// the letter 32 places behind it, and everything else stays.
pub proof fn law_lower_goes_by_character(s: Seq<char>, i: int)
    ensures
        lower(s).len() == s.len(),
        0 <= i < s.len() && 'A' <= s[i] && s[i] <= 'Z' ==> lower(s)[i] as int == s[i] as int + 32,
        0 <= i < s.len() && !('A' <= s[i] && s[i] <= 'Z') ==> lower(s)[i] == s[i],
{
}

/// A text is blank exactly when it is made of whitespace, and trimming leaves
/// nothing of a blank text.
pub proof fn law_blank_texts(s: Seq<char>)
    ensures
        is_blank(s) <==> forall|i: int| 0 <= i < s.len() ==> is_space(#[trigger] s[i]),
        trimmed(s).len() == 0 <==> forall|i: int| 0 <= i < s.len() ==> is_space(#[trigger] s[i]),
{
    law_trim_removes_the_outer_whitespace(s);
}

/// Whatever whitespace stands around a text without outer whitespace, trimming
/// leaves that text.
pub proof fn law_trim_leaves_the_middle(before: Seq<char>, s: Seq<char>, after: Seq<char>)
    requires
        forall|i: int| 0 <= i < before.len() ==> is_space(#[trigger] before[i]),
        forall|i: int| 0 <= i < after.len() ==> is_space(#[trigger] after[i]),
        s.len() > 0 ==> !is_space(s[0]) && !is_space(s[s.len() - 1]),
    ensures
        trimmed(before + s + after) == s,
{
    lemma_trim_padded(before, s, after);
    lemma_trimmed_already(s);
}

/// A split takes a text apart at a pattern and loses nothing else: the parts and
/// the pattern between them make up the text, and the pattern starts nowhere
/// before. There is no split exactly when the pattern stands nowhere.
pub proof fn law_split_at_first(s: Seq<char>, pat: Seq<char>)
    ensures
        split_at_first(s, pat) matches Some((before, after)) ==> s == before + pat + after && forall|
            j: int,
        |
            0 <= j < before.len() && j + pat.len() <= s.len() ==> #[trigger] s.subrange(
                j,
                j + pat.len(),
            ) != pat,
        split_at_first(s, pat) is None ==> forall|j: int|
            0 <= j && j + pat.len() <= s.len() ==> #[trigger] s.subrange(j, j + pat.len()) != pat,
{
    if exists|i: int| first_at(s, pat, i) {
        let i = choose|i: int| first_at(s, pat, i);
        lemma_split_at(s, pat, i);
        assert(s =~= s.take(i) + s.subrange(i, i + pat.len()) + s.skip(i + pat.len()));
        assert forall|j: int| 0 <= j < i && j + pat.len() <= s.len() implies #[trigger] s.subrange(
            j,
            j + pat.len(),
        ) != pat by {
            assert(!occurs_at(s, pat, j));
        }
    } else {
        assert forall|j: int| 0 <= j && j + pat.len() <= s.len() implies #[trigger] s.subrange(
            j,
            j + pat.len(),
        ) != pat by {
            if s.subrange(j, j + pat.len()) == pat {
                assert(occurs_at(s, pat, j));
                let i: int = lemma_first_occurrence(s, pat, j);
                assert(first_at(s, pat, i));
            }
        }
    }
}

/// Where a pattern stands somewhere, it stands somewhere first.
pub proof fn lemma_first_occurrence(s: Seq<char>, pat: Seq<char>, k: int) -> (i: int)
    requires
        occurs_at(s, pat, k),
    ensures
        first_at(s, pat, i),
    decreases k,
{
    if exists|j: int| 0 <= j < k && occurs_at(s, pat, j) {
        let j = choose|j: int| 0 <= j < k && occurs_at(s, pat, j);
        lemma_first_occurrence(s, pat, j)
    } else {
        k
    }
}

/// Taking a prefix away undoes putting it in front, and works on nothing else.
pub proof fn law_prefix_is_taken_away(s: Seq<char>, p: Seq<char>, rest: Seq<char>)
    ensures
        without_prefix(s, p) == Some(rest) <==> s == p + rest,
        without_prefix(p + rest, p) == Some(rest),
{
    assert((p + rest).skip(p.len() as int) =~= rest);
    assert(p.is_prefix_of(p + rest));
    if without_prefix(s, p) == Some(rest) {
        assert(s =~= p + rest);
    }
}

/// Lines are taken off one by one: a line ends at its first line feed, together
/// with one carriage return in front of that. What follows the last line feed is
/// a line unless it is empty.
pub proof fn law_lines(line: Seq<char>, rest: Seq<char>)
    requires
        !line.contains('\n'),
    ensures
        lines_of(line + seq!['\r', '\n'] + rest) == seq![line] + lines_of(rest),
        line.len() == 0 || line.last() != '\r' ==> lines_of(line + seq!['\n'] + rest) == seq![line]
            + lines_of(rest),
        line.len() > 0 ==> lines_of(line) == seq![line],
        lines_of(Seq::empty()) == Seq::<Seq<char>>::empty(),
{
    let returned = line.push('\r');
    assert(!returned.contains('\n')) by {
        if returned.contains('\n') {
            let i = choose|i: int| 0 <= i < returned.len() && returned[i] == '\n';
            assert(line[i] == '\n');
        }
    }
    lemma_first_line(returned, rest);
    assert(line + seq!['\r', '\n'] + rest =~= returned + seq!['\n'] + rest);
    assert(without_return(returned) =~= line);
    lemma_first_line(line, rest);
    assert forall|j: int| !occurs_at(line, seq!['\n'], j) by {
        if occurs_at(line, seq!['\n'], j) {
            assert(line.subrange(j, j + 1)[0] == '\n');
            assert(line[j] == '\n');
        }
    }
    lemma_no_split(line, seq!['\n']);
}

/// The first line of a text ends at its first line feed.
proof fn lemma_first_line(line: Seq<char>, rest: Seq<char>)
    requires
        !line.contains('\n'),
    ensures
        lines_of(line + seq!['\n'] + rest) == seq![without_return(line)] + lines_of(rest),
{
    let s = line + seq!['\n'] + rest;
    let n = line.len() as int;
    assert(s.subrange(n, n + 1) =~= seq!['\n']);
    assert forall|j: int| 0 <= j < n implies !occurs_at(s, seq!['\n'], j) by {
        if occurs_at(s, seq!['\n'], j) {
            assert(s.subrange(j, j + 1)[0] == '\n');
            assert(line[j] == '\n');
        }
    }
    assert(first_at(s, seq!['\n'], n));
    lemma_split_at(s, seq!['\n'], n);
    assert(s.take(n) =~= line);
    assert(s.skip(n + 1) =~= rest);
}

/// The number that a row of decimal digits stands for.
pub open spec fn number_of(s: Seq<char>) -> int
    decreases s.len(),
{
    if s.len() == 0 {
        0
    } else {
        10 * number_of(s.drop_last()) + (s.last() as int - '0' as int)
    }
}

/// Digits stand for the number they were written for; there is at least one, all
/// are decimal digits, and the first is no zero unless the number is.
pub proof fn law_digits_read_back(n: nat, i: int)
    ensures
        number_of(digits(n)) == n,
        digits(n).len() > 0,
        0 <= i < digits(n).len() ==> '0' <= digits(n)[i] && digits(n)[i] <= '9',
        n > 0 ==> digits(n)[0] != '0',
        n == 0 ==> digits(n).len() == 1,
    decreases n,
{
    if n < 10 {
        assert(digits(n).drop_last() =~= Seq::empty());
        assert(number_of(Seq::empty()) == 0);
    } else {
        law_digits_read_back(n / 10, i);
        assert(digits(n).drop_last() =~= digits(n / 10));
        assert(digits(n)[0] == digits(n / 10)[0]) by {
            law_digits_read_back(n / 10, 0);
        }
    }
}

/// Decimal notation is read back: a minus sign stands in front exactly of negative
/// numbers, and digits of the magnitude follow.
pub proof fn law_decimal_reads_back(n: int)
    ensures
        n < 0 ==> decimal(n)[0] == '-' && number_of(decimal(n).drop_first()) == -n
            && decimal(n).drop_first()[0] != '0',
        n >= 0 ==> decimal(n).len() > 0 && decimal(n)[0] != '-' && number_of(decimal(n)) == n,
        n > 0 ==> decimal(n)[0] != '0',
        n == 0 ==> decimal(n).len() == 1,
        forall|i: int|
            0 <= i < decimal(n).len() && (i > 0 || n >= 0) ==> '0' <= #[trigger] decimal(n)[i]
                && decimal(n)[i] <= '9',
{
    let m = if n < 0 {
        (-n) as nat
    } else {
        n as nat
    };
    law_digits_read_back(m, 0);
    if n < 0 {
        assert(decimal(n).drop_first() =~= digits(m));
    }
    assert forall|i: int| 0 <= i < decimal(n).len() && (i > 0 || n >= 0) implies '0'
        <= #[trigger] decimal(n)[i] && decimal(n)[i] <= '9' by {
        law_digits_read_back(m, i);
        law_digits_read_back(m, i - 1);
    }
}

/// A list of texts is read text by text.
pub proof fn law_texts(list: Seq<&str>, i: int)
    ensures
        texts(list).len() == list.len(),
        0 <= i < list.len() ==> texts(list)[i] == list[i]@,
{
}

} // verus!
