//! Character-level text operations: conversion between strings and character
//! vectors, whitespace trimming, substring search, and splitting into lines.
//!
//! Every operation has a mathematical definition over `Seq<char>` and an
//! executable counterpart over `Vec<char>` that is proved to compute it.

use vstd::prelude::*;

verus! {

/// Appends one character to a string. This is `String::push` of the
/// standard library.
///
/// Not proved: the documentation of `String::push` says that it appends the
/// given character to the end of the string, and the contract says the same
/// of the characters that the string holds.
#[verifier::external_body]
fn push_char(s: &mut String, c: char)
    ensures
        final(s)@ == old(s)@.push(c),
{
    s.push(c)
}

/// The characters of a string slice, in order.
pub fn to_chars(s: &str) -> (out: Vec<char>)
    ensures
        out@ == s@,
{
    let mut out: Vec<char> = Vec::new();
    for c in it: s.chars()
        invariant
            out@ == it.seq().take(it.index()),
            it.seq() == s@,
    {
        out.push(c);
    }
    out
}

/// The string made of the given characters, in order.
pub fn from_chars(chars: &Vec<char>) -> (out: String)
    ensures
        out@ == chars@,
{
    let mut out = String::new();
    let mut i: usize = 0;
    while i < chars.len()
        invariant
            i <= chars.len(),
            out@ == chars@.take(i as int),
        decreases chars.len() - i,
    {
        push_char(&mut out, chars[i]);
        i += 1;
    }
    out
}

/// The views of a sequence of character vectors.
pub open spec fn views(v: Seq<Vec<char>>) -> Seq<Seq<char>> {
    Seq::new(v.len(), |i: int| v[i]@)
}

/// The views of a sequence of strings.
pub open spec fn string_views(v: Seq<String>) -> Seq<Seq<char>> {
    Seq::new(v.len(), |i: int| v[i]@)
}

/// Whether `c` carries the Unicode `White_Space` property.
pub open spec fn is_whitespace(c: char) -> bool {
    let n = c as u32;
    ||| 0x09 <= n <= 0x0D
    ||| n == 0x20
    ||| n == 0x85
    ||| n == 0xA0
    ||| n == 0x1680
    ||| 0x2000 <= n <= 0x200A
    ||| n == 0x2028
    ||| n == 0x2029
    ||| n == 0x202F
    ||| n == 0x205F
    ||| n == 0x3000
}

/// Whether `c` carries the Unicode `White_Space` property.
pub fn char_is_whitespace(c: char) -> (r: bool)
    ensures
        r == is_whitespace(c),
{
    let n: u32 = c as u32;
    (0x09 <= n && n <= 0x0D) || n == 0x20 || n == 0x85 || n == 0xA0 || n == 0x1680 || (0x2000 <= n
        && n <= 0x200A) || n == 0x2028 || n == 0x2029 || n == 0x202F || n == 0x205F || n == 0x3000
}

/// `s` without its leading whitespace.
pub open spec fn trim_start(s: Seq<char>) -> Seq<char>
    decreases s.len(),
{
    if s.len() > 0 && is_whitespace(s[0]) {
        trim_start(s.drop_first())
    } else {
        s
    }
}

/// `s` without its trailing whitespace.
pub open spec fn trim_end(s: Seq<char>) -> Seq<char>
    decreases s.len(),
{
    if s.len() > 0 && is_whitespace(s.last()) {
        trim_end(s.drop_last())
    } else {
        s
    }
}

/// `s` without leading and trailing whitespace.
pub open spec fn trim(s: Seq<char>) -> Seq<char> {
    trim_end(trim_start(s))
}

/// Skipping `i` whitespace characters at the front does not change what
/// `trim_start` returns.
proof fn lemma_trim_start_skip(s: Seq<char>, i: int)
    requires
        0 <= i <= s.len(),
        forall|k: int| 0 <= k < i ==> is_whitespace(#[trigger] s[k]),
    ensures
        trim_start(s) == trim_start(s.subrange(i, s.len() as int)),
    decreases i,
{
    if i == 0 {
        assert(s.subrange(0, s.len() as int) =~= s);
    } else {
        let t = s.drop_first();
        assert(is_whitespace(s[0]));
        assert forall|k: int| 0 <= k < i - 1 implies is_whitespace(#[trigger] t[k]) by {
            assert(t[k] == s[k + 1]);
        }
        lemma_trim_start_skip(t, i - 1);
        assert(t.subrange(i - 1, t.len() as int) =~= s.subrange(i, s.len() as int));
    }
}

/// Dropping whitespace characters at the back, down to length `j`, does not
/// change what `trim_end` returns.
proof fn lemma_trim_end_skip(s: Seq<char>, j: int)
    requires
        0 <= j <= s.len(),
        forall|k: int| j <= k < s.len() ==> is_whitespace(#[trigger] s[k]),
    ensures
        trim_end(s) == trim_end(s.subrange(0, j)),
    decreases s.len() - j,
{
    if j == s.len() {
        assert(s.subrange(0, j) =~= s);
    } else {
        let t = s.drop_last();
        assert(is_whitespace(s.last()));
        assert forall|k: int| j <= k < t.len() implies is_whitespace(#[trigger] t[k]) by {
            assert(t[k] == s[k]);
        }
        lemma_trim_end_skip(t, j);
        assert(t.subrange(0, j) =~= s.subrange(0, j));
    }
}

/// A copy of `s` without leading and trailing whitespace.
pub fn trimmed(s: &Vec<char>) -> (out: Vec<char>)
    ensures
        out@ == trim(s@),
{
    let n = s.len();
    let mut start: usize = 0;
    while start < n && char_is_whitespace(s[start])
        invariant
            n == s.len(),
            start <= n,
            forall|k: int| 0 <= k < start ==> is_whitespace(#[trigger] s@[k]),
        decreases n - start,
    {
        start += 1;
    }
    let mut end: usize = n;
    while end > start && char_is_whitespace(s[end - 1])
        invariant
            n == s.len(),
            start <= end <= n,
            forall|k: int| end <= k < n ==> is_whitespace(#[trigger] s@[k]),
        decreases end,
    {
        end -= 1;
    }
    let mut out: Vec<char> = Vec::new();
    let mut i: usize = start;
    while i < end
        invariant
            start <= i <= end <= s.len(),
            out@ == s@.subrange(start as int, i as int),
        decreases end - i,
    {
        out.push(s[i]);
        i += 1;
    }
    proof {
        let rest = s@.subrange(start as int, n as int);
        lemma_trim_start_skip(s@, start as int);
        assert(trim_start(rest) == rest);
        assert forall|k: int| end - start <= k < rest.len() implies is_whitespace(
            #[trigger] rest[k],
        ) by {
            assert(rest[k] == s@[k + start]);
        }
        lemma_trim_end_skip(rest, end - start);
        assert(rest.subrange(0, end - start) =~= out@);
        assert(trim_end(out@) == out@);
    }
    out
}

/// Whether `s` begins with `pat`.
pub open spec fn starts_with(s: Seq<char>, pat: Seq<char>) -> bool {
    pat.len() <= s.len() && s.subrange(0, pat.len() as int) == pat
}

/// Whether the last character of `s` is `c`.
pub open spec fn ends_with_char(s: Seq<char>, c: char) -> bool {
    s.len() > 0 && s.last() == c
}

/// Whether `pat` occurs in `s` at position `i`.
pub open spec fn occurs_at(s: Seq<char>, pat: Seq<char>, i: int) -> bool {
    0 <= i && i + pat.len() <= s.len() && s.subrange(i, i + pat.len()) == pat
}

/// Whether `pat` occurs somewhere in `s`.
pub open spec fn contains(s: Seq<char>, pat: Seq<char>) -> bool {
    exists|i: int| occurs_at(s, pat, i)
}

/// Whether the character `c` occurs in `s`.
pub open spec fn contains_char(s: Seq<char>, c: char) -> bool {
    exists|i: int| 0 <= i < s.len() && s[i] == c
}

/// Whether `pat` occurs in `s` at position `i`.
pub fn has_at(s: &Vec<char>, pat: &Vec<char>, i: usize) -> (r: bool)
    ensures
        r == occurs_at(s@, pat@, i as int),
{
    let n = s.len();
    let m = pat.len();
    if i > n || m > n - i {
        return false;
    }
    let mut j: usize = 0;
    while j < m
        invariant
            n == s.len(),
            m == pat.len(),
            i + m <= n,
            j <= m,
            forall|k: int| 0 <= k < j ==> s@[i + k] == pat@[k],
        decreases m - j,
    {
        if s[i + j] != pat[j] {
            proof {
                assert(s@.subrange(i as int, i + m)[j as int] == s@[i + j]);
            }
            return false;
        }
        j += 1;
    }
    proof {
        assert(s@.subrange(i as int, i + m) =~= pat@);
    }
    true
}

/// Whether the last character of `s` is `c`.
pub fn has_last(s: &Vec<char>, c: char) -> (r: bool)
    ensures
        r == ends_with_char(s@, c),
{
    s.len() > 0 && s[s.len() - 1] == c
}

/// Whether `pat` occurs somewhere in `s`.
pub fn has_within(s: &Vec<char>, pat: &Vec<char>) -> (r: bool)
    ensures
        r == contains(s@, pat@),
{
    let n = s.len();
    let m = pat.len();
    if m > n {
        return false;
    }
    let last: usize = n - m;
    let mut i: usize = 0;
    loop
        invariant
            n == s.len(),
            m == pat.len(),
            last == n - m,
            i <= last,
            forall|k: int| 0 <= k < i ==> !occurs_at(s@, pat@, k),
        decreases last - i,
    {
        if has_at(s, pat, i) {
            return true;
        }
        if i == last {
            return false;
        }
        i += 1;
    }
}

/// Whether the character `c` occurs in `s`.
pub fn has_char(s: &Vec<char>, c: char) -> (r: bool)
    ensures
        r == contains_char(s@, c),
{
    let mut i: usize = 0;
    while i < s.len()
        invariant
            i <= s.len(),
            forall|k: int| 0 <= k < i ==> s@[k] != c,
        decreases s.len() - i,
    {
        if s[i] == c {
            return true;
        }
        i += 1;
    }
    false
}

/// The position of the first line feed in `s`, or the length of `s` when it
/// holds none.
pub open spec fn first_newline(s: Seq<char>) -> int
    decreases s.len(),
{
    if s.len() == 0 || s[0] == '\n' {
        0
    } else {
        1 + first_newline(s.drop_first())
    }
}

/// `line` without one trailing carriage return, if it has one.
pub open spec fn strip_cr(line: Seq<char>) -> Seq<char> {
    if ends_with_char(line, '\r') {
        line.drop_last()
    } else {
        line
    }
}

/// The lines of `s`. A line ends at a line feed, or at a carriage return
/// directly followed by a line feed; the terminator is not part of the line.
/// The text after the last line feed is a line of its own unless it is empty.
pub open spec fn split_lines(s: Seq<char>) -> Seq<Seq<char>>
    decreases s.len(),
{
    if s.len() == 0 {
        Seq::empty()
    } else {
        let i = first_newline(s);
        if 0 <= i < s.len() {
            seq![strip_cr(s.subrange(0, i))] + split_lines(s.subrange(i + 1, s.len() as int))
        } else {
            seq![s]
        }
    }
}

/// The text in which every line of `lines` is followed by a line feed.
pub open spec fn join_lines(lines: Seq<Seq<char>>) -> Seq<char>
    decreases lines.len(),
{
    if lines.len() == 0 {
        Seq::empty()
    } else {
        join_lines(lines.drop_last()) + lines.last() + seq!['\n']
    }
}

/// `first_newline` is the first position that holds a line feed.
pub proof fn lemma_first_newline(s: Seq<char>)
    ensures
        0 <= first_newline(s) <= s.len(),
        forall|k: int| 0 <= k < first_newline(s) ==> #[trigger] s[k] != '\n',
        first_newline(s) < s.len() ==> s[first_newline(s)] == '\n',
    decreases s.len(),
{
    if s.len() == 0 || s[0] == '\n' {
    } else {
        let t = s.drop_first();
        lemma_first_newline(t);
        assert forall|k: int| 0 <= k < first_newline(s) implies #[trigger] s[k] != '\n' by {
            if k > 0 {
                assert(s[k] == t[k - 1]);
            }
        }
    }
}

/// A position that holds a line feed and has none before it is the first.
pub proof fn lemma_first_newline_is(s: Seq<char>, i: int)
    requires
        0 <= i <= s.len(),
        forall|k: int| 0 <= k < i ==> #[trigger] s[k] != '\n',
        i < s.len() ==> s[i] == '\n',
    ensures
        first_newline(s) == i,
{
    lemma_first_newline(s);
    let f = first_newline(s);
    if f < i {
        assert(s[f] == '\n');
    } else if f > i {
        assert(s[i] != '\n');
    }
}

/// The lines of a text, as `split_lines` defines them.
pub fn lines_of(content: &Vec<char>) -> (out: Vec<Vec<char>>)
    ensures
        views(out@) == split_lines(content@),
{
    let n = content.len();
    let mut out: Vec<Vec<char>> = Vec::new();
    let mut line: Vec<char> = Vec::new();
    let mut start: usize = 0;
    let mut pos: usize = 0;
    proof {
        assert(content@.subrange(0, n as int) =~= content@);
        assert(views(out@) + split_lines(content@) =~= split_lines(content@));
    }
    while pos < n
        invariant
            n == content.len(),
            start <= pos <= n,
            line@ == content@.subrange(start as int, pos as int),
            forall|k: int| start <= k < pos ==> #[trigger] content@[k] != '\n',
            split_lines(content@) == views(out@) + split_lines(
                content@.subrange(start as int, n as int),
            ),
        decreases n - pos,
    {
        let c = content[pos];
        if c == '\n' {
            let ghost rest = content@.subrange(start as int, n as int);
            let ghost before = views(out@);
            let ghost begin = start as int;
            proof {
                assert forall|k: int| 0 <= k < pos - start implies #[trigger] rest[k] != '\n' by {
                    assert(rest[k] == content@[start + k]);
                }
                lemma_first_newline_is(rest, pos - start);
                assert(rest.subrange(0, pos - start) =~= line@);
                assert(rest.subrange(pos - start + 1, rest.len() as int) =~= content@.subrange(
                    pos + 1,
                    n as int,
                ));
            }
            if has_last(&line, '\r') {
                line.pop();
            }
            out.push(line);
            line = Vec::new();
            start = pos + 1;
            proof {
                assert(views(out@) =~= before + seq![strip_cr(content@.subrange(begin, pos as int))]);
                assert(content@.subrange(start as int, start as int) =~= Seq::<char>::empty());
            }
        } else {
            line.push(c);
            proof {
                assert(content@.subrange(start as int, pos + 1) =~= content@.subrange(
                    start as int,
                    pos as int,
                ).push(c));
            }
        }
        pos += 1;
    }
    proof {
        let rest = content@.subrange(start as int, n as int);
        if start < n {
            assert forall|k: int| 0 <= k < rest.len() implies #[trigger] rest[k] != '\n' by {
                assert(rest[k] == content@[start + k]);
            }
            lemma_first_newline_is(rest, rest.len() as int);
        }
    }
    if start < n {
        let ghost before = views(out@);
        out.push(line);
        proof {
            assert(views(out@) =~= before + seq![content@.subrange(start as int, n as int)]);
        }
    } else {
        proof {
            assert(views(out@) + Seq::<Seq<char>>::empty() =~= views(out@));
        }
    }
    out
}

/// Whether `s` begins with the characters of `pat`.
pub fn has_prefix_str(s: &Vec<char>, pat: &str) -> (r: bool)
    ensures
        r == starts_with(s@, pat@),
{
    let mut i: usize = 0;
    for c in it: pat.chars()
        invariant
            i == it.index(),
            it.seq() == pat@,
            i <= s.len(),
            forall|k: int| 0 <= k < i ==> s@[k] == pat@[k],
    {
        if i >= s.len() {
            return false;
        }
        if s[i] != c {
            proof {
                if pat@.len() <= s@.len() {
                    assert(s@.subrange(0, pat@.len() as int)[i as int] == s@[i as int]);
                }
            }
            return false;
        }
        i += 1;
    }
    proof {
        assert(s@.subrange(0, pat@.len() as int) =~= pat@);
    }
    true
}

/// Whether the characters of `pat` occur somewhere in `s`.
pub fn has_within_str(s: &Vec<char>, pat: &str) -> (r: bool)
    ensures
        r == contains(s@, pat@),
{
    let p = to_chars(pat);
    has_within(s, &p)
}

/// Whether `l` can be a line: it holds no line feed.
pub open spec fn is_line(l: Seq<char>) -> bool {
    forall|k: int| 0 <= k < l.len() ==> #[trigger] l[k] != '\n'
}

/// Whether every line of `s` ends in a bare line feed: `s` is empty or ends
/// in a line feed, and no line feed follows a carriage return.
pub open spec fn plain_line_ends(s: Seq<char>) -> bool {
    &&& s.len() == 0 || s.last() == '\n'
    &&& forall|i: int| 0 < i < s.len() && #[trigger] s[i] == '\n' ==> s[i - 1] != '\r'
}

/// Joining puts the first line, then a line feed, then the other lines.
pub proof fn lemma_join_front(l: Seq<char>, rest: Seq<Seq<char>>)
    ensures
        join_lines(seq![l] + rest) == l + seq!['\n'] + join_lines(rest),
    decreases rest.len(),
{
    let all = seq![l] + rest;
    if rest.len() == 0 {
        assert(all.drop_last() =~= Seq::<Seq<char>>::empty());
        assert(join_lines(all.drop_last()) =~= Seq::<char>::empty());
        assert(join_lines(all) =~= l + seq!['\n'] + join_lines(rest));
    } else {
        lemma_join_front(l, rest.drop_last());
        assert(all.drop_last() =~= seq![l] + rest.drop_last());
        assert(all.last() == rest.last());
        assert(join_lines(all) =~= l + seq!['\n'] + join_lines(rest));
    }
}

/// Every line that `split_lines` gives holds no line feed.
pub proof fn lemma_split_gives_lines(s: Seq<char>)
    ensures
        forall|k: int| 0 <= k < split_lines(s).len() ==> is_line(#[trigger] split_lines(s)[k]),
    decreases s.len(),
{
    if s.len() > 0 {
        lemma_first_newline(s);
        let i = first_newline(s);
        if i < s.len() {
            let rest = s.subrange(i + 1, s.len() as int);
            lemma_split_gives_lines(rest);
            let head = strip_cr(s.subrange(0, i));
            assert forall|j: int| 0 <= j < head.len() implies #[trigger] head[j] != '\n' by {
                assert(head[j] == s[j]);
            }
            assert(is_line(head));
            assert forall|k: int| 0 <= k < split_lines(s).len() implies is_line(
                #[trigger] split_lines(s)[k],
            ) by {
                if k > 0 {
                    assert(split_lines(s)[k] == split_lines(rest)[k - 1]);
                }
            }
        } else {
            assert(is_line(s));
        }
    }
}

/// Splitting what `join_lines` made gives the lines back, provided that
/// each of them is a line and none ends in a carriage return.
pub proof fn lemma_split_of_join(lines: Seq<Seq<char>>)
    requires
        forall|k: int| 0 <= k < lines.len() ==> is_line(#[trigger] lines[k]),
        forall|k: int| 0 <= k < lines.len() ==> !ends_with_char(#[trigger] lines[k], '\r'),
    ensures
        split_lines(join_lines(lines)) == lines,
    decreases lines.len(),
{
    if lines.len() == 0 {
        assert(split_lines(join_lines(lines)) =~= lines);
    } else {
        let l = lines[0];
        let rest = lines.drop_first();
        assert(lines =~= seq![l] + rest);
        lemma_join_front(l, rest);
        let text = join_lines(lines);
        assert(text == l + seq!['\n'] + join_lines(rest));
        assert(is_line(l));
        assert forall|k: int| 0 <= k < l.len() implies #[trigger] text[k] != '\n' by {
            assert(text[k] == l[k]);
        }
        assert(text[l.len() as int] == '\n');
        lemma_first_newline_is(text, l.len() as int);
        assert(text.subrange(0, l.len() as int) =~= l);
        assert(text.subrange(l.len() as int + 1, text.len() as int) =~= join_lines(rest));
        assert(!ends_with_char(lines[0], '\r'));
        assert forall|k: int| 0 <= k < rest.len() implies is_line(#[trigger] rest[k]) by {
            assert(rest[k] == lines[k + 1]);
        }
        assert forall|k: int| 0 <= k < rest.len() implies !ends_with_char(
            #[trigger] rest[k],
            '\r',
        ) by {
            assert(rest[k] == lines[k + 1]);
        }
        lemma_split_of_join(rest);
        assert(split_lines(text) =~= lines);
    }
}

/// Joining the lines of a text whose lines all end in a bare line feed
/// gives the text back.
pub proof fn lemma_join_of_split(s: Seq<char>)
    requires
        plain_line_ends(s),
    ensures
        join_lines(split_lines(s)) == s,
    decreases s.len(),
{
    if s.len() == 0 {
        assert(join_lines(split_lines(s)) =~= s);
    } else {
        lemma_first_newline(s);
        let i = first_newline(s);
        if i == s.len() {
            assert(s[s.len() - 1] != '\n');
        }
        let line = s.subrange(0, i);
        let rest = s.subrange(i + 1, s.len() as int);
        if ends_with_char(line, '\r') {
            assert(line.last() == s[i - 1]);
            assert(s[i] == '\n');
        }
        assert(strip_cr(line) == line);
        assert(plain_line_ends(rest)) by {
            if rest.len() > 0 {
                assert(rest.last() == s.last());
            }
            assert forall|k: int| 0 < k < rest.len() && #[trigger] rest[k] == '\n' implies rest[k
                - 1] != '\r' by {
                assert(rest[k] == s[i + 1 + k]);
                assert(rest[k - 1] == s[i + k]);
            }
        }
        lemma_join_of_split(rest);
        lemma_join_front(line, split_lines(rest));
        assert(line + seq!['\n'] + rest =~= s);
    }
}

/// A text has at most as many lines as characters.
pub proof fn lemma_split_lines_len(s: Seq<char>)
    ensures
        split_lines(s).len() <= s.len(),
    decreases s.len(),
{
    if s.len() > 0 {
        lemma_first_newline(s);
        let i = first_newline(s);
        if i < s.len() {
            lemma_split_lines_len(s.subrange(i + 1, s.len() as int));
        }
    }
}

/// Appends the string `s` to the list `v`.
pub fn push_text(v: &mut Vec<String>, s: String)
    ensures
        string_views(final(v)@) == string_views(old(v)@).push(s@),
{
    let ghost before = v@;
    v.push(s);
    proof {
        assert(string_views(v@) =~= string_views(before).push(s@));
    }
}

/// Appends a copy of the string slice `s` to the list `v`.
pub fn push_str(v: &mut Vec<String>, s: &str)
    ensures
        string_views(final(v)@) == string_views(old(v)@).push(s@),
{
    push_text(v, s.to_owned());
}

/// The text `a` followed by the text `b`.
pub fn glue(a: &str, b: &str) -> (r: String)
    ensures
        r@ == a@ + b@,
{
    let mut r = a.to_owned();
    r.append(b);
    r
}

/// The texts `a`, `b` and `c` one after the other.
pub fn glue3(a: &str, b: &str, c: &str) -> (r: String)
    ensures
        r@ == a@ + b@ + c@,
{
    let mut r = a.to_owned();
    r.append(b);
    r.append(c);
    r
}

/// What the standard library writes for a list of strings under the `{:?}`
/// format: the items in square brackets, separated by a comma and a space,
/// each in double quotes with its special characters escaped.
pub uninterp spec fn debug_text(items: Seq<Seq<char>>) -> Seq<char>;

/// The text of a list of strings for a log line. This is `format!` of the
/// standard library with `{:?}`, the `Debug` format of `Vec<String>`.
///
/// Not proved: the text depends on the strings alone and is named
/// `debug_text`, not spelled out, because the escaping of special
/// characters takes pages to state.
#[verifier::external_body]
pub(crate) fn debug_list(items: &Vec<String>) -> (r: String)
    ensures
        r@ == debug_text(string_views(items@)),
{
    format!("{:?}", items)
}

} // verus!
