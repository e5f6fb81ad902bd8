//! Character sequences: conversion to and from strings.

use vstd::prelude::*;
use vstd::string::*;

verus! {

/// Appends one character to a string, by `String::push`: the string afterwards is
/// the string before followed by `c`.
#[verifier::external_body]
pub(crate) fn push_char(s: &mut String, c: char)
    ensures
        final(s)@ == old(s)@.push(c),
{
    s.push(c);
}

/// The characters of `s`, in order.
pub fn chars_of(s: &str) -> (out: Vec<char>)
    ensures
        out@ == s@,
{
    let mut out: Vec<char> = Vec::new();
    for c in it: s.chars()
        invariant
            out@ == it.seq().take(it.index() as int),
    {
        out.push(c);
    }
    out
}

/// A copy of `chars`.
pub fn copy_chars(chars: &Vec<char>) -> (out: Vec<char>)
    ensures
        out@ == chars@,
{
    let mut out: Vec<char> = Vec::new();
    let mut i: usize = 0;
    while i < chars.len()
        invariant
            i <= chars.len(),
            out@ == chars@.take(i as int),
        decreases chars.len() - i,
    {
        out.push(chars[i]);
        i += 1;
    }
    out
}

/// The string made of the characters of `chars`, in order.
pub fn string_of(chars: &Vec<char>) -> (out: String)
    ensures
        out@ == chars@,
{
    let mut out = String::new();
    let mut i: usize = 0;
    while i < chars.len()
        invariant
            i <= chars.len(),
            out@ == chars@.take(i as int),
        decreases chars.len() - i,
    {
        push_char(&mut out, chars[i]);
        i += 1;
    }
    out
}

/// Whether `c` is white space: one of the code points that Unicode gives the
/// property `White_Space`.
pub open spec fn is_space(c: char) -> bool {
    let n = c as u32;
    ||| 0x09 <= n <= 0x0D
    ||| n == 0x20
    ||| n == 0x85
    ||| n == 0xA0
    ||| n == 0x1680
    ||| 0x2000 <= n <= 0x200A
    ||| n == 0x2028
    ||| n == 0x2029
    ||| n == 0x202F
    ||| n == 0x205F
    ||| n == 0x3000
}

/// Tells whether `c` is white space.
pub fn is_whitespace(c: char) -> (b: bool)
    ensures
        b == is_space(c),
{
    let n: u32 = c as u32;
    (0x09 <= n && n <= 0x0D) || n == 0x20 || n == 0x85 || n == 0xA0 || n == 0x1680 || (0x2000 <= n
        && n <= 0x200A) || n == 0x2028 || n == 0x2029 || n == 0x202F || n == 0x205F || n == 0x3000
}

/// `s` without the white space at its end.
pub open spec fn trim_end_spec(s: Seq<char>) -> Seq<char>
    decreases s.len(),
{
    if s.len() > 0 && is_space(s.last()) {
        trim_end_spec(s.drop_last())
    } else {
        s
    }
}

/// `s` without the white space at its start.
pub open spec fn trim_start_spec(s: Seq<char>) -> Seq<char>
    decreases s.len(),
{
    if s.len() > 0 && is_space(s.first()) {
        trim_start_spec(s.drop_first())
    } else {
        s
    }
}

/// `s` without the white space at its start and at its end.
pub open spec fn trim_spec(s: Seq<char>) -> Seq<char> {
    trim_start_spec(trim_end_spec(s))
}

/// Whether `s` holds nothing but white space.
pub open spec fn is_blank(s: Seq<char>) -> bool {
    forall|i: int| 0 <= i < s.len() ==> is_space(#[trigger] s[i])
}

/// Trimming the end leaves a prefix that does not end in white space, and all that
/// it takes away is white space.
pub proof fn lemma_trim_end(s: Seq<char>)
    ensures
        trim_end_spec(s).len() <= s.len(),
        trim_end_spec(s) == s.take(trim_end_spec(s).len() as int),
        trim_end_spec(s).len() > 0 ==> !is_space(trim_end_spec(s).last()),
        forall|i: int| trim_end_spec(s).len() <= i < s.len() ==> is_space(#[trigger] s[i]),
    decreases s.len(),
{
    if s.len() > 0 && is_space(s.last()) {
        let r = s.drop_last();
        lemma_trim_end(r);
        let t = trim_end_spec(r);
        assert(t =~= s.take(t.len() as int));
        assert forall|i: int| t.len() <= i < s.len() implies is_space(#[trigger] s[i]) by {
            if i < r.len() {
                assert(s[i] == r[i]);
            }
        }
    } else {
        assert(s =~= s.take(s.len() as int));
    }
}

/// Trimming the start leaves a suffix that does not start with white space, and all
/// that it takes away is white space.
pub proof fn lemma_trim_start(s: Seq<char>)
    ensures
        trim_start_spec(s).len() <= s.len(),
        trim_start_spec(s) == s.skip(s.len() - trim_start_spec(s).len()),
        trim_start_spec(s).len() > 0 ==> !is_space(trim_start_spec(s).first()),
        forall|i: int| 0 <= i < s.len() - trim_start_spec(s).len() ==> is_space(#[trigger] s[i]),
    decreases s.len(),
{
    if s.len() > 0 && is_space(s.first()) {
        let r = s.drop_first();
        lemma_trim_start(r);
        let t = trim_start_spec(r);
        assert(t =~= s.skip(s.len() - t.len()));
        assert forall|i: int| 0 <= i < s.len() - t.len() implies is_space(#[trigger] s[i]) by {
            if i > 0 {
                assert(s[i] == r[i - 1]);
            }
        }
    } else {
        assert(s =~= s.skip(0));
    }
}

/// A text is blank exactly when trimming leaves nothing of it.
pub proof fn lemma_blank_iff_trim_empty(s: Seq<char>)
    ensures
        is_blank(s) <==> trim_spec(s).len() == 0,
        is_blank(s) <==> trim_end_spec(s).len() == 0,
{
    lemma_trim_end(s);
    let e = trim_end_spec(s);
    lemma_trim_start(e);
    if e.len() > 0 {
        assert(!is_space(e.last()));
        assert(e.last() == s[e.len() - 1]);
        if trim_start_spec(e).len() == 0 {
            assert(is_space(e[e.len() - 1]));
        }
    }
}

/// Length of `s` without the white space at its end.
pub fn trimmed_end(s: &Vec<char>) -> (end: usize)
    ensures
        end <= s@.len(),
        s@.take(end as int) == trim_end_spec(s@),
{
    let mut end: usize = s.len();
    assert(s@.take(end as int) =~= s@);
    while end > 0 && is_whitespace(s[end - 1])
        invariant
            end <= s@.len(),
            trim_end_spec(s@.take(end as int)) == trim_end_spec(s@),
        decreases end,
    {
        assert(s@.take(end as int).drop_last() =~= s@.take(end - 1));
        end -= 1;
    }
    end
}

/// Index in `s` of the first character before `end` that is not white space, or
/// `end` if there is none.
pub fn trimmed_start(s: &Vec<char>, end: usize) -> (start: usize)
    requires
        end <= s@.len(),
    ensures
        start <= end,
        s@.subrange(start as int, end as int) == trim_start_spec(s@.take(end as int)),
{
    let mut start: usize = 0;
    assert(s@.subrange(0, end as int) =~= s@.take(end as int));
    while start < end && is_whitespace(s[start])
        invariant
            start <= end <= s@.len(),
            trim_start_spec(s@.subrange(start as int, end as int)) == trim_start_spec(
                s@.take(end as int),
            ),
        decreases end - start,
    {
        assert(s@.subrange(start as int, end as int).drop_first() =~= s@.subrange(
            start + 1,
            end as int,
        ));
        start += 1;
    }
    start
}

/// `c` with an ASCII capital letter replaced by its small letter.
pub open spec fn ascii_lower(c: char) -> char {
    if 'A' <= c <= 'Z' {
        ((c as u8) + 32) as char
    } else {
        c
    }
}

/// Whether `a` and `b` are the same text but for the case of ASCII letters.
pub open spec fn eq_ignore_ascii_case(a: Seq<char>, b: Seq<char>) -> bool {
    &&& a.len() == b.len()
    &&& forall|i: int| 0 <= i < a.len() ==> ascii_lower(#[trigger] a[i]) == ascii_lower(b[i])
}

/// Maps an ASCII capital letter to its small letter and leaves other characters.
pub fn to_ascii_lower(c: char) -> (l: char)
    ensures
        l == ascii_lower(c),
{
    if 'A' <= c && c <= 'Z' {
        ((c as u8) + 32) as char
    } else {
        c
    }
}

/// Tells whether the characters of `s` from `start` up to `end` are `token` but for
/// the case of ASCII letters.
pub fn range_eq_ignore_ascii_case(s: &Vec<char>, start: usize, end: usize, token: &Vec<char>) -> (b:
    bool)
    requires
        start <= end <= s@.len(),
    ensures
        b == eq_ignore_ascii_case(s@.subrange(start as int, end as int), token@),
{
    if end - start != token.len() {
        return false;
    }
    let ghost part = s@.subrange(start as int, end as int);
    let mut i: usize = 0;
    while i < token.len()
        invariant
            start <= end <= s@.len(),
            end - start == token@.len(),
            part == s@.subrange(start as int, end as int),
            i <= token@.len(),
            forall|j: int| 0 <= j < i ==> ascii_lower(#[trigger] part[j]) == ascii_lower(token@[j]),
        decreases token.len() - i,
    {
        if to_ascii_lower(s[start + i]) != to_ascii_lower(token[i]) {
            assert(part[i as int] == s@[start + i]);
            return false;
        }
        assert(part[i as int] == s@[start + i]);
        i += 1;
    }
    true
}

/// Tells whether the characters of `s` from `start` up to `end` are those of `token`.
pub fn range_eq(s: &Vec<char>, start: usize, end: usize, token: &Vec<char>) -> (b: bool)
    requires
        start <= end <= s@.len(),
    ensures
        b == (s@.subrange(start as int, end as int) == token@),
{
    if end - start != token.len() {
        return false;
    }
    let ghost part = s@.subrange(start as int, end as int);
    let mut i: usize = 0;
    while i < token.len()
        invariant
            start <= end <= s@.len(),
            end - start == token@.len(),
            part == s@.subrange(start as int, end as int),
            i <= token@.len(),
            forall|j: int| 0 <= j < i ==> #[trigger] part[j] == token@[j],
        decreases token.len() - i,
    {
        assert(part[i as int] == s@[start + i]);
        if s[start + i] != token[i] {
            return false;
        }
        i += 1;
    }
    assert(part =~= token@);
    true
}

/// The texts of `parts` in a row with `separator` between each two of them.
pub open spec fn join_spec(parts: Seq<Seq<char>>, separator: Seq<char>) -> Seq<char>
    decreases parts.len(),
{
    if parts.len() == 0 {
        Seq::empty()
    } else if parts.len() == 1 {
        parts[0]
    } else {
        join_spec(parts.drop_last(), separator) + separator + parts.last()
    }
}

/// Joins the strings of `parts` with `separator` between each two of them.
pub fn join(parts: &Vec<String>, separator: &str) -> (out: String)
    ensures
        out@ == join_spec(parts@.map_values(|s: String| s@), separator@),
{
    let ghost texts = parts@.map_values(|s: String| s@);
    let mut out = String::new();
    let mut i: usize = 0;
    while i < parts.len()
        invariant
            i <= parts@.len(),
            texts == parts@.map_values(|s: String| s@),
            out@ == join_spec(texts.take(i as int), separator@),
        decreases parts.len() - i,
    {
        assert(texts.take(i + 1).drop_last() =~= texts.take(i as int));
        assert(texts.take(i + 1).last() == parts@[i as int]@);
        if i > 0 {
            out.append(separator);
        }
        out.append(parts[i].as_str());
        i += 1;
        assert(out@ =~= join_spec(texts.take(i as int), separator@));
    }
    assert(texts.take(i as int) =~= texts);
    out
}

} // verus!
