//! Text primitives over character sequences: substring search, replacement of
//! every occurrence of a phrase, and ASCII case-insensitive equality.
//!
//! Contracts are stated over `Seq<char>`, the view of `str` and `String`.

use vstd::prelude::*;

verus! {

/// `needle` occurs in `hay` starting at index `at`.
pub open spec fn occurs_at(hay: Seq<char>, needle: Seq<char>, at: int) -> bool {
    &&& 0 <= at
    &&& at + needle.len() <= hay.len()
    &&& hay.subrange(at, at + needle.len()) == needle
}

/// `needle` occurs somewhere in `hay`. The empty phrase occurs in every text.
pub open spec fn contains(hay: Seq<char>, needle: Seq<char>) -> bool {
    exists|at: int| occurs_at(hay, needle, at)
}

/// `s` with every occurrence of `from` replaced by `to`, scanning from the
/// left and never looking again at what a replacement consumed. For an empty
/// `from`, `to` is put before every character and once more at the end.
pub open spec fn replaced(s: Seq<char>, from: Seq<char>, to: Seq<char>) -> Seq<char>
    decreases s.len(),
{
    if s.len() == 0 {
        if from.len() == 0 {
            to
        } else {
            s
        }
    } else if from.len() == 0 {
        to + seq![s[0]] + replaced(s.drop_first(), from, to)
    } else if occurs_at(s, from, 0) {
        to + replaced(s.skip(from.len() as int), from, to)
    } else {
        seq![s[0]] + replaced(s.drop_first(), from, to)
    }
}

/// The code of a character with the case of ASCII letters folded away: an
/// upper-case ASCII letter has the code of its lower-case form, every other
/// character its own.
pub open spec fn ascii_fold(c: char) -> u32 {
    if 'A' <= c && c <= 'Z' {
        ((c as u32) + 32) as u32
    } else {
        c as u32
    }
}

/// Equality of two texts up to the case of ASCII letters.
pub open spec fn eq_ignore_ascii_case(a: Seq<char>, b: Seq<char>) -> bool {
    &&& a.len() == b.len()
    &&& forall|i: int| 0 <= i < a.len() ==> ascii_fold(#[trigger] a[i]) == ascii_fold(b[i])
}

/// The lines of a text that is held as one string a line.
pub open spec fn text_lines(lines: Seq<String>) -> Seq<Seq<char>> {
    Seq::new(lines.len(), |i: int| lines[i]@)
}

/// The lines of a text that is held as one character vector a line.
pub open spec fn char_lines(lines: Seq<Vec<char>>) -> Seq<Seq<char>> {
    Seq::new(lines.len(), |i: int| lines[i]@)
}

/// The lower-case form that `str::to_lowercase` gives a text, by the Unicode
/// tables of the standard library.
pub uninterp spec fn lowercase(s: Seq<char>) -> Seq<char>;

/// `str::to_lowercase`: the result is the lower-case form of `s`, which this
/// library names and does not define.
#[verifier::external_body]
pub(crate) fn to_lowercase(s: &str) -> (r: String)
    ensures
        r@ == lowercase(s@),
{
    s.to_lowercase()
}

/// `String::push`: appends one character to the end of the string.
#[verifier::external_body]
pub(crate) fn push_char(s: &mut String, c: char)
    ensures
        final(s)@ == old(s)@.push(c),
{
    s.push(c)
}

/// The characters of a string slice, in order.
pub fn chars_of(s: &str) -> (v: Vec<char>)
    ensures
        v@ == s@,
{
    let mut v: Vec<char> = Vec::new();
    for c in it: s.chars()
        invariant
            v@ == it.seq().take(it.index() as int),
            it.seq() == s@,
    {
        v.push(c);
    }
    v
}

/// The string made of the given characters, in order.
pub fn string_of(chars: &Vec<char>) -> (s: String)
    ensures
        s@ == chars@,
{
    let mut s = String::new();
    let mut i: usize = 0;
    while i < chars.len()
        invariant
            i <= chars.len(),
            s@ == chars@.take(i as int),
        decreases chars.len() - i,
    {
        push_char(&mut s, chars[i]);
        i += 1;
    }
    s
}

/// Are the two character vectors equal?
pub fn chars_equal(a: &Vec<char>, b: &Vec<char>) -> (same: bool)
    ensures
        same == (a@ == b@),
{
    if a.len() != b.len() {
        return false;
    }
    let mut i: usize = 0;
    while i < a.len()
        invariant
            i <= a.len(),
            a.len() == b.len(),
            forall|j: int| 0 <= j < i ==> a@[j] == b@[j],
        decreases a.len() - i,
    {
        if a[i] != b[i] {
            return false;
        }
        i += 1;
    }
    assert(a@ =~= b@);
    true
}

/// Does `needle` occur in `hay` at index `at`?
pub fn chars_occur_at(hay: &Vec<char>, needle: &Vec<char>, at: usize) -> (b: bool)
    ensures
        b == occurs_at(hay@, needle@, at as int),
{
    if needle.len() > hay.len() || at > hay.len() - needle.len() {
        return false;
    }
    let mut k: usize = 0;
    while k < needle.len()
        invariant
            k <= needle.len(),
            at + needle.len() <= hay.len(),
            forall|j: int| 0 <= j < k ==> hay@[at + j] == needle@[j],
        decreases needle.len() - k,
    {
        if hay[at + k] != needle[k] {
            proof {
                let window = hay@.subrange(at as int, at + needle.len());
                assert(window[k as int] == hay@[at + k]);
            }
            return false;
        }
        k += 1;
    }
    proof {
        assert(hay@.subrange(at as int, at + needle.len()) =~= needle@);
    }
    true
}

/// Does `needle` occur somewhere in `hay`?
pub fn chars_contain(hay: &Vec<char>, needle: &Vec<char>) -> (b: bool)
    ensures
        b == contains(hay@, needle@),
{
    if needle.len() > hay.len() {
        return false;
    }
    let last: usize = hay.len() - needle.len();
    let mut at: usize = 0;
    while at < last
        invariant
            at <= last,
            last == hay.len() - needle.len(),
            forall|j: int| 0 <= j < at ==> !occurs_at(hay@, needle@, j),
        decreases last - at,
    {
        if chars_occur_at(hay, needle, at) {
            return true;
        }
        at += 1;
    }
    chars_occur_at(hay, needle, last)
}

/// Does the phrase `needle` occur somewhere in the text `hay`?
pub fn str_contains(hay: &str, needle: &str) -> (b: bool)
    ensures
        b == contains(hay@, needle@),
{
    let h = chars_of(hay);
    let n = chars_of(needle);
    chars_contain(&h, &n)
}

/// Unfolding `replaced` at position `at` of `hay`: what remains to be replaced
/// from `at` on, in terms of what remains after one more step.
proof fn lemma_replaced_step(hay: Seq<char>, from: Seq<char>, to: Seq<char>, at: int)
    requires
        0 <= at < hay.len(),
    ensures
        from.len() == 0 ==> replaced(hay.skip(at), from, to) == to + seq![hay[at]] + replaced(
            hay.skip(at + 1),
            from,
            to,
        ),
        from.len() > 0 && occurs_at(hay, from, at) ==> replaced(hay.skip(at), from, to) == to
            + replaced(hay.skip(at + from.len()), from, to),
        from.len() > 0 && !occurs_at(hay, from, at) ==> replaced(hay.skip(at), from, to)
            == seq![hay[at]] + replaced(hay.skip(at + 1), from, to),
{
    let rest = hay.skip(at);
    assert(rest.drop_first() =~= hay.skip(at + 1));
    assert(rest[0] == hay[at]);
    if from.len() > 0 {
        if at + from.len() <= hay.len() {
            assert(rest.subrange(0, from.len() as int) =~= hay.subrange(at, at + from.len()));
            assert(rest.skip(from.len() as int) =~= hay.skip(at + from.len()));
        }
        assert(occurs_at(rest, from, 0) == occurs_at(hay, from, at));
    }
}

/// `hay` with every occurrence of `from` replaced by `to`.
pub fn chars_replace(hay: &Vec<char>, from: &Vec<char>, to: &Vec<char>) -> (out: Vec<char>)
    ensures
        out@ == replaced(hay@, from@, to@),
{
    let mut out: Vec<char> = Vec::new();
    let mut at: usize = 0;
    assert(hay@.skip(0) =~= hay@);
    assert(out@ + replaced(hay@, from@, to@) =~= replaced(hay@, from@, to@));
    while at < hay.len()
        invariant
            at <= hay.len(),
            out@ + replaced(hay@.skip(at as int), from@, to@) == replaced(hay@, from@, to@),
        decreases hay.len() - at,
    {
        proof {
            lemma_replaced_step(hay@, from@, to@, at as int);
        }
        let ghost before = out@;
        if from.len() == 0 {
            append_chars(&mut out, to);
            out.push(hay[at]);
            assert(out@ =~= before + (to@ + seq![hay@[at as int]]));
            at += 1;
        } else if chars_occur_at(hay, from, at) {
            append_chars(&mut out, to);
            at += from.len();
        } else {
            out.push(hay[at]);
            assert(out@ =~= before + seq![hay@[at as int]]);
            at += 1;
        }
        assert(out@ + replaced(hay@.skip(at as int), from@, to@) =~= replaced(
            hay@,
            from@,
            to@,
        ));
    }
    assert(hay@.skip(at as int).len() == 0);
    if from.len() == 0 {
        append_chars(&mut out, to);
    }
    assert(out@ =~= replaced(hay@, from@, to@));
    out
}

/// Appends the characters of `extra` to `out`.
pub fn append_chars(out: &mut Vec<char>, extra: &Vec<char>)
    ensures
        final(out)@ == old(out)@ + extra@,
{
    let mut k: usize = 0;
    while k < extra.len()
        invariant
            k <= extra.len(),
            out@ == old(out)@ + extra@.take(k as int),
        decreases extra.len() - k,
    {
        out.push(extra[k]);
        k += 1;
        assert(out@ =~= old(out)@ + extra@.take(k as int));
    }
    assert(extra@.take(k as int) =~= extra@);
}

/// `input` with every occurrence of `from` replaced by `to`.
pub fn str_replace(input: &str, from: &str, to: &str) -> (out: String)
    ensures
        out@ == replaced(input@, from@, to@),
{
    let hay = chars_of(input);
    let f = chars_of(from);
    let t = chars_of(to);
    let out = chars_replace(&hay, &f, &t);
    string_of(&out)
}

/// The code of a character with the case of ASCII letters folded away.
pub fn char_ascii_fold(c: char) -> (code: u32)
    ensures
        code == ascii_fold(c),
{
    if 'A' <= c && c <= 'Z' {
        let code: u32 = c as u32;
        code + 32
    } else {
        c as u32
    }
}

/// Are the two texts equal up to the case of ASCII letters? Every position is
/// looked at, whether or not an earlier one differed.
pub fn str_eq_ignore_ascii_case(a: &str, b: &str) -> (same: bool)
    ensures
        same == eq_ignore_ascii_case(a@, b@),
{
    let x = chars_of(a);
    let y = chars_of(b);
    if x.len() != y.len() {
        return false;
    }
    let mut same = true;
    let mut i: usize = 0;
    while i < x.len()
        invariant
            i <= x.len(),
            x.len() == y.len(),
            same == (forall|j: int|
                0 <= j < i ==> ascii_fold(#[trigger] x@[j]) == ascii_fold(y@[j])),
        decreases x.len() - i,
    {
        let eq = char_ascii_fold(x[i]) == char_ascii_fold(y[i]);
        same = same && eq;
        i += 1;
    }
    same
}

} // verus!
