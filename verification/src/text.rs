//! Character-level text utilities shared by the formatters and parsers of the
//! library: splitting into lines, trimming, searching, and decimal numbers.
//!
//! Strings are handled as sequences of `char`, which is what `String::view`
//! gives in contracts.
use vstd::prelude::*;
use vstd::utf8::{decode_utf8, encode_utf8, is_char_boundary};
use vstd::string::StringSliceAdditionalSpecFns;

verus! {

// ---------------------------------------------------------------------------
// Conversions between `str`/`String` and `Vec<char>`
// ---------------------------------------------------------------------------

/// Appends one character to a string (`String::push`).
#[verifier::external_body]
pub(crate) fn push_char(s: &mut String, c: char)
    ensures
        final(s)@ == old(s)@.push(c),
{
    s.push(c);
}

/// The characters of the first `n` bytes of the UTF-8 encoding of `s`; all
/// of `s` when it is no longer than that.
pub open spec fn byte_prefix(s: Seq<char>, n: nat) -> Seq<char> {
    if encode_utf8(s).len() > n {
        decode_utf8(encode_utf8(s).subrange(0, n as int))
    } else {
        s
    }
}

/// Whether the UTF-8 encoding of `s` can be cut after `n` bytes: it is no
/// longer than that, or byte `n` starts a character.
pub open spec fn cuts_cleanly(s: Seq<char>, n: nat) -> bool {
    encode_utf8(s).len() > n ==> is_char_boundary(encode_utf8(s), n as int)
}

/// Whether the UTF-8 encoding of `s` has at least `n` bytes and byte `n`
/// starts a character (or ends the text).
pub open spec fn cuts_exactly(s: Seq<char>, n: nat) -> bool {
    encode_utf8(s).len() >= n && is_char_boundary(encode_utf8(s), n as int)
}

/// The first `n` bytes of `s` (all of `s` when it is shorter).
pub fn byte_prefix_of(s: &str, n: usize) -> (r: String)
    requires
        cuts_cleanly(s@, n as nat),
    ensures
        r@ == byte_prefix(s@, n as nat),
{
    broadcast use vstd::utf8::encode_utf8_decode_utf8;

    let bytes = s.as_bytes();
    if bytes.len() > n {
        let (head, _tail) = s.split_at(n);
        assert(head@ == decode_utf8(head.spec_bytes()));
        head.to_owned()
    } else {
        s.to_owned()
    }
}

/// The characters of `s`, in order.
pub fn chars_of(s: &str) -> (v: Vec<char>)
    ensures
        v@ == s@,
{
    let n = s.unicode_len();
    let mut v: Vec<char> = Vec::new();
    let mut i: usize = 0;
    while i < n
        invariant
            n == s@.len(),
            i <= n,
            v@ == s@.take(i as int),
        decreases n - i,
    {
        let c = s.get_char(i);
        v.push(c);
        assert(s@.take(i + 1) =~= s@.take(i as int).push(c));
        i += 1;
    }
    assert(s@.take(n as int) =~= s@);
    v
}

/// The string made of the characters of `v`.
pub fn string_from_chars(v: &[char]) -> (s: String)
    ensures
        s@ == v@,
{
    let mut s = String::new();
    let mut i: usize = 0;
    while i < v.len()
        invariant
            i <= v.len(),
            s@ == v@.take(i as int),
        decreases v.len() - i,
    {
        push_char(&mut s, v[i]);
        assert(v@.take(i + 1) =~= v@.take(i as int).push(v@[i as int]));
        i += 1;
    }
    assert(v@.take(v.len() as int) =~= v@);
    s
}

/// Appends the characters of `src` to `dst`.
pub fn extend_chars(dst: &mut Vec<char>, src: &[char])
    ensures
        final(dst)@ == old(dst)@ + src@,
{
    let mut i: usize = 0;
    while i < src.len()
        invariant
            i <= src.len(),
            dst@ == old(dst)@ + src@.take(i as int),
        decreases src.len() - i,
    {
        dst.push(src[i]);
        assert(src@.take(i + 1) =~= src@.take(i as int).push(src@[i as int]));
        i += 1;
    }
    assert(src@.take(src.len() as int) =~= src@);
}

/// Appends the characters of `src` to `dst`.
pub fn extend_str(dst: &mut Vec<char>, src: &str)
    ensures
        final(dst)@ == old(dst)@ + src@,
{
    let v = chars_of(src);
    extend_chars(dst, &v);
}

/// The characters `v[lo..hi]`.
pub fn sub_chars(v: &[char], lo: usize, hi: usize) -> (r: Vec<char>)
    requires
        lo <= hi <= v.len(),
    ensures
        r@ == v@.subrange(lo as int, hi as int),
{
    let mut r: Vec<char> = Vec::new();
    let mut i: usize = lo;
    while i < hi
        invariant
            lo <= i <= hi <= v.len(),
            r@ == v@.subrange(lo as int, i as int),
        decreases hi - i,
    {
        r.push(v[i]);
        assert(v@.subrange(lo as int, i + 1) =~= v@.subrange(lo as int, i as int).push(v@[i as int]));
        i += 1;
    }
    r
}

/// Copies a vector of characters.
pub fn copy_chars(v: &[char]) -> (r: Vec<char>)
    ensures
        r@ == v@,
{
    let r = sub_chars(v, 0, v.len());
    assert(v@.subrange(0, v@.len() as int) =~= v@);
    r
}

// ---------------------------------------------------------------------------
// Equality, prefixes and search
// ---------------------------------------------------------------------------

/// Whether two character sequences are equal.
pub fn chars_eq(a: &[char], b: &[char]) -> (r: bool)
    ensures
        r == (a@ == b@),
{
    if a.len() != b.len() {
        return false;
    }
    let mut i: usize = 0;
    while i < a.len()
        invariant
            a.len() == b.len(),
            i <= a.len(),
            forall|j: int| 0 <= j < i ==> a@[j] == b@[j],
        decreases a.len() - i,
    {
        if a[i] != b[i] {
            return false;
        }
        i += 1;
    }
    assert(a@ =~= b@);
    true
}

/// Whether the characters of `v` spell `lit`.
pub fn chars_are(v: &[char], lit: &str) -> (r: bool)
    ensures
        r == (v@ == lit@),
{
    let l = chars_of(lit);
    chars_eq(v, &l)
}

/// `p` is a prefix of `s`.
pub open spec fn is_prefix(p: Seq<char>, s: Seq<char>) -> bool {
    p.len() <= s.len() && s.take(p.len() as int) == p
}

/// Whether `p` is a prefix of `v`.
pub fn has_prefix(v: &[char], p: &[char]) -> (r: bool)
    ensures
        r == is_prefix(p@, v@),
{
    if p.len() > v.len() {
        return false;
    }
    let mut i: usize = 0;
    while i < p.len()
        invariant
            p.len() <= v.len(),
            i <= p.len(),
            forall|j: int| 0 <= j < i ==> v@[j] == p@[j],
        decreases p.len() - i,
    {
        if v[i] != p[i] {
            assert(v@.take(p.len() as int)[i as int] != p@[i as int]);
            return false;
        }
        i += 1;
    }
    assert(v@.take(p.len() as int) =~= p@);
    true
}

/// Whether `lit` is a prefix of `v`.
pub fn has_prefix_str(v: &[char], lit: &str) -> (r: bool)
    ensures
        r == is_prefix(lit@, v@),
{
    let p = chars_of(lit);
    has_prefix(v, &p)
}

/// `needle` occurs in `hay` at position `i`.
pub open spec fn occurs_at(hay: Seq<char>, needle: Seq<char>, i: int) -> bool {
    0 <= i && i + needle.len() <= hay.len() && hay.subrange(i, i + needle.len()) == needle
}

/// `needle` occurs somewhere in `hay` (`str::contains`).
pub open spec fn contains_seq(hay: Seq<char>, needle: Seq<char>) -> bool {
    exists|i: int| occurs_at(hay, needle, i)
}

/// Whether `needle` occurs at position `i` of `hay`.
fn occurs_at_exec(hay: &[char], needle: &[char], i: usize) -> (r: bool)
    requires
        i + needle.len() <= hay.len(),
    ensures
        r == occurs_at(hay@, needle@, i as int),
{
    let mut k: usize = 0;
    while k < needle.len()
        invariant
            i + needle.len() <= hay.len(),
            k <= needle.len(),
            forall|j: int| 0 <= j < k ==> hay@[i + j] == needle@[j],
        decreases needle.len() - k,
    {
        if hay[i + k] != needle[k] {
            assert(hay@.subrange(i as int, i + needle.len())[k as int] != needle@[k as int]);
            return false;
        }
        k += 1;
    }
    assert(hay@.subrange(i as int, i + needle.len()) =~= needle@);
    true
}

/// Whether `needle` occurs in `hay`.
pub fn contains_chars(hay: &[char], needle: &[char]) -> (r: bool)
    ensures
        r == contains_seq(hay@, needle@),
{
    if needle.len() > hay.len() {
        assert forall|i: int| !occurs_at(hay@, needle@, i) by {}
        return false;
    }
    if needle.len() == 0 {
        assert(hay@.subrange(0, 0) =~= needle@);
        assert(occurs_at(hay@, needle@, 0));
        return true;
    }
    let last = hay.len() - needle.len();
    let mut i: usize = 0;
    while i <= last
        invariant
            0 < needle.len() <= hay.len(),
            last == hay.len() - needle.len(),
            i <= last + 1,
            forall|j: int| 0 <= j < i ==> !occurs_at(hay@, needle@, j),
        decreases hay.len() - i,
    {
        if occurs_at_exec(hay, needle, i) {
            return true;
        }
        i += 1;
    }
    assert forall|j: int| !occurs_at(hay@, needle@, j) by {
        if 0 <= j && j + needle@.len() <= hay@.len() {
            assert(j < i);
        }
    }
    false
}

/// Whether `lit` occurs in `hay`.
pub fn contains_str(hay: &[char], lit: &str) -> (r: bool)
    ensures
        r == contains_seq(hay@, lit@),
{
    let n = chars_of(lit);
    contains_chars(hay, &n)
}

/// Index of the first occurrence of `needle` in `hay` (`str::find`).
#[verifier::opaque]
pub open spec fn first_occurrence(hay: Seq<char>, needle: Seq<char>) -> Option<int> {
    if contains_seq(hay, needle) {
        Some(choose|i: int| occurs_at(hay, needle, i) && forall|j: int| 0 <= j < i ==> !occurs_at(hay, needle, j))
    } else {
        None
    }
}

/// The first position of `lit` in `hay`.
pub fn find_str(hay: &[char], lit: &str) -> (r: Option<usize>)
    ensures
        r matches Some(i) ==> first_occurrence(hay@, lit@) == Some(i as int) && occurs_at(hay@, lit@, i as int),
        r is None ==> first_occurrence(hay@, lit@) is None,
{
    let needle = chars_of(lit);
    if needle.len() > hay.len() {
        assert forall|i: int| !occurs_at(hay@, needle@, i) by {}
        assert(first_occurrence(hay@, lit@) is None) by {
            reveal(first_occurrence);
        }
        return None;
    }
    if needle.len() == 0 {
        assert(hay@.subrange(0, 0) =~= needle@);
        proof {
            reveal(first_occurrence);
            let w = choose|k: int| occurs_at(hay@, needle@, k) && forall|j: int| 0 <= j < k ==> !occurs_at(hay@, needle@, j);
            assert(occurs_at(hay@, needle@, 0));
            if w > 0 { assert(!occurs_at(hay@, needle@, 0)); }
        }
        return Some(0);
    }
    let last = hay.len() - needle.len();
    let mut i: usize = 0;
    while i <= last
        invariant
            needle@ == lit@,
            0 < needle.len() <= hay.len(),
            last == hay.len() - needle.len(),
            i <= last + 1,
            forall|j: int| 0 <= j < i ==> !occurs_at(hay@, needle@, j),
        decreases hay.len() - i,
    {
        if occurs_at_exec(hay, &needle, i) {
            proof {
                reveal(first_occurrence);
                let w = choose|k: int| occurs_at(hay@, needle@, k) && forall|j: int| 0 <= j < k ==> !occurs_at(hay@, needle@, j);
                assert(occurs_at(hay@, needle@, i as int) && forall|j: int| 0 <= j < i ==> !occurs_at(hay@, needle@, j));
                if w < i { assert(!occurs_at(hay@, needle@, w)); }
                if w > i { assert(!occurs_at(hay@, needle@, i as int)); }
            }
            return Some(i);
        }
        i += 1;
    }
    assert forall|j: int| !occurs_at(hay@, needle@, j) by {
        if 0 <= j && j + needle@.len() <= hay@.len() {
            assert(j < i);
        }
    }
    assert(first_occurrence(hay@, lit@) is None) by {
        reveal(first_occurrence);
    }
    None
}

/// Index of the first occurrence of `c` in `s`, if any.
pub open spec fn first_index_of(s: Seq<char>, c: char) -> Option<int> {
    if exists|i: int| 0 <= i < s.len() && s[i] == c {
        Some(choose|i: int| 0 <= i < s.len() && s[i] == c && forall|j: int| 0 <= j < i ==> s[j] != c)
    } else {
        None
    }
}

/// The first position of `c` in `v` (`str::find` with a `char`).
pub fn find_char(v: &[char], c: char) -> (r: Option<usize>)
    ensures
        match r {
            Some(i) => i < v.len() && v@[i as int] == c && forall|j: int| 0 <= j < i ==> v@[j] != c,
            None => forall|j: int| 0 <= j < v.len() ==> v@[j] != c,
        },
        r matches Some(i) ==> first_index_of(v@, c) == Some(i as int),
        r is None ==> first_index_of(v@, c) is None,
{
    let mut i: usize = 0;
    while i < v.len()
        invariant
            i <= v.len(),
            forall|j: int| 0 <= j < i ==> v@[j] != c,
        decreases v.len() - i,
    {
        if v[i] == c {
            proof {
                let w = choose|k: int| 0 <= k < v@.len() && v@[k] == c && forall|j: int| 0 <= j < k ==> v@[j] != c;
                assert(0 <= i < v@.len() && v@[i as int] == c && forall|j: int| 0 <= j < i ==> v@[j] != c);
                if w < i { assert(v@[w] != c); }
                if w > i { assert(v@[i as int] != c); }
            }
            return Some(i);
        }
        i += 1;
    }
    None
}

// ---------------------------------------------------------------------------
// Whitespace and trimming (`char::is_whitespace`, `str::trim`)
// ---------------------------------------------------------------------------

/// The characters with the Unicode `White_Space` property, which is what
/// `char::is_whitespace` tests.
pub open spec fn is_white_space(c: char) -> bool {
    ||| ('\u{9}' <= c <= '\u{d}')
    ||| c == ' '
    ||| c == '\u{85}'
    ||| c == '\u{a0}'
    ||| c == '\u{1680}'
    ||| ('\u{2000}' <= c <= '\u{200a}')
    ||| c == '\u{2028}'
    ||| c == '\u{2029}'
    ||| c == '\u{202f}'
    ||| c == '\u{205f}'
    ||| c == '\u{3000}'
}

/// Whether `c` is white space.
pub fn white_space(c: char) -> (r: bool)
    ensures
        r == is_white_space(c),
{
    ('\u{9}' <= c && c <= '\u{d}') || c == ' ' || c == '\u{85}' || c == '\u{a0}' || c == '\u{1680}'
        || ('\u{2000}' <= c && c <= '\u{200a}') || c == '\u{2028}' || c == '\u{2029}' || c
        == '\u{202f}' || c == '\u{205f}' || c == '\u{3000}'
}

/// `s` without its leading white space.
pub open spec fn trim_start_seq(s: Seq<char>) -> Seq<char>
    decreases s.len(),
{
    if s.len() > 0 && is_white_space(s[0]) {
        trim_start_seq(s.drop_first())
    } else {
        s
    }
}

/// `s` without its trailing white space.
pub open spec fn trim_end_seq(s: Seq<char>) -> Seq<char>
    decreases s.len(),
{
    if s.len() > 0 && is_white_space(s.last()) {
        trim_end_seq(s.drop_last())
    } else {
        s
    }
}

/// `s` without leading and trailing white space (`str::trim`).
pub open spec fn trim_seq(s: Seq<char>) -> Seq<char> {
    trim_end_seq(trim_start_seq(s))
}

/// `v` without leading and trailing white space.
pub fn trim_chars(v: &[char]) -> (r: Vec<char>)
    ensures
        r@ == trim_seq(v@),
{
    let mut lo: usize = 0;
    assert(v@.skip(0) =~= v@);
    while lo < v.len() && white_space(v[lo])
        invariant
            lo <= v.len(),
            trim_start_seq(v@) == trim_start_seq(v@.skip(lo as int)),
        decreases v.len() - lo,
    {
        assert(v@.skip(lo as int).drop_first() =~= v@.skip(lo + 1));
        lo += 1;
    }
    let ghost start = v@.skip(lo as int);
    assert(trim_start_seq(start) == start);
    let mut hi: usize = v.len();
    while hi > lo && white_space(v[hi - 1])
        invariant
            lo <= hi <= v.len(),
            start == v@.skip(lo as int),
            trim_end_seq(start) == trim_end_seq(v@.subrange(lo as int, hi as int)),
        decreases hi,
    {
        assert(v@.subrange(lo as int, hi as int).drop_last() =~= v@.subrange(lo as int, hi - 1));
        hi -= 1;
    }
    assert(start =~= v@.subrange(lo as int, v@.len() as int));
    let r = sub_chars(v, lo, hi);
    r
}

// ---------------------------------------------------------------------------
// Lines (`str::lines`)
// ---------------------------------------------------------------------------

/// The pieces of `s` between occurrences of `d` (always at least one).
pub open spec fn split_on(s: Seq<char>, d: char) -> Seq<Seq<char>>
    decreases s.len(),
{
    if s.len() == 0 {
        seq![Seq::<char>::empty()]
    } else {
        let p = split_on(s.drop_last(), d);
        if s.last() == d {
            p.push(Seq::<char>::empty())
        } else {
            p.update(p.len() - 1, p.last().push(s.last()))
        }
    }
}

pub proof fn lemma_split_on_nonempty(s: Seq<char>, d: char)
    ensures
        split_on(s, d).len() >= 1,
    decreases s.len(),
{
    if s.len() > 0 {
        lemma_split_on_nonempty(s.drop_last(), d);
    }
}

/// A line ended by `"\r\n"` loses its `'\r'`.
pub open spec fn strip_cr(l: Seq<char>) -> Seq<char> {
    if l.len() > 0 && l.last() == '\r' {
        l.drop_last()
    } else {
        l
    }
}

/// The pieces of `v` between occurrences of `d` (`str::split` with a `char`).
pub fn split_chars(v: &[char], d: char) -> (r: Vec<Vec<char>>)
    ensures
        views(r@) == split_on(v@, d),
{
    let mut done: Vec<Vec<char>> = Vec::new();
    let mut cur: Vec<char> = Vec::new();
    let mut i: usize = 0;
    assert(v@.take(0) =~= Seq::<char>::empty());
    while i < v.len()
        invariant
            i <= v.len(),
            views(done@).push(cur@) =~= split_on(v@.take(i as int), d),
        decreases v.len() - i,
    {
        let c = v[i];
        let ghost before = split_on(v@.take(i as int), d);
        assert(v@.take(i + 1).drop_last() =~= v@.take(i as int));
        assert(v@.take(i + 1).last() == c);
        if c == d {
            let finished = cur;
            done.push(finished);
            cur = Vec::new();
        } else {
            cur.push(c);
        }
        i += 1;
    }
    assert(v@.take(v.len() as int) =~= v@);
    done.push(cur);
    done
}

/// The lines of `s`, as `str::lines` yields them: split at `'\n'`, a `'\r'`
/// before the `'\n'` removed, and no empty last line after a final `'\n'`.
pub open spec fn lines_seq(s: Seq<char>) -> Seq<Seq<char>> {
    let p = split_on(s, '\n');
    let body = p.drop_last().map_values(|l: Seq<char>| strip_cr(l));
    if p.last().len() == 0 {
        body
    } else {
        body.push(p.last())
    }
}

/// The contents of a sequence of strings.
pub open spec fn strings_view(v: Seq<String>) -> Seq<Seq<char>> {
    v.map_values(|s: String| s@)
}

/// Appends `line` to `lines`.
pub fn push_line(lines: &mut Vec<String>, line: &str)
    ensures
        strings_view(final(lines)@) == strings_view(old(lines)@).push(line@),
{
    let ghost before = lines@;
    lines.push(line.to_owned());
    assert(strings_view(lines@) =~= strings_view(before).push(line@));
}

/// Appends the line `a` followed by `b` to `lines`.
pub fn push_joined(lines: &mut Vec<String>, a: &str, b: &str)
    ensures
        strings_view(final(lines)@) == strings_view(old(lines)@).push(a@ + b@),
{
    let ghost before = lines@;
    let mut v: Vec<char> = Vec::new();
    extend_str(&mut v, a);
    extend_str(&mut v, b);
    let line = string_from_chars(&v);
    lines.push(line);
    assert(strings_view(lines@) =~= strings_view(before).push(a@ + b@));
}

/// The contents of a sequence of character vectors.
pub open spec fn views(vs: Seq<Vec<char>>) -> Seq<Seq<char>> {
    vs.map_values(|x: Vec<char>| x@)
}

fn strip_cr_exec(l: Vec<char>) -> (r: Vec<char>)
    ensures
        r@ == strip_cr(l@),
{
    let mut l = l;
    if l.len() > 0 && l[l.len() - 1] == '\r' {
        l.pop();
    }
    l
}

/// The lines of `v`.
pub fn lines_of(v: &[char]) -> (r: Vec<Vec<char>>)
    ensures
        views(r@) == lines_seq(v@),
{
    let mut done: Vec<Vec<char>> = Vec::new();
    let mut cur: Vec<char> = Vec::new();
    let mut i: usize = 0;
    proof {
        assert(v@.take(0) =~= Seq::<char>::empty());
    }
    while i < v.len()
        invariant
            i <= v.len(),
            split_on(v@.take(i as int), '\n').len() >= 1,
            views(done@) =~= split_on(v@.take(i as int), '\n').drop_last().map_values(
                |l: Seq<char>| strip_cr(l),
            ),
            cur@ == split_on(v@.take(i as int), '\n').last(),
        decreases v.len() - i,
    {
        let c = v[i];
        let ghost before = split_on(v@.take(i as int), '\n');
        assert(v@.take(i + 1).drop_last() =~= v@.take(i as int));
        assert(v@.take(i + 1).last() == c);
        if c == '\n' {
            let line = strip_cr_exec(cur);
            let ghost old_done = done@;
            done.push(line);
            cur = Vec::new();
            proof {
                assert(views(done@) =~= views(old_done).push(strip_cr(before.last())));
                assert(before.map_values(|l: Seq<char>| strip_cr(l)) =~= before.drop_last().map_values(
                    |l: Seq<char>| strip_cr(l),
                ).push(strip_cr(before.last())));
                let after = split_on(v@.take(i + 1), '\n');
                assert(after == before.push(Seq::<char>::empty()));
                assert(after.drop_last() =~= before);
                assert(views(done@) =~= after.drop_last().map_values(|l: Seq<char>| strip_cr(l)));
            }
        } else {
            cur.push(c);
            proof {
                let after = split_on(v@.take(i + 1), '\n');
                assert(after == before.update(before.len() - 1, before.last().push(c)));
                assert(after.drop_last() =~= before.drop_last());
            }
        }
        i += 1;
    }
    assert(v@.take(v.len() as int) =~= v@);
    if cur.len() > 0 {
        done.push(cur);
    }
    proof {
        let p = split_on(v@, '\n');
        let body = p.drop_last().map_values(|l: Seq<char>| strip_cr(l));
        assert(views(done@) =~= lines_seq(v@));
    }
    done
}

// ---------------------------------------------------------------------------
// Decimal numbers (`u64::to_string`, `u32::from_str`)
// ---------------------------------------------------------------------------

/// The character of a decimal digit.
pub open spec fn digit_char(d: nat) -> char {
    ((48 + d) as u32) as char
}

/// The character of digit `d`.
pub fn digit_to_char(d: u64) -> (c: char)
    requires
        d < 10,
    ensures
        c == digit_char(d as nat),
{
    let b: u8 = 48u8 + (d as u8);
    b as char
}

/// Whether `c` is an ASCII decimal digit.
pub open spec fn is_digit(c: char) -> bool {
    '0' <= c <= '9'
}

/// The value of an ASCII decimal digit.
pub open spec fn digit_value(c: char) -> nat {
    ((c as u32) - 48) as nat
}

pub proof fn lemma_digit_roundtrip(d: nat)
    requires
        d < 10,
    ensures
        is_digit(digit_char(d)),
        digit_value(digit_char(d)) == d,
{
}

/// The decimal representation of `n`, without leading zeros.
pub open spec fn decimal(n: nat) -> Seq<char>
    decreases n,
{
    if n < 10 {
        seq![digit_char(n)]
    } else {
        decimal(n / 10).push(digit_char(n % 10))
    }
}

/// Appends the decimal representation of `n` to `dst`.
pub fn push_decimal(dst: &mut Vec<char>, n: u64)
    ensures
        final(dst)@ == old(dst)@ + decimal(n as nat),
    decreases n,
{
    if n >= 10 {
        push_decimal(dst, n / 10);
    }
    let d: u8 = (n % 10) as u8;
    let c = (48u8 + d) as char;
    dst.push(c);
    proof {
        if n >= 10 {
            assert(decimal(n as nat) == decimal((n / 10) as nat).push(digit_char((n % 10) as nat)));
        }
    }
    assert(final(dst)@ =~= old(dst)@ + decimal(n as nat)) by {
        if n < 10 {
            assert(decimal(n as nat) =~= seq![digit_char(n as nat)]);
        }
    }
}

/// Appends the decimal representation of a wide `n` to `dst`.
pub fn push_decimal_wide(dst: &mut Vec<char>, n: u128)
    ensures
        final(dst)@ == old(dst)@ + decimal(n as nat),
    decreases n,
{
    if n >= 10 {
        push_decimal_wide(dst, n / 10);
    }
    let d: u8 = (n % 10) as u8;
    let c = (48u8 + d) as char;
    dst.push(c);
    proof {
        if n >= 10 {
            assert(decimal(n as nat) == decimal((n / 10) as nat).push(digit_char((n % 10) as nat)));
        }
    }
    assert(final(dst)@ =~= old(dst)@ + decimal(n as nat)) by {
        if n < 10 {
            assert(decimal(n as nat) =~= seq![digit_char(n as nat)]);
        }
    }
}

/// The value of a sequence of decimal digits.
pub open spec fn digits_value(s: Seq<char>) -> nat
    decreases s.len(),
{
    if s.len() == 0 {
        0
    } else {
        digits_value(s.drop_last()) * 10 + digit_value(s.last())
    }
}

/// Every character of `s` is a decimal digit.
pub open spec fn all_digits(s: Seq<char>) -> bool {
    forall|i: int| 0 <= i < s.len() ==> is_digit(#[trigger] s[i])
}

/// The digits of an unsigned number: `s` without one leading `'+'`.
pub open spec fn unsigned_body(s: Seq<char>) -> Seq<char> {
    if s.len() > 0 && s[0] == '+' {
        s.drop_first()
    } else {
        s
    }
}

/// What `str::parse` accepts for an unsigned integer type whose largest
/// value is `max`: an optional `'+'`, then at least one decimal digit, and
/// nothing else, with a value of at most `max`.
pub open spec fn parse_uint_spec(s: Seq<char>, max: nat) -> Option<nat> {
    let body = unsigned_body(s);
    if body.len() > 0 && all_digits(body) && digits_value(body) <= max {
        Some(digits_value(body))
    } else {
        None
    }
}

/// What `u32::from_str` gives.
pub open spec fn parse_u32_spec(s: Seq<char>) -> Option<u32> {
    match parse_uint_spec(s, u32::MAX as nat) {
        Some(v) => Some(v as u32),
        None => None,
    }
}

/// What `u64::from_str` gives.
pub open spec fn parse_u64_spec(s: Seq<char>) -> Option<u64> {
    match parse_uint_spec(s, u64::MAX as nat) {
        Some(v) => Some(v as u64),
        None => None,
    }
}

/// Parses a decimal unsigned integer of at most `max`, as `str::parse` does.
pub fn parse_uint(s: &[char], max: u64) -> (r: Option<u64>)
    ensures
        match parse_uint_spec(s@, max as nat) {
            Some(v) => r == Some(v as u64),
            None => r is None,
        },
{
    let start: usize = if s.len() > 0 && s[0] == '+' { 1 } else { 0 };
    let ghost body = unsigned_body(s@);
    assert(body =~= s@.skip(start as int));
    if start == s.len() {
        return None;
    }
    let mut val: u128 = 0;
    let mut overflow = false;
    let mut i: usize = start;
    while i < s.len()
        invariant
            start <= i <= s.len(),
            body == s@.skip(start as int),
            body == unsigned_body(s@),
            all_digits(s@.subrange(start as int, i as int)),
            !overflow ==> val == digits_value(s@.subrange(start as int, i as int)) && val <= max,
            overflow ==> digits_value(s@.subrange(start as int, i as int)) > max,
        decreases s.len() - i,
    {
        let c = s[i];
        if !('0' <= c && c <= '9') {
            assert(body[i - start] == s@[i as int]);
            assert(!is_digit(body[i - start]));
            assert(!all_digits(body));
            return None;
        }
        let ghost prev = s@.subrange(start as int, i as int);
        let ghost next = s@.subrange(start as int, i + 1);
        assert(next.drop_last() =~= prev);
        assert(next.last() == c);
        assert(digits_value(next) == digits_value(prev) * 10 + digit_value(c));
        let d: u128 = ((c as u32) - 48) as u128;
        if !overflow {
            let nv = val * 10 + d;
            if nv > max as u128 {
                overflow = true;
            } else {
                val = nv;
            }
        }
        assert forall|k: int| 0 <= k < next.len() implies is_digit(#[trigger] next[k]) by {
            if k < prev.len() {
                assert(next[k] == prev[k]);
            }
        }
        i += 1;
    }
    assert(s@.subrange(start as int, s@.len() as int) =~= body);
    if overflow {
        None
    } else {
        Some(val as u64)
    }
}

/// Parses a decimal `u32` as `str::parse::<u32>` does.
pub fn parse_u32(s: &[char]) -> (r: Option<u32>)
    ensures
        r == parse_u32_spec(s@),
{
    match parse_uint(s, 4294967295) {
        Some(v) => Some(v as u32),
        None => None,
    }
}

/// Parses a decimal `u64` as `str::parse::<u64>` does.
pub fn parse_u64(s: &[char]) -> (r: Option<u64>)
    ensures
        r == parse_u64_spec(s@),
{
    parse_uint(s, 18446744073709551615)
}

// ---------------------------------------------------------------------------
// Case mapping (`str::to_lowercase`)
// ---------------------------------------------------------------------------

/// What `str::to_lowercase` returns for a string that holds a character
/// outside ASCII: its characters mapped by the Unicode lowercase mapping
/// (locale independent).
pub uninterp spec fn unicode_lowercase(s: Seq<char>) -> Seq<char>;

/// Whether every character of `s` is ASCII.
pub open spec fn all_ascii(s: Seq<char>) -> bool {
    forall|i: int| 0 <= i < s.len() ==> (#[trigger] s[i] as u32) < 128
}

/// An ASCII letter `A`..`Z` in lower case; any other character unchanged.
pub open spec fn ascii_lower(c: char) -> char {
    if 'A' <= c && c <= 'Z' {
        ((c as u32) + 32) as char
    } else {
        c
    }
}

/// An ASCII letter `a`..`z` in upper case; any other character unchanged.
pub open spec fn ascii_upper(c: char) -> char {
    if 'a' <= c && c <= 'z' {
        ((c as u32) - 32) as char
    } else {
        c
    }
}

/// What `str::to_lowercase` returns for a string: an ASCII string with its
/// letters `A`..`Z` made `a`..`z` (the Unicode mapping of those letters,
/// leaving the other ASCII characters alone); any other string as
/// [`unicode_lowercase`] gives it.
#[verifier::opaque]
pub open spec fn lowercase(s: Seq<char>) -> Seq<char> {
    if all_ascii(s) {
        s.map_values(|c: char| ascii_lower(c))
    } else {
        unicode_lowercase(s)
    }
}

/// `str::to_lowercase`: the lowercase form of `s`, as characters: for an
/// ASCII `s`, its letters `A`..`Z` made `a`..`z`.
#[verifier::external_body]
pub(crate) fn to_lowercase_chars(s: &str) -> (r: Vec<char>)
    ensures
        r@ == lowercase(s@),
        !all_ascii(s@) ==> r@ == unicode_lowercase(s@),
{
    s.to_lowercase().chars().collect()
}

// ---------------------------------------------------------------------------
// Paths (`Path::join` with `'/'` separators)
// ---------------------------------------------------------------------------

/// `base` joined with `comp` as `Path::join` does on Unix: an absolute
/// `comp` replaces `base`; otherwise a `'/'` goes between them unless `base`
/// is empty or already ends with one.
pub open spec fn path_join(base: Seq<char>, comp: Seq<char>) -> Seq<char> {
    if comp.len() > 0 && comp[0] == '/' {
        comp
    } else if base.len() == 0 || base.last() == '/' {
        base + comp
    } else {
        base + seq!['/'] + comp
    }
}

/// `base` joined with `comp`.
pub fn join_path(base: &str, comp: &str) -> (r: String)
    ensures
        r@ == path_join(base@, comp@),
{
    let b = chars_of(base);
    let c = chars_of(comp);
    if c.len() > 0 && c[0] == '/' {
        return string_from_chars(&c);
    }
    let mut v = copy_chars(&b);
    if !(b.len() == 0 || b[b.len() - 1] == '/') {
        v.push('/');
    }
    extend_chars(&mut v, &c);
    string_from_chars(&v)
}

// ---------------------------------------------------------------------------
// Facts about decimals, trimming and splitting
// ---------------------------------------------------------------------------

/// A decimal is a non-empty run of digits whose value is the number.
pub proof fn lemma_decimal_digits(n: nat)
    ensures
        decimal(n).len() > 0,
        all_digits(decimal(n)),
        digits_value(decimal(n)) == n,
    decreases n,
{
    if n < 10 {
        lemma_digit_roundtrip(n);
        assert(decimal(n).drop_last() =~= Seq::<char>::empty());
        assert(digits_value(decimal(n).drop_last()) == 0);
        assert(decimal(n).last() == digit_char(n));
    } else {
        lemma_decimal_digits(n / 10);
        lemma_digit_roundtrip(n % 10);
        let d = decimal(n);
        assert(d.drop_last() =~= decimal(n / 10));
        assert(d.last() == digit_char(n % 10));
        assert(digits_value(d) == digits_value(decimal(n / 10)) * 10 + (n % 10));
        assert((n / 10) * 10 + n % 10 == n);
        assert forall|i: int| 0 <= i < d.len() implies is_digit(#[trigger] d[i]) by {
            if i < d.len() - 1 {
                assert(d[i] == decimal(n / 10)[i]);
            }
        }
    }
}

/// `u32::from_str` reads back the decimal of a `u32`.
pub proof fn lemma_parse_u32_decimal(n: u32)
    ensures
        parse_u32_spec(decimal(n as nat)) == Some(n),
{
    lemma_decimal_digits(n as nat);
    let d = decimal(n as nat);
    assert(is_digit(d[0]));
    assert(unsigned_body(d) == d);
}

/// A sequence that neither starts nor ends with white space is its own trim.
pub proof fn lemma_trim_unchanged(s: Seq<char>)
    requires
        s.len() > 0,
        !is_white_space(s[0]),
        !is_white_space(s.last()),
    ensures
        trim_seq(s) == s,
{
}

/// A leading space does not change a trim.
pub proof fn lemma_trim_leading_space(t: Seq<char>)
    ensures
        trim_seq(seq![' '] + t) == trim_seq(t),
{
    let s = seq![' '] + t;
    assert(s.drop_first() =~= t);
}

/// A decimal is its own trim.
pub proof fn lemma_trim_decimal(n: nat)
    ensures
        trim_seq(decimal(n)) == decimal(n),
{
    lemma_decimal_digits(n);
    let d = decimal(n);
    assert(is_digit(d[0]));
    assert(is_digit(d[d.len() - 1]));
    lemma_trim_unchanged(d);
}

/// A sequence without the delimiter is a single piece.
pub proof fn lemma_split_on_without(s: Seq<char>, d: char)
    requires
        !s.contains(d),
    ensures
        split_on(s, d) == seq![s],
    decreases s.len(),
{
    if s.len() > 0 {
        assert(!s.drop_last().contains(d)) by {
            if s.drop_last().contains(d) {
                let i = choose|i: int| 0 <= i < s.drop_last().len() && s.drop_last()[i] == d;
                assert(s[i] == d);
            }
        }
        lemma_split_on_without(s.drop_last(), d);
        assert(s[s.len() - 1] != d);
        assert(s.drop_last().push(s.last()) =~= s);
        assert(split_on(s, d) =~= seq![s]);
    } else {
        assert(s =~= Seq::<char>::empty());
    }
}

/// Splitting at a delimiter between two parts splits each part.
pub proof fn lemma_split_on_concat(a: Seq<char>, b: Seq<char>, d: char)
    ensures
        split_on(a + seq![d] + b, d) == split_on(a, d) + split_on(b, d),
    decreases b.len(),
{
    let s = a + seq![d] + b;
    if b.len() == 0 {
        assert(s.drop_last() =~= a);
        assert(split_on(b, d) =~= seq![Seq::<char>::empty()]);
        assert(split_on(s, d) =~= split_on(a, d) + split_on(b, d));
    } else {
        let b1 = b.drop_last();
        lemma_split_on_concat(a, b1, d);
        lemma_split_on_nonempty(b1, d);
        lemma_split_on_nonempty(a, d);
        assert(s.drop_last() =~= a + seq![d] + b1);
        assert(s.last() == b.last());
        assert(split_on(s, d) =~= split_on(a, d) + split_on(b, d));
    }
}

/// Trimming the start never lengthens, and shortens a sequence that starts
/// with white space.
pub proof fn lemma_trim_start_len(s: Seq<char>)
    ensures
        trim_start_seq(s).len() <= s.len(),
        s.len() > 0 && is_white_space(s[0]) ==> trim_start_seq(s).len() < s.len(),
    decreases s.len(),
{
    if s.len() > 0 && is_white_space(s[0]) {
        lemma_trim_start_len(s.drop_first());
    }
}

/// Trimming the end never lengthens, and shortens a sequence that ends with
/// white space.
pub proof fn lemma_trim_end_len(s: Seq<char>)
    ensures
        trim_end_seq(s).len() <= s.len(),
        s.len() > 0 && is_white_space(s.last()) ==> trim_end_seq(s).len() < s.len(),
    decreases s.len(),
{
    if s.len() > 0 && is_white_space(s.last()) {
        lemma_trim_end_len(s.drop_last());
    }
}

/// A non-empty sequence that is its own trim neither starts nor ends with
/// white space.
pub proof fn lemma_trimmed_ends(t: Seq<char>)
    requires
        trim_seq(t) == t,
        t.len() > 0,
    ensures
        !is_white_space(t[0]),
        !is_white_space(t.last()),
{
    lemma_trim_start_len(t);
    lemma_trim_end_len(trim_start_seq(t));
    if !is_white_space(t[0]) {
        assert(trim_start_seq(t) == t);
        lemma_trim_end_len(t);
    }
}

/// A character in neither part is not in their concatenation.
pub proof fn lemma_concat_without(a: Seq<char>, b: Seq<char>, c: char)
    requires
        !a.contains(c),
        !b.contains(c),
    ensures
        !(a + b).contains(c),
{
    let s = a + b;
    if s.contains(c) {
        let i = choose|i: int| 0 <= i < s.len() && s[i] == c;
        if i < a.len() {
            assert(a[i] == c);
        } else {
            assert(b[i - a.len()] == c);
        }
    }
}

/// The names of a path: its pieces between `'/'`, without the empty ones
/// and without `"."`.
pub open spec fn path_names(pieces: Seq<Seq<char>>) -> Seq<Seq<char>>
    decreases pieces.len(),
{
    if pieces.len() == 0 {
        Seq::empty()
    } else {
        let r = path_names(pieces.drop_last());
        let p = pieces.last();
        if p.len() == 0 || p == seq!['.'] {
            r
        } else {
            r.push(p)
        }
    }
}

/// The path starts at the root.
pub open spec fn path_rooted(s: Seq<char>) -> bool {
    s.len() > 0 && s[0] == '/'
}

/// The relative path starts with a `"."` component.
pub open spec fn path_leading_cur(s: Seq<char>) -> bool {
    !path_rooted(s) && split_on(s, '/')[0] == seq!['.']
}

/// Two paths are equal as `Path`s are: they have the same components, so
/// repeated or trailing `'/'` and `"."` components after the first make no
/// difference.
pub open spec fn same_path(a: Seq<char>, b: Seq<char>) -> bool {
    &&& path_rooted(a) == path_rooted(b)
    &&& path_leading_cur(a) == path_leading_cur(b)
    &&& path_names(split_on(a, '/')) == path_names(split_on(b, '/'))
}

fn is_dot(v: &[char]) -> (r: bool)
    ensures
        r == (v@ == seq!['.']),
{
    if v.len() == 1 && v[0] == '.' {
        assert(v@ =~= seq!['.']);
        true
    } else {
        false
    }
}

fn names_of(pieces: &Vec<Vec<char>>) -> (r: Vec<Vec<char>>)
    ensures
        views(r@) == path_names(views(pieces@)),
{
    let mut r: Vec<Vec<char>> = Vec::new();
    let mut i: usize = 0;
    while i < pieces.len()
        invariant
            i <= pieces.len(),
            views(r@) == path_names(views(pieces@).take(i as int)),
        decreases pieces.len() - i,
    {
        assert(views(pieces@).take(i + 1).drop_last() =~= views(pieces@).take(i as int));
        let p = &pieces[i];
        if !(p.len() == 0 || is_dot(p.as_slice())) {
            let ghost before = r@;
            r.push(copy_chars(p.as_slice()));
            assert(views(r@) =~= views(before).push(pieces@[i as int]@));
        }
        i += 1;
    }
    assert(views(pieces@).take(pieces.len() as int) =~= views(pieces@));
    r
}

fn vecs_eq(a: &Vec<Vec<char>>, b: &Vec<Vec<char>>) -> (r: bool)
    ensures
        r == (views(a@) == views(b@)),
{
    if a.len() != b.len() {
        assert(views(a@).len() != views(b@).len());
        return false;
    }
    let mut i: usize = 0;
    while i < a.len()
        invariant
            a.len() == b.len(),
            i <= a.len(),
            forall|j: int| 0 <= j < i ==> a@[j]@ == b@[j]@,
        decreases a.len() - i,
    {
        if !chars_eq(a[i].as_slice(), b[i].as_slice()) {
            assert(views(a@)[i as int] != views(b@)[i as int]);
            return false;
        }
        i += 1;
    }
    assert(views(a@) =~= views(b@));
    true
}

/// Whether two paths are equal as `Path`s are.
pub fn paths_equal(a: &str, b: &str) -> (r: bool)
    ensures
        r == same_path(a@, b@),
{
    let ca = chars_of(a);
    let cb = chars_of(b);
    let pa = split_chars(&ca, '/');
    let pb = split_chars(&cb, '/');
    proof {
        lemma_split_on_nonempty(a@, '/');
        lemma_split_on_nonempty(b@, '/');
    }
    let ra = ca.len() > 0 && ca[0] == '/';
    let rb = cb.len() > 0 && cb[0] == '/';
    let da = !ra && is_dot(pa[0].as_slice());
    let db = !rb && is_dot(pb[0].as_slice());
    let na = names_of(&pa);
    let nb = names_of(&pb);
    ra == rb && da == db && vecs_eq(&na, &nb)
}

// ---------------------------------------------------------------------------
// Key-value pairs with no key twice
// ---------------------------------------------------------------------------

/// Key-value pairs as character sequences.
pub open spec fn pairs_view(v: Seq<(String, String)>) -> Seq<(Seq<char>, Seq<char>)> {
    v.map_values(|p: (String, String)| (p.0@, p.1@))
}

/// The position of the first pair with key `k`.
pub open spec fn key_index(ps: Seq<(Seq<char>, Seq<char>)>, k: Seq<char>) -> Option<int>
    decreases ps.len(),
{
    if ps.len() == 0 {
        None
    } else {
        match key_index(ps.drop_last(), k) {
            Some(i) => Some(i),
            None => if ps.last().0 == k {
                Some(ps.len() - 1)
            } else {
                None
            },
        }
    }
}

/// The pairs after setting key `k` to `v`: the value of an existing key is
/// replaced, a new key goes at the end.
pub open spec fn insert_pair(ps: Seq<(Seq<char>, Seq<char>)>, k: Seq<char>, v: Seq<char>) -> Seq<(Seq<char>, Seq<char>)> {
    match key_index(ps, k) {
        Some(i) => ps.update(i, (k, v)),
        None => ps.push((k, v)),
    }
}

proof fn lemma_key_index_bounds(ps: Seq<(Seq<char>, Seq<char>)>, k: Seq<char>)
    ensures
        key_index(ps, k) matches Some(i) ==> 0 <= i < ps.len() && ps[i].0 == k,
    decreases ps.len(),
{
    if ps.len() > 0 {
        lemma_key_index_bounds(ps.drop_last(), k);
    }
}

/// A key found in a prefix is found at the same place in the whole.
proof fn lemma_key_index_prefix(ps: Seq<(Seq<char>, Seq<char>)>, k: Seq<char>, n: int)
    requires
        0 <= n <= ps.len(),
        key_index(ps.take(n), k) is Some,
    ensures
        key_index(ps, k) == key_index(ps.take(n), k),
    decreases ps.len() - n,
{
    if n < ps.len() {
        assert(ps.take(n + 1).drop_last() =~= ps.take(n));
        lemma_key_index_prefix(ps, k, n + 1);
    } else {
        assert(ps.take(n) =~= ps);
    }
}

/// Sets `key` to `value` among the pairs (see [`insert_pair`]).
pub fn set_pair(pairs: &mut Vec<(String, String)>, key: &str, value: &str)
    ensures
        pairs_view(final(pairs)@) == insert_pair(pairs_view(old(pairs)@), key@, value@),
{
    let ghost ps = pairs_view(pairs@);
    let kc = chars_of(key);
    let mut i: usize = 0;
    let mut found = false;
    while i < pairs.len() && !found
        invariant
            i <= pairs.len(),
            ps == pairs_view(pairs@),
            kc@ == key@,
            found ==> i < pairs.len() && key_index(ps.take(i + 1), key@) == Some(i as int),
            !found ==> key_index(ps.take(i as int), key@) is None,
        decreases pairs.len() - i + if found { 0int } else { 1int },
    {
        assert(ps.take(i + 1).drop_last() =~= ps.take(i as int));
        assert(ps[i as int] == (pairs@[i as int].0@, pairs@[i as int].1@));
        if chars_eq(&chars_of(pairs[i].0.as_str()), &kc) {
            found = true;
        } else {
            i += 1;
        }
    }
    proof {
        lemma_key_index_bounds(ps, key@);
        if found {
            lemma_key_index_prefix(ps, key@, i as int + 1);
        } else {
            assert(ps.take(i as int) =~= ps);
        }
    }
    if found {
        pairs.set(i, (key.to_owned(), value.to_owned()));
    } else {
        pairs.push((key.to_owned(), value.to_owned()));
    }
    assert(pairs_view(pairs@) =~= insert_pair(ps, key@, value@));
}

} // verus!
