//! Character-level text operations.
//!
//! Every string the library looks into is first turned into its sequence of
//! characters; the functions here work on such sequences and are stated over
//! `Seq<char>`.

use vstd::prelude::*;
use vstd::utf8::{decode_utf8, valid_utf8};

verus! {

#[verifier::external_type_specification]
#[verifier::external_body]
pub struct ExUtf8Error(core::str::Utf8Error);

/// `core::str::from_utf8` accepts exactly the byte sequences that are valid
/// UTF-8, and gives the text that they encode.
pub assume_specification[ core::str::from_utf8 ](v: &[u8]) -> (r: Result<
    &str,
    core::str::Utf8Error,
>)
    ensures
        r is Ok <==> valid_utf8(v@),
        r matches Ok(s) ==> s@ == decode_utf8(v@),
;

/// `String::push` appends one character.
pub assume_specification[ String::push ](s: &mut String, c: char)
    ensures
        final(s)@ == old(s)@.push(c),
;

/// A set of characters that trimming can strip.
#[derive(Clone, Copy, Debug)]
pub enum CharClass {
    /// Unicode white space.
    Whitespace,
    /// One given character.
    Only(char),
    /// Either of two given characters.
    Either(char, char),
    /// Every character but the given one.
    Except(char),
}

/// Unicode's `White_Space` property.
pub open spec fn is_whitespace(c: char) -> bool {
    let u = c as u32;
    (0x09 <= u <= 0x0D) || u == 0x20 || u == 0x85 || u == 0xA0 || u == 0x1680 || (0x2000 <= u
        <= 0x200A) || u == 0x2028 || u == 0x2029 || u == 0x202F || u == 0x205F || u == 0x3000
}

impl CharClass {
    /// Whether `c` belongs to the class.
    pub open spec fn has(self, c: char) -> bool {
        match self {
            CharClass::Whitespace => is_whitespace(c),
            CharClass::Only(a) => c == a,
            CharClass::Either(a, b) => c == a || c == b,
            CharClass::Except(a) => c != a,
        }
    }

    pub fn contains(&self, c: char) -> (b: bool)
        ensures
            b == self.has(c),
    {
        match self {
            CharClass::Whitespace => {
                let u: u32 = c as u32;
                (0x09 <= u && u <= 0x0D) || u == 0x20 || u == 0x85 || u == 0xA0 || u == 0x1680 || (
                0x2000 <= u && u <= 0x200A) || u == 0x2028 || u == 0x2029 || u == 0x202F || u
                    == 0x205F || u == 0x3000
            },
            CharClass::Only(a) => c == *a,
            CharClass::Either(a, b) => c == *a || c == *b,
            CharClass::Except(a) => c != *a,
        }
    }
}

/// How many characters at the start of `s` belong to `class`.
pub open spec fn leading(s: Seq<char>, class: CharClass) -> nat
    decreases s.len(),
{
    if s.len() > 0 && class.has(s[0]) {
        1 + leading(s.drop_first(), class)
    } else {
        0
    }
}

/// How many characters at the end of `s` belong to `class`.
pub open spec fn trailing(s: Seq<char>, class: CharClass) -> nat
    decreases s.len(),
{
    if s.len() > 0 && class.has(s.last()) {
        1 + trailing(s.drop_last(), class)
    } else {
        0
    }
}

/// `s` without its leading characters of `class`.
pub open spec fn trim_start(s: Seq<char>, class: CharClass) -> Seq<char> {
    s.skip(leading(s, class) as int)
}

/// `s` without its trailing characters of `class`.
pub open spec fn trim_end(s: Seq<char>, class: CharClass) -> Seq<char> {
    s.take(s.len() - trailing(s, class))
}

/// `s` without its leading and trailing characters of `class`.
pub open spec fn trim(s: Seq<char>, class: CharClass) -> Seq<char> {
    trim_end(trim_start(s, class), class)
}

/// `leading` is the index of the first character outside the class.
pub proof fn lemma_leading(s: Seq<char>, class: CharClass, n: int)
    requires
        0 <= n <= s.len(),
        forall|i: int| 0 <= i < n ==> class.has(#[trigger] s[i]),
        n == s.len() || !class.has(s[n]),
    ensures
        leading(s, class) == n,
    decreases n,
{
    if n > 0 {
        let t = s.drop_first();
        assert forall|i: int| 0 <= i < n - 1 implies class.has(#[trigger] t[i]) by {
            assert(t[i] == s[i + 1]);
        }
        lemma_leading(t, class, n - 1);
    }
}

/// `trailing` counts back to the last character outside the class.
pub proof fn lemma_trailing(s: Seq<char>, class: CharClass, n: int)
    requires
        0 <= n <= s.len(),
        forall|i: int| s.len() - n <= i < s.len() ==> class.has(#[trigger] s[i]),
        n == s.len() || !class.has(s[s.len() - n - 1]),
    ensures
        trailing(s, class) == n,
    decreases n,
{
    if n > 0 {
        let t = s.drop_last();
        assert forall|i: int| t.len() - (n - 1) <= i < t.len() implies class.has(
            #[trigger] t[i],
        ) by {
            assert(t[i] == s[i]);
        }
        lemma_trailing(t, class, n - 1);
    }
}

/// The characters of `s`, in order.
pub fn chars_of(s: &str) -> (v: Vec<char>)
    ensures
        v@ == s@,
{
    let mut v: Vec<char> = Vec::new();
    for c in it: s.chars()
        invariant
            v@ == it.seq().take(it.index() as int),
            it.seq() == s@,
    {
        v.push(c);
    }
    v
}

/// The string made of the characters `v[from..to]`.
pub fn string_of(v: &Vec<char>, from: usize, to: usize) -> (s: String)
    requires
        from <= to <= v.len(),
    ensures
        s@ == v@.subrange(from as int, to as int),
{
    let mut s = String::new();
    let mut i: usize = from;
    while i < to
        invariant
            from <= i <= to <= v.len(),
            s@ == v@.subrange(from as int, i as int),
        decreases to - i,
    {
        s.push(v[i]);
        i += 1;
    }
    s
}

/// The string made of all the characters of `v`.
pub fn to_string(v: &Vec<char>) -> (s: String)
    ensures
        s@ == v@,
{
    let s = string_of(v, 0, v.len());
    assert(v@.subrange(0, v.len() as int) == v@);
    s
}

/// The characters `v[from..to]`.
pub fn slice_of(v: &Vec<char>, from: usize, to: usize) -> (r: Vec<char>)
    requires
        from <= to <= v.len(),
    ensures
        r@ == v@.subrange(from as int, to as int),
{
    let mut r: Vec<char> = Vec::new();
    let mut i: usize = from;
    while i < to
        invariant
            from <= i <= to <= v.len(),
            r@ == v@.subrange(from as int, i as int),
        decreases to - i,
    {
        r.push(v[i]);
        i += 1;
    }
    r
}

/// The index of the first character of `v[from..to]` outside `class`, or `to`.
pub fn skip_leading(v: &Vec<char>, from: usize, to: usize, class: CharClass) -> (i: usize)
    requires
        from <= to <= v.len(),
    ensures
        from <= i <= to,
        i - from == leading(v@.subrange(from as int, to as int), class),
{
    let mut i: usize = from;
    while i < to && class.contains(v[i])
        invariant
            from <= i <= to <= v.len(),
            forall|k: int| from <= k < i ==> class.has(#[trigger] v@[k]),
        decreases to - i,
    {
        i += 1;
    }
    proof {
        lemma_leading(v@.subrange(from as int, to as int), class, i - from);
    }
    i
}

/// The index just past the last character of `v[from..to]` outside `class`, or `from`.
pub fn skip_trailing(v: &Vec<char>, from: usize, to: usize, class: CharClass) -> (i: usize)
    requires
        from <= to <= v.len(),
    ensures
        from <= i <= to,
        to - i == trailing(v@.subrange(from as int, to as int), class),
{
    let mut i: usize = to;
    while i > from && class.contains(v[i - 1])
        invariant
            from <= i <= to <= v.len(),
            forall|k: int| i <= k < to ==> class.has(#[trigger] v@[k]),
        decreases i - from,
    {
        i -= 1;
    }
    proof {
        lemma_trailing(v@.subrange(from as int, to as int), class, to - i);
    }
    i
}

/// `v` with the characters of `class` stripped from both ends.
pub fn trimmed(v: &Vec<char>, class: CharClass) -> (r: Vec<char>)
    ensures
        r@ == trim(v@, class),
{
    let a = skip_leading(v, 0, v.len(), class);
    let b = skip_trailing(v, a, v.len(), class);
    assert(v@.subrange(0, v.len() as int) == v@);
    assert(v@.subrange(a as int, v.len() as int) == v@.skip(a as int));
    let r = slice_of(v, a, b);
    assert(r@ == trim(v@, class));
    r
}

/// The views of a vector of character vectors.
pub open spec fn rows(v: Seq<Vec<char>>) -> Seq<Seq<char>> {
    v.map_values(|r: Vec<char>| r@)
}

/// The views of a vector of strings.
pub open spec fn texts(v: Seq<String>) -> Seq<Seq<char>> {
    v.map_values(|r: String| r@)
}

/// The view of an optional text.
pub open spec fn opt_text(o: Option<String>) -> Option<Seq<char>> {
    match o {
        Some(s) => Some(s@),
        None => None,
    }
}

/// Whether `a` and `b` hold the same characters.
pub fn same_chars(a: &Vec<char>, b: &Vec<char>) -> (r: bool)
    ensures
        r == (a@ == b@),
{
    if a.len() != b.len() {
        return false;
    }
    let mut i: usize = 0;
    while i < a.len()
        invariant
            i <= a.len() == b.len(),
            a@.take(i as int) == b@.take(i as int),
        decreases a.len() - i,
    {
        if a[i] != b[i] {
            return false;
        }
        assert(a@.take(i + 1) == a@.take(i as int).push(a@[i as int]));
        assert(b@.take(i + 1) == b@.take(i as int).push(b@[i as int]));
        i += 1;
    }
    assert(a@.take(a.len() as int) == a@);
    assert(b@.take(b.len() as int) == b@);
    true
}

/// Whether `v` spells the literal `lit`.
pub fn is_literal(v: &Vec<char>, lit: &str) -> (r: bool)
    ensures
        r == (v@ == lit@),
{
    let l = chars_of(lit);
    same_chars(v, &l)
}

/// Whether `p` occurs in `s` at index `i`.
pub open spec fn occurs_at(s: Seq<char>, p: Seq<char>, i: int) -> bool {
    0 <= i && i + p.len() <= s.len() && s.subrange(i, i + p.len()) == p
}

/// Whether `p` occurs somewhere in `s`.
pub open spec fn contains_text(s: Seq<char>, p: Seq<char>) -> bool {
    exists|i: int| occurs_at(s, p, i)
}

/// Whether `p` occurs in `v` at index `at`.
pub fn matches_at(v: &Vec<char>, at: usize, p: &Vec<char>) -> (r: bool)
    requires
        at <= v.len(),
    ensures
        r == occurs_at(v@, p@, at as int),
{
    if p.len() > v.len() - at {
        return false;
    }
    let mut k: usize = 0;
    while k < p.len()
        invariant
            k <= p.len(),
            at + p.len() <= v.len(),
            v@.subrange(at as int, at + k) == p@.take(k as int),
        decreases p.len() - k,
    {
        if v[at + k] != p[k] {
            assert(v@.subrange(at as int, at + p.len())[k as int] != p@[k as int]);
            return false;
        }
        assert(v@.subrange(at as int, at + k + 1) == v@.subrange(at as int, at + k).push(
            v@[at + k],
        ));
        assert(p@.take(k + 1) == p@.take(k as int).push(p@[k as int]));
        k += 1;
    }
    assert(p@.take(p.len() as int) == p@);
    true
}

/// Whether `v` begins with the literal `lit`.
pub fn starts_with(v: &Vec<char>, lit: &str) -> (r: bool)
    ensures
        r == lit@.is_prefix_of(v@),
{
    let p = chars_of(lit);
    matches_at(v, 0, &p)
}

/// Whether `p` occurs somewhere in `v`.
pub fn contains(v: &Vec<char>, p: &Vec<char>) -> (r: bool)
    ensures
        r == contains_text(v@, p@),
{
    let mut i: usize = 0;
    while i < v.len()
        invariant
            i <= v.len(),
            forall|k: int| 0 <= k < i ==> !occurs_at(v@, p@, k),
        decreases v.len() - i,
    {
        if matches_at(v, i, p) {
            return true;
        }
        i += 1;
    }
    matches_at(v, i, p)
}

/// Whether the literal `lit` occurs somewhere in `v`.
pub fn contains_literal(v: &Vec<char>, lit: &str) -> (r: bool)
    ensures
        r == contains_text(v@, lit@),
{
    let p = chars_of(lit);
    contains(v, &p)
}

/// The index of the first `c` in `s`, or the length of `s` where there is none.
pub open spec fn index_of_char(s: Seq<char>, c: char) -> nat {
    leading(s, CharClass::Except(c))
}

/// The pieces of `s` between its occurrences of `sep`; one more than there are occurrences.
pub open spec fn split(s: Seq<char>, sep: char) -> Seq<Seq<char>>
    decreases s.len(),
{
    let n = index_of_char(s, sep) as int;
    if n >= s.len() {
        seq![s]
    } else {
        seq![s.take(n)] + split(s.skip(n + 1), sep)
    }
}

/// The pieces of `v` between its occurrences of `sep`.
pub fn split_on(v: &Vec<char>, sep: char) -> (out: Vec<Vec<char>>)
    ensures
        rows(out@) == split(v@, sep),
{
    let mut out: Vec<Vec<char>> = Vec::new();
    let mut pos: usize = 0;
    let mut done = false;
    proof {
        assert(v@.skip(0) == v@);
        assert(rows(out@) + split(v@, sep) == split(v@, sep));
    }
    while !done
        invariant
            pos <= v.len(),
            !done ==> split(v@, sep) == rows(out@) + split(v@.skip(pos as int), sep),
            done ==> rows(out@) == split(v@, sep),
        decreases v.len() - pos + (if done { 0int } else { 1int }),
    {
        let end = skip_leading(v, pos, v.len(), CharClass::Except(sep));
        let piece = slice_of(v, pos, end);
        let ghost rest = v@.skip(pos as int);
        let ghost before = rows(out@);
        proof {
            assert(v@.subrange(pos as int, v.len() as int) == rest);
            assert(piece@ == rest.take(end - pos));
        }
        out.push(piece);
        assert(rows(out@) == before.push(piece@));
        if end == v.len() {
            proof {
                assert(rest.take(rest.len() as int) == rest);
                assert(before + seq![rest] == before.push(rest));
            }
            done = true;
        } else {
            proof {
                assert(rest.skip(end - pos + 1) == v@.skip(end + 1));
                assert(before + (seq![piece@] + split(v@.skip(end + 1), sep)) == before.push(
                    piece@,
                ) + split(v@.skip(end + 1), sep));
            }
            pos = end + 1;
        }
    }
    out
}

/// The pieces of `parts` with `sep` between them.
pub open spec fn join(parts: Seq<Seq<char>>, sep: Seq<char>) -> Seq<char>
    decreases parts.len(),
{
    if parts.len() == 0 {
        Seq::<char>::empty()
    } else if parts.len() == 1 {
        parts[0]
    } else {
        join(parts.drop_last(), sep) + sep + parts.last()
    }
}

/// Appends the characters of `src` to `dst`.
pub fn append_chars(dst: &mut Vec<char>, src: &Vec<char>)
    ensures
        final(dst)@ == old(dst)@ + src@,
{
    let mut i: usize = 0;
    while i < src.len()
        invariant
            i <= src.len(),
            dst@ == old(dst)@ + src@.take(i as int),
        decreases src.len() - i,
    {
        dst.push(src[i]);
        assert(src@.take(i + 1) == src@.take(i as int).push(src@[i as int]));
        i += 1;
    }
    assert(src@.take(src.len() as int) == src@);
}

/// Appends the characters of the literal `lit` to `dst`.
pub fn append_literal(dst: &mut Vec<char>, lit: &str)
    ensures
        final(dst)@ == old(dst)@ + lit@,
{
    let l = chars_of(lit);
    append_chars(dst, &l);
}

/// The pieces `parts[from..to]` with `sep` between them.
pub fn join_range(parts: &Vec<Vec<char>>, from: usize, to: usize, sep: &Vec<char>) -> (r: Vec<char>)
    requires
        from <= to <= parts.len(),
    ensures
        r@ == join(rows(parts@).subrange(from as int, to as int), sep@),
{
    let mut r: Vec<char> = Vec::new();
    let mut i: usize = from;
    let ghost all = rows(parts@).subrange(from as int, to as int);
    while i < to
        invariant
            from <= i <= to <= parts.len(),
            all == rows(parts@).subrange(from as int, to as int),
            r@ == join(all.take(i - from), sep@),
        decreases to - i,
    {
        if i > from {
            append_chars(&mut r, sep);
        }
        append_chars(&mut r, &parts[i]);
        proof {
            let next = all.take(i - from + 1);
            assert(next.drop_last() == all.take(i - from));
            assert(next.last() == parts@[i as int]@);
            if i == from {
                assert(next.len() == 1);
                assert(all.take(0).len() == 0);
            }
        }
        i += 1;
    }
    assert(all.take(all.len() as int) == all);
    r
}

/// `s` without one carriage return at its end.
pub open spec fn strip_cr(s: Seq<char>) -> Seq<char> {
    if s.len() > 0 && s.last() == '\r' {
        s.drop_last()
    } else {
        s
    }
}

/// The lines of `s`.
///
/// A line ends at a line feed, which is not part of it, nor is a carriage
/// return just before that line feed. What follows the last line feed is a
/// line of its own unless it is empty.
pub open spec fn lines(s: Seq<char>) -> Seq<Seq<char>>
    decreases s.len(),
{
    if s.len() == 0 {
        Seq::<Seq<char>>::empty()
    } else {
        let n = index_of_char(s, '\n') as int;
        if n >= s.len() {
            seq![s]
        } else {
            seq![strip_cr(s.take(n))] + lines(s.skip(n + 1))
        }
    }
}

/// The lines of `v`.
pub fn split_lines(v: &Vec<char>) -> (out: Vec<Vec<char>>)
    ensures
        rows(out@) == lines(v@),
{
    let mut out: Vec<Vec<char>> = Vec::new();
    let mut pos: usize = 0;
    proof {
        assert(v@.skip(0) == v@);
        assert(rows(out@) + lines(v@) == lines(v@));
    }
    while pos < v.len()
        invariant
            pos <= v.len(),
            lines(v@) == rows(out@) + lines(v@.skip(pos as int)),
        decreases v.len() - pos,
    {
        let end = skip_leading(v, pos, v.len(), CharClass::Except('\n'));
        let ghost rest = v@.skip(pos as int);
        let ghost before = rows(out@);
        proof {
            assert(v@.subrange(pos as int, v.len() as int) == rest);
        }
        if end == v.len() {
            let piece = slice_of(v, pos, end);
            out.push(piece);
            proof {
                assert(piece@ == rest);
                assert(rows(out@) == before.push(rest));
                assert(before + seq![rest] == before.push(rest));
                assert(v@.skip(v.len() as int).len() == 0);
                assert(rows(out@) + lines(v@.skip(v.len() as int)) == rows(out@));
            }
            pos = v.len();
        } else {
            let stop = if end > pos && v[end - 1] == '\r' {
                end - 1
            } else {
                end
            };
            let piece = slice_of(v, pos, stop);
            out.push(piece);
            proof {
                let raw = rest.take(end - pos);
                assert(raw == v@.subrange(pos as int, end as int));
                if end > pos {
                    assert(raw.last() == v@[end - 1]);
                }
                assert(piece@ == strip_cr(raw));
                assert(rows(out@) == before.push(piece@));
                assert(rest.skip(end - pos + 1) == v@.skip(end + 1));
                assert(before + (seq![piece@] + lines(v@.skip(end + 1))) == before.push(piece@)
                    + lines(v@.skip(end + 1)));
            }
            pos = end + 1;
        }
    }
    proof {
        assert(v@.skip(pos as int).len() == 0);
        assert(rows(out@) + lines(v@.skip(pos as int)) == rows(out@));
    }
    out
}

/// The first `n` characters of `v`, or all of them where there are fewer.
pub fn prefix_string(v: &Vec<char>, n: usize) -> (s: String)
    ensures
        s@ == v@.take(if v.len() <= n { v.len() as int } else { n as int }),
{
    let end = if v.len() <= n {
        v.len()
    } else {
        n
    };
    string_of(v, 0, end)
}

/// The lower-case form of a text, as `str::to_lowercase` gives it.
pub uninterp spec fn lowercase(s: Seq<char>) -> Seq<char>;

/// The upper-case form of a text, as `str::to_uppercase` gives it.
pub uninterp spec fn uppercase(s: Seq<char>) -> Seq<char>;

/// `str::to_lowercase` maps a text to its lower-case form by Unicode's rules;
/// the result depends on the text alone.
pub assume_specification[ str::to_lowercase ](s: &str) -> (r: String)
    ensures
        r@ == lowercase(s@),
;

/// `str::to_uppercase` maps a text to its upper-case form by Unicode's rules;
/// the result depends on the text alone.
pub assume_specification[ str::to_uppercase ](s: &str) -> (r: String)
    ensures
        r@ == uppercase(s@),
;

/// The lower-case form of `v`.
pub fn lowered(v: &Vec<char>) -> (r: Vec<char>)
    ensures
        r@ == lowercase(v@),
{
    let s = to_string(v);
    let l = s.as_str().to_lowercase();
    chars_of(l.as_str())
}

/// The upper-case form of `v`.
pub fn uppered(v: &Vec<char>) -> (r: Vec<char>)
    ensures
        r@ == uppercase(v@),
{
    let s = to_string(v);
    let u = s.as_str().to_uppercase();
    chars_of(u.as_str())
}

/// `s` with every leading repetition of `p` removed.
pub open spec fn strip_prefixes(s: Seq<char>, p: Seq<char>) -> Seq<char>
    decreases s.len(),
{
    if p.len() > 0 && p.is_prefix_of(s) {
        strip_prefixes(s.skip(p.len() as int), p)
    } else {
        s
    }
}

/// `s` with every trailing repetition of `p` removed.
pub open spec fn strip_suffixes(s: Seq<char>, p: Seq<char>) -> Seq<char>
    decreases s.len(),
{
    if p.len() > 0 && p.is_suffix_of(s) {
        strip_suffixes(s.take(s.len() - p.len()), p)
    } else {
        s
    }
}

/// An occurrence at `i` is a prefix of what starts at `i`.
pub proof fn lemma_occurs_at_prefix(s: Seq<char>, p: Seq<char>, i: int)
    requires
        0 <= i <= s.len(),
    ensures
        occurs_at(s, p, i) == p.is_prefix_of(s.skip(i)),
{
    if i + p.len() <= s.len() {
        assert(s.skip(i).subrange(0, p.len() as int) == s.subrange(i, i + p.len()));
    }
}

/// An occurrence that ends at `end` is a suffix of what ends at `end`.
pub proof fn lemma_occurs_at_suffix(s: Seq<char>, p: Seq<char>, end: int)
    requires
        0 <= end <= s.len(),
    ensures
        (end >= p.len() && occurs_at(s, p, end - p.len())) == p.is_suffix_of(s.take(end)),
{
    if end >= p.len() {
        assert(s.take(end).subrange(end - p.len(), end) == s.subrange(end - p.len(), end));
    }
}

/// `v` with every leading repetition of the literal `lit` removed.
pub fn without_prefixes(v: &Vec<char>, lit: &str) -> (r: Vec<char>)
    ensures
        r@ == strip_prefixes(v@, lit@),
{
    let p = chars_of(lit);
    let mut pos: usize = 0;
    assert(v@.skip(0) == v@);
    if p.len() > 0 {
        while matches_at(v, pos, &p)
            invariant
                pos <= v.len(),
                p@ == lit@,
                p@.len() > 0,
                strip_prefixes(v@, lit@) == strip_prefixes(v@.skip(pos as int), lit@),
            decreases v.len() - pos,
        {
            proof {
                lemma_occurs_at_prefix(v@, p@, pos as int);
                assert(v@.skip(pos as int).skip(p@.len() as int) == v@.skip(pos + p@.len()));
            }
            pos += p.len();
        }
        proof {
            lemma_occurs_at_prefix(v@, p@, pos as int);
        }
    }
    let r = slice_of(v, pos, v.len());
    assert(v@.subrange(pos as int, v.len() as int) == v@.skip(pos as int));
    r
}

/// `v` with every trailing repetition of the literal `lit` removed.
pub fn without_suffixes(v: &Vec<char>, lit: &str) -> (r: Vec<char>)
    ensures
        r@ == strip_suffixes(v@, lit@),
{
    let p = chars_of(lit);
    let mut end: usize = v.len();
    assert(v@.take(v.len() as int) == v@);
    if p.len() > 0 {
        while end >= p.len() && matches_at(v, end - p.len(), &p)
            invariant
                end <= v.len(),
                p@ == lit@,
                p@.len() > 0,
                strip_suffixes(v@, lit@) == strip_suffixes(v@.take(end as int), lit@),
            decreases end,
        {
            proof {
                lemma_occurs_at_suffix(v@, p@, end as int);
                assert(v@.take(end as int).take(end - p@.len()) == v@.take(end - p@.len()));
            }
            end -= p.len();
        }
        proof {
            lemma_occurs_at_suffix(v@, p@, end as int);
        }
    }
    let r = slice_of(v, 0, end);
    assert(v@.subrange(0, end as int) == v@.take(end as int));
    r
}

} // verus!
