//! Character-level building blocks: reading a string as characters, trimming,
//! splitting into lines, first-letter casing and decimal rendering.

use vstd::prelude::*;
use vstd::string::*;

verus! {

/// Whether `c` has the Unicode `White_Space` property, as `char::is_whitespace` reports it.
pub uninterp spec fn is_whitespace(c: char) -> bool;

/// `char::is_whitespace` of std: its answer depends on the character alone
/// and is the property named by [`is_whitespace`]. Nothing is claimed about
/// which characters have the property.
pub assume_specification[ char::is_whitespace ](c: char) -> (b: bool)
    ensures
        b == is_whitespace(c),
;

/// `String::push` of std: it appends the given character to the end of the
/// string and changes nothing else of it.
pub assume_specification[ String::push ](s: &mut String, c: char)
    ensures
        final(s)@ == old(s)@.push(c),
;

/// `str::eq` of std, the `==` of string slices: it holds exactly when both
/// slices hold the same characters.
pub assume_specification[ <str as PartialEq>::eq ](a: &str, b: &str) -> (r: bool)
    ensures
        r == (a@ == b@),
;

/// The views of a sequence of strings.
pub open spec fn texts(items: Seq<String>) -> Seq<Seq<char>> {
    items.map_values(|s: String| s@)
}

/// The view of an optional string.
pub open spec fn opt_text(o: Option<String>) -> Option<Seq<char>> {
    match o {
        Some(s) => Some(s@),
        None => None,
    }
}

/// All parts in order, with `sep` between neighbours, over the first `n` parts.
pub open spec fn joined_prefix(parts: Seq<Seq<char>>, sep: Seq<char>, n: nat) -> Seq<char>
    decreases n,
{
    if n == 0 {
        Seq::empty()
    } else if n == 1 {
        parts[0]
    } else {
        joined_prefix(parts, sep, (n - 1) as nat) + sep + parts[n - 1]
    }
}

/// All parts in order, with `sep` between neighbours.
pub open spec fn joined(parts: Seq<Seq<char>>, sep: Seq<char>) -> Seq<char> {
    joined_prefix(parts, sep, parts.len())
}

/// The upper-case form of an ASCII lower-case letter; any other character unchanged.
pub open spec fn ascii_upper(c: char) -> char {
    if 'a' <= c && c <= 'z' {
        ((c as u8) - 32) as char
    } else {
        c
    }
}

/// The lower-case form of an ASCII upper-case letter; any other character unchanged.
pub open spec fn ascii_lower(c: char) -> char {
    if 'A' <= c && c <= 'Z' {
        ((c as u8) + 32) as char
    } else {
        c
    }
}

/// `s` with its first character put through [`ascii_lower`].
pub open spec fn decapitalized(s: Seq<char>) -> Seq<char> {
    if s.len() > 0 {
        s.update(0, ascii_lower(s[0]))
    } else {
        s
    }
}

/// The index of the first character at or after `i` that is not whitespace.
pub open spec fn leading_end(s: Seq<char>, i: int) -> int
    decreases s.len() - i,
{
    if 0 <= i < s.len() && is_whitespace(s[i]) {
        leading_end(s, i + 1)
    } else {
        i
    }
}

/// The index just after the last character before `j` that is not whitespace,
/// never going below `lo`.
pub open spec fn trailing_start(s: Seq<char>, lo: int, j: int) -> int
    decreases j,
{
    if lo < j <= s.len() && 0 < j && is_whitespace(s[j - 1]) {
        trailing_start(s, lo, j - 1)
    } else {
        j
    }
}

/// `s` without its leading and trailing whitespace.
pub open spec fn trimmed(s: Seq<char>) -> Seq<char> {
    let a = leading_end(s, 0);
    let b = trailing_start(s, a, s.len() as int);
    s.subrange(a, b)
}

/// The index of the first line feed at or after `from`, or the length of `s`.
pub open spec fn line_end(s: Seq<char>, from: int) -> int
    decreases s.len() - from,
{
    if 0 <= from < s.len() && s[from] != '\n' {
        line_end(s, from + 1)
    } else {
        from
    }
}

/// `l` without one trailing carriage return.
pub open spec fn without_cr(l: Seq<char>) -> Seq<char> {
    if l.len() > 0 && l.last() == '\r' {
        l.drop_last()
    } else {
        l
    }
}

/// The lines of `s` from index `from` on. A line ends at a line feed, which is
/// dropped together with a carriage return directly before it; a last line
/// without a line feed is kept as it is, and an empty rest gives no line.
pub open spec fn lines_from(s: Seq<char>, from: int) -> Seq<Seq<char>>
    decreases s.len() - from,
{
    if from < 0 || from >= s.len() {
        Seq::empty()
    } else {
        let e = line_end(s, from);
        if from <= e < s.len() {
            seq![without_cr(s.subrange(from, e))] + lines_from(s, e + 1)
        } else {
            seq![s.subrange(from, s.len() as int)]
        }
    }
}

/// The lines of `s`.
pub open spec fn lines_of(s: Seq<char>) -> Seq<Seq<char>> {
    lines_from(s, 0)
}

/// The decimal digit for `d`, which is below ten.
pub open spec fn digit(d: nat) -> char {
    ((48 + d) as u8) as char
}

/// `n` in decimal, without leading zeros.
pub open spec fn decimal(n: nat) -> Seq<char>
    decreases n,
{
    if n < 10 {
        seq![digit(n)]
    } else {
        decimal(n / 10).push(digit(n % 10))
    }
}

/// From `i` on, [`leading_end`] passes over whitespace only, and stops at
/// the end or at a character that is none.
pub proof fn lemma_leading_end(s: Seq<char>, i: int)
    requires
        0 <= i <= s.len(),
    ensures
        i <= leading_end(s, i) <= s.len(),
        forall|k: int| i <= k < leading_end(s, i) ==> is_whitespace(s[k]),
        leading_end(s, i) < s.len() ==> !is_whitespace(s[leading_end(s, i)]),
    decreases s.len() - i,
{
    if i < s.len() && is_whitespace(s[i]) {
        lemma_leading_end(s, i + 1);
    }
}

/// Back from `j`, [`trailing_start`] passes over whitespace only, and stops
/// at `lo` or behind a character that is none.
pub proof fn lemma_trailing_start(s: Seq<char>, lo: int, j: int)
    requires
        0 <= lo <= j <= s.len(),
    ensures
        lo <= trailing_start(s, lo, j) <= j,
        forall|k: int| trailing_start(s, lo, j) <= k < j ==> is_whitespace(s[k]),
        lo < trailing_start(s, lo, j) ==> !is_whitespace(s[trailing_start(s, lo, j) - 1]),
    decreases j,
{
    if lo < j && is_whitespace(s[j - 1]) {
        lemma_trailing_start(s, lo, j - 1);
    }
}

/// Trimming cuts whitespace, and all of it, from both ends: the result is a
/// range of `s`, everything before and after it is whitespace, and it neither
/// starts nor ends with whitespace.
pub proof fn law_trimmed_is_stripped(s: Seq<char>)
    ensures
        ({
            let a = leading_end(s, 0);
            let b = trailing_start(s, a, s.len() as int);
            &&& 0 <= a <= b <= s.len()
            &&& trimmed(s) == s.subrange(a, b)
            &&& forall|k: int| 0 <= k < a ==> is_whitespace(s[k])
            &&& forall|k: int| b <= k < s.len() ==> is_whitespace(s[k])
            &&& trimmed(s).len() > 0 ==> !is_whitespace(trimmed(s).first()) && !is_whitespace(
                trimmed(s).last(),
            )
        }),
{
    lemma_leading_end(s, 0);
    lemma_trailing_start(s, leading_end(s, 0), s.len() as int);
}

/// Appending is associative.
pub proof fn lemma_concat_assoc(a: Seq<char>, b: Seq<char>, c: Seq<char>)
    ensures
        a + b + c == a + (b + c),
{
    assert(a + b + c =~= a + (b + c));
}

pub fn to_ascii_upper(c: char) -> (r: char)
    ensures
        r == ascii_upper(c),
{
    if c >= 'a' && c <= 'z' {
        ((c as u8) - 32) as char
    } else {
        c
    }
}

pub fn to_ascii_lower(c: char) -> (r: char)
    ensures
        r == ascii_lower(c),
{
    if c >= 'A' && c <= 'Z' {
        ((c as u8) + 32) as char
    } else {
        c
    }
}

/// The characters of `s`, in order.
pub fn chars_of(s: &str) -> (v: Vec<char>)
    ensures
        v@ == s@,
{
    let mut v: Vec<char> = Vec::new();
    for c in it: s.chars()
        invariant
            it.seq() == s@,
            v@ == s@.take(it.index()),
    {
        v.push(c);
    }
    v
}

/// The characters of `chars` from `from` up to `to`, as a string.
pub fn text_of(chars: &Vec<char>, from: usize, to: usize) -> (r: String)
    requires
        from <= to <= chars.len(),
    ensures
        r@ == chars@.subrange(from as int, to as int),
{
    let mut r = String::new();
    let mut i: usize = from;
    while i < to
        invariant
            from <= i <= to <= chars.len(),
            r@ == chars@.subrange(from as int, i as int),
        decreases to - i,
    {
        r.push(chars[i]);
        i = i + 1;
        assert(r@ =~= chars@.subrange(from as int, i as int));
    }
    r
}

/// A copy of an optional string.
pub fn clone_opt(o: &Option<String>) -> (r: Option<String>)
    ensures
        opt_text(r) == opt_text(*o),
{
    match o {
        Some(s) => Some(s.clone()),
        None => None,
    }
}

/// Whether two optional strings are both absent or hold the same characters.
pub fn same_opt(a: &Option<String>, b: &Option<String>) -> (r: bool)
    ensures
        r == (opt_text(*a) == opt_text(*b)),
{
    match (a, b) {
        (Some(x), Some(y)) => x.as_str().eq(y.as_str()),
        (None, None) => true,
        _ => false,
    }
}

/// `s` with its first character lower-cased, where that is an ASCII letter.
pub fn decapitalize(s: &str) -> (r: String)
    ensures
        r@ == decapitalized(s@),
{
    let chars = chars_of(s);
    let mut r = String::new();
    if chars.len() > 0 {
        r.push(to_ascii_lower(chars[0]));
        let rest = text_of(&chars, 1, chars.len());
        r.append(rest.as_str());
        assert(r@ =~= decapitalized(s@));
    }
    r
}

/// `s` without leading and trailing whitespace.
pub fn trim(s: &str) -> (r: String)
    ensures
        r@ == trimmed(s@),
{
    let chars = chars_of(s);
    let mut start: usize = 0;
    while start < chars.len() && chars[start].is_whitespace()
        invariant
            start <= chars.len(),
            chars@ == s@,
            leading_end(s@, 0) == leading_end(s@, start as int),
        decreases chars.len() - start,
    {
        start = start + 1;
    }
    let mut end: usize = chars.len();
    while end > start && chars[end - 1].is_whitespace()
        invariant
            start <= end <= chars.len(),
            chars@ == s@,
            trailing_start(s@, start as int, s@.len() as int) == trailing_start(
                s@,
                start as int,
                end as int,
            ),
        decreases end,
    {
        end = end - 1;
    }
    text_of(&chars, start, end)
}

/// The lines of `s`, as [`lines_of`] defines them.
pub fn lines(s: &str) -> (r: Vec<String>)
    ensures
        texts(r@) == lines_of(s@),
{
    let chars = chars_of(s);
    let mut r: Vec<String> = Vec::new();
    let mut pos: usize = 0;
    assert(texts(r@) =~= Seq::empty());
    assert(texts(r@) + lines_from(s@, 0) =~= lines_from(s@, 0));
    while pos < chars.len()
        invariant
            pos <= chars.len(),
            chars@ == s@,
            lines_of(s@) == texts(r@) + lines_from(s@, pos as int),
        decreases chars.len() - pos,
    {
        let mut e: usize = pos;
        while e < chars.len() && chars[e] != '\n'
            invariant
                pos <= e <= chars.len(),
                chars@ == s@,
                line_end(s@, pos as int) == line_end(s@, e as int),
            decreases chars.len() - e,
        {
            e = e + 1;
        }
        let ghost before = texts(r@);
        let ghost rest = lines_from(s@, pos as int);
        if e < chars.len() {
            let stop: usize = if e > pos && chars[e - 1] == '\r' {
                (e - 1) as usize
            } else {
                e
            };
            let l = text_of(&chars, pos, stop);
            assert(l@ =~= without_cr(s@.subrange(pos as int, e as int)));
            r.push(l);
            pos = e + 1;
            assert(texts(r@) =~= before.push(l@));
            assert(before + rest =~= texts(r@) + lines_from(s@, pos as int));
        } else {
            let l = text_of(&chars, pos, e);
            r.push(l);
            pos = e;
            assert(texts(r@) =~= before.push(l@));
            assert(before + rest =~= texts(r@) + lines_from(s@, pos as int));
        }
    }
    assert(texts(r@) + lines_from(s@, pos as int) =~= texts(r@));
    r
}

/// `n` in decimal.
pub fn decimal_text(n: usize) -> (r: String)
    ensures
        r@ == decimal(n as nat),
    decreases n,
{
    if n < 10 {
        let mut r = String::new();
        r.push(((48u8 + (n as u8)) as char));
        assert(r@ =~= decimal(n as nat));
        r
    } else {
        let mut r = decimal_text(n / 10);
        r.push(((48u8 + ((n % 10) as u8)) as char));
        r
    }
}

} // verus!
