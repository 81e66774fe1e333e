//! Character-level helpers for geometry text.

use vstd::prelude::*;

verus! {

/// The characters of `s`, in order.
pub fn chars_of(s: &str) -> (v: Vec<char>)
    ensures
        v@ == s@,
{
    broadcast use vstd::string::group_string_axioms;
    let mut v: Vec<char> = Vec::new();
    for c in it: s.chars()
        invariant
            it.seq() == s@,
            v@ == s@.take(it.index() as int),
    {
        v.push(c);
        proof {
            assert(s@.take(it.index() + 1) =~= s@.take(it.index() as int).push(c));
        }
    }
    proof {
        assert(v@ =~= s@);
    }
    v
}

/// Two texts hold the same characters.
pub fn text_eq(a: &str, b: &str) -> (r: bool)
    ensures
        r == (a@ == b@),
{
    let x = chars_of(a);
    let y = chars_of(b);
    if x.len() != y.len() {
        return false;
    }
    let mut i: usize = 0;
    while i < x.len()
        invariant
            x@ == a@,
            y@ == b@,
            x@.len() == y@.len(),
            i <= x@.len(),
            forall|j: int| 0 <= j < i ==> x@[j] == y@[j],
        decreases x@.len() - i,
    {
        if x[i] != y[i] {
            return false;
        }
        i = i + 1;
    }
    proof {
        assert(x@ =~= y@);
    }
    true
}

/// `char::is_whitespace`: the Unicode `White_Space` characters.
pub open spec fn is_unicode_space(c: char) -> bool {
    let u = c as u32;
    ||| 0x9 <= u <= 0xd
    ||| u == 0x20
    ||| u == 0x85
    ||| u == 0xa0
    ||| u == 0x1680
    ||| 0x2000 <= u <= 0x200a
    ||| u == 0x2028
    ||| u == 0x2029
    ||| u == 0x202f
    ||| u == 0x205f
    ||| u == 0x3000
}

/// Exec form of [`is_unicode_space`].
pub fn is_space_char(c: char) -> (r: bool)
    ensures
        r == is_unicode_space(c),
{
    let u = c as u32;
    (0x9 <= u && u <= 0xd) || u == 0x20 || u == 0x85 || u == 0xa0 || u == 0x1680 || (0x2000 <= u
        && u <= 0x200a) || u == 0x2028 || u == 0x2029 || u == 0x202f || u == 0x205f || u == 0x3000
}

/// `char::to_ascii_uppercase`.
pub open spec fn ascii_upper(c: char) -> char {
    if 'a' <= c <= 'z' {
        ((c as u32) - 32) as char
    } else {
        c
    }
}

/// Exec form of [`ascii_upper`].
pub fn upper_char(c: char) -> (r: char)
    ensures
        r == ascii_upper(c),
{
    if 'a' <= c && c <= 'z' {
        ((c as u32) - 32) as u8 as char
    } else {
        c
    }
}

/// `str::eq_ignore_ascii_case`.
pub open spec fn eq_ignore_case(a: Seq<char>, b: Seq<char>) -> bool {
    a.len() == b.len() && forall|i: int| 0 <= i < a.len() ==> ascii_upper(a[i]) == ascii_upper(b[i])
}

/// First index at or after `i` that is not whitespace (or the end).
pub open spec fn skip_space(s: Seq<char>, i: int) -> int
    decreases s.len() - i,
{
    if i >= s.len() || !is_unicode_space(s[i]) {
        i
    } else {
        skip_space(s, i + 1)
    }
}

/// First index at or after `i` that is whitespace (or the end).
pub open spec fn word_end(s: Seq<char>, i: int) -> int
    decreases s.len() - i,
{
    if i >= s.len() || is_unicode_space(s[i]) {
        i
    } else {
        word_end(s, i + 1)
    }
}

/// `s` split on whitespace is exactly the two words `POINT` and `EMPTY`,
/// in any ASCII case.
pub open spec fn is_empty_point_wkt_spec(s: Seq<char>) -> bool {
    let a = skip_space(s, 0);
    let b = word_end(s, a);
    let c = skip_space(s, b);
    let d = word_end(s, c);
    let e = skip_space(s, d);
    &&& a < b
    &&& eq_ignore_case(s.subrange(a, b), "POINT"@)
    &&& c < d
    &&& eq_ignore_case(s.subrange(c, d), "EMPTY"@)
    &&& e == s.len()
}

fn skip_space_exec(s: &Vec<char>, i: usize) -> (r: usize)
    requires
        i <= s@.len(),
    ensures
        r == skip_space(s@, i as int),
        i <= r <= s@.len(),
{
    let mut j = i;
    while j < s.len() && is_space_char(s[j])
        invariant
            i <= j <= s@.len(),
            skip_space(s@, i as int) == skip_space(s@, j as int),
        decreases s@.len() - j,
    {
        j = j + 1;
    }
    j
}

fn word_end_exec(s: &Vec<char>, i: usize) -> (r: usize)
    requires
        i <= s@.len(),
    ensures
        r == word_end(s@, i as int),
        i <= r <= s@.len(),
{
    let mut j = i;
    while j < s.len() && !is_space_char(s[j])
        invariant
            i <= j <= s@.len(),
            word_end(s@, i as int) == word_end(s@, j as int),
        decreases s@.len() - j,
    {
        j = j + 1;
    }
    j
}

/// `s[from..to]` equals `word` ignoring ASCII case.
fn range_eq_ignore_case(s: &Vec<char>, from: usize, to: usize, word: &str) -> (r: bool)
    requires
        from <= to <= s@.len(),
    ensures
        r == eq_ignore_case(s@.subrange(from as int, to as int), word@),
{
    let w = chars_of(word);
    if to - from != w.len() {
        return false;
    }
    let mut k: usize = 0;
    while k < w.len()
        invariant
            from <= to <= s@.len(),
            to - from == w@.len(),
            w@ == word@,
            0 <= k <= w@.len(),
            forall|i: int| 0 <= i < k ==> ascii_upper(s@[from + i]) == ascii_upper(w@[i]),
        decreases w@.len() - k,
    {
        if upper_char(s[from + k]) != upper_char(w[k]) {
            return false;
        }
        k = k + 1;
    }
    true
}

/// Return true when the WKT is `POINT EMPTY` (any case, any whitespace).
pub fn is_empty_point_wkt(wkt: &str) -> (r: bool)
    ensures
        r == is_empty_point_wkt_spec(wkt@),
{
    let s = chars_of(wkt);
    let a = skip_space_exec(&s, 0);
    let b = word_end_exec(&s, a);
    let c = skip_space_exec(&s, b);
    let d = word_end_exec(&s, c);
    let e = skip_space_exec(&s, d);
    a < b && range_eq_ignore_case(&s, a, b, "POINT") && c < d && range_eq_ignore_case(
        &s,
        c,
        d,
        "EMPTY",
    ) && e == s.len()
}

/// `char::is_ascii_whitespace`: space, tab, line feed, form feed, carriage return.
pub open spec fn is_ascii_space(c: char) -> bool {
    c == ' ' || c == '\t' || c == '\n' || c == '\x0C' || c == '\r'
}

/// `s` without ASCII whitespace, in ASCII upper case.
pub open spec fn compact_upper(s: Seq<char>) -> Seq<char>
    decreases s.len(),
{
    if s.len() == 0 {
        Seq::empty()
    } else {
        let rest = compact_upper(s.drop_last());
        if is_ascii_space(s.last()) {
            rest
        } else {
            rest.push(ascii_upper(s.last()))
        }
    }
}

/// The compact upper-case form of `GEOMETRYCOLLECTION(POINT EMPTY)`.
pub open spec fn gc_single_empty_point_text() -> Seq<char> {
    "GEOMETRYCOLLECTION(POINTEMPTY)"@
}

/// Return true when the WKT is `GEOMETRYCOLLECTION(POINT EMPTY)`, ignoring
/// ASCII whitespace and case.
pub fn is_geometrycollection_single_empty_point_wkt(wkt: &str) -> (r: bool)
    ensures
        r == (compact_upper(wkt@) == gc_single_empty_point_text()),
{
    let s = chars_of(wkt);
    let mut compact: Vec<char> = Vec::new();
    let mut i: usize = 0;
    while i < s.len()
        invariant
            s@ == wkt@,
            0 <= i <= s@.len(),
            compact@ == compact_upper(s@.subrange(0, i as int)),
        decreases s@.len() - i,
    {
        let c = s[i];
        proof {
            assert(s@.subrange(0, i + 1).drop_last() =~= s@.subrange(0, i as int));
        }
        if !(c == ' ' || c == '\t' || c == '\n' || c == '\x0C' || c == '\r') {
            compact.push(upper_char(c));
        }
        i = i + 1;
    }
    proof {
        assert(s@.subrange(0, s@.len() as int) =~= s@);
    }
    let target = chars_of("GEOMETRYCOLLECTION(POINTEMPTY)");
    assert(compact@ == compact_upper(wkt@));
    if compact.len() != target.len() {
        assert(compact@.len() != target@.len());
        return false;
    }
    let mut k: usize = 0;
    while k < target.len()
        invariant
            compact@.len() == target@.len(),
            compact@ == compact_upper(wkt@),
            target@ == gc_single_empty_point_text(),
            0 <= k <= target@.len(),
            forall|j: int| 0 <= j < k ==> compact@[j] == target@[j],
        decreases target@.len() - k,
    {
        if compact[k] != target[k] {
            assert(compact@[k as int] != target@[k as int]);
            return false;
        }
        k = k + 1;
    }
    proof {
        assert(compact@ =~= target@);
    }
    true
}

/// Parenthesis depth reached while scanning `b` from `i` at depth `depth`
/// exceeds `max` at some point (a `)` at depth 0 leaves it at 0).
pub open spec fn parens_exceed(b: Seq<u8>, i: int, depth: int, max: int) -> bool
    decreases b.len() - i,
{
    if i >= b.len() {
        false
    } else if b[i] == 40u8 {
        depth + 1 > max || parens_exceed(b, i + 1, depth + 1, max)
    } else if b[i] == 41u8 {
        parens_exceed(
            b,
            i + 1,
            if depth == 0 {
                0
            } else {
                depth - 1
            },
            max,
        )
    } else {
        parens_exceed(b, i + 1, depth, max)
    }
}

} // verus!
