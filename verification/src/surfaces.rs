//! Reading the SQL function declarations of the diesel surface: the
//! `diesel::define_sql_function!` blocks of a template, and the SQL name and
//! argument count that each block declares.
//!
//! All scanning works on the characters of the text; every delimiter it
//! looks for is ASCII, so a character position found here is the position
//! of the same delimiter in the UTF-8 bytes.

use vstd::prelude::*;
use vstd::string::*;

use crate::spatial::codec::{decimal_i64, decimal_u64, int_text, push_char};
use crate::spatial_index::is_identifier_char;
use crate::spatial::functions::text::{
    ascii_upper, chars_of, is_space_char, is_unicode_space, skip_space, text_eq, upper_char,
};

verus! {

// ---------------------------------------------------------------------------
// Text model
// ---------------------------------------------------------------------------

/// `pat` occurs in `s` starting at `i`.
pub open spec fn occurs_at(s: Seq<char>, i: int, pat: Seq<char>) -> bool {
    0 <= i && i + pat.len() <= s.len() && s.subrange(i, i + pat.len()) == pat
}

/// The first position at or after `from` where `pat` occurs (`str::find`
/// on the text from `from` on).
pub open spec fn find_from(s: Seq<char>, pat: Seq<char>, from: int) -> Option<int>
    decreases s.len() + 1 - from,
{
    if from < 0 || from + pat.len() > s.len() {
        None
    } else if occurs_at(s, from, pat) {
        Some(from)
    } else {
        find_from(s, pat, from + 1)
    }
}

/// Scanning from `i` with `depth` brackets open, the position just past the
/// `close` bracket that closes them all (`None` when the text ends first).
pub open spec fn closing(s: Seq<char>, i: int, depth: nat, open: char, close: char) -> Option<int>
    decreases s.len() - i,
{
    if i < 0 || i >= s.len() {
        None
    } else if s[i] == open {
        closing(s, i + 1, depth + 1, open, close)
    } else if s[i] == close {
        if depth <= 1 {
            Some(i + 1)
        } else {
            closing(s, i + 1, (depth - 1) as nat, open, close)
        }
    } else {
        closing(s, i + 1, depth, open, close)
    }
}

/// The position just after the last non-whitespace character before `j`
/// (0 when there is none).
pub open spec fn trim_back(s: Seq<char>, j: int) -> int
    decreases j,
{
    if j <= 0 || !is_unicode_space(s[j - 1]) {
        j
    } else {
        trim_back(s, j - 1)
    }
}

/// `str::trim`: `s` without its leading and trailing whitespace.
pub open spec fn trimmed(s: Seq<char>) -> Seq<char> {
    let a = skip_space(s, 0);
    let b = trim_back(s, s.len() as int);
    if a >= b {
        Seq::empty()
    } else {
        s.subrange(a, b)
    }
}

/// `str::to_ascii_uppercase`.
pub open spec fn upper_text(s: Seq<char>) -> Seq<char> {
    s.map_values(|c: char| ascii_upper(c))
}

/// The views of a sequence of strings.
pub open spec fn texts(v: Seq<String>) -> Seq<Seq<char>> {
    v.map_values(|s: String| s@)
}

/// A found position is at or after `from` and holds `pat`.
pub proof fn lemma_find_from(s: Seq<char>, pat: Seq<char>, from: int)
    ensures
        find_from(s, pat, from) matches Some(k) ==> from <= k && occurs_at(s, k, pat),
    decreases s.len() + 1 - from,
{
    if from < 0 || from + pat.len() > s.len() {
    } else if occurs_at(s, from, pat) {
    } else {
        lemma_find_from(s, pat, from + 1);
    }
}

/// A closing position lies past `i`, within `s`, just after a `close`.
pub proof fn lemma_closing(s: Seq<char>, i: int, depth: nat, open: char, close: char)
    ensures
        closing(s, i, depth, open, close) matches Some(e) ==> i < e <= s.len() && s[e - 1]
            == close,
    decreases s.len() - i,
{
    if i < 0 || i >= s.len() {
    } else if s[i] == open {
        lemma_closing(s, i + 1, depth + 1, open, close);
    } else if s[i] == close {
        if depth > 1 {
            lemma_closing(s, i + 1, (depth - 1) as nat, open, close);
        }
    } else {
        lemma_closing(s, i + 1, depth, open, close);
    }
}

// ---------------------------------------------------------------------------
// Exec helpers on character vectors
// ---------------------------------------------------------------------------

fn occurs_at_exec(s: &Vec<char>, pat: &Vec<char>, i: usize) -> (r: bool)
    requires
        i + pat@.len() <= s@.len(),
    ensures
        r == occurs_at(s@, i as int, pat@),
{
    let slen = s.len();
    let mut k: usize = 0;
    while k < pat.len()
        invariant
            slen == s@.len(),
            i + pat@.len() <= s@.len(),
            k <= pat@.len(),
            forall|j: int| 0 <= j < k ==> s@[i + j] == pat@[j],
        decreases pat@.len() - k,
    {
        if s[i + k] != pat[k] {
            proof {
                assert(s@.subrange(i as int, i + pat@.len())[k as int] != pat@[k as int]);
            }
            return false;
        }
        k = k + 1;
    }
    proof {
        assert(s@.subrange(i as int, i + pat@.len()) =~= pat@);
    }
    true
}

fn find_exec(s: &Vec<char>, pat: &Vec<char>, from: usize) -> (r: Option<usize>)
    ensures
        r matches Some(k) ==> find_from(s@, pat@, from as int) == Some(k as int),
        r is None ==> find_from(s@, pat@, from as int) is None,
{
    if from > s.len() || pat.len() > s.len() - from {
        return None;
    }
    let mut i = from;
    while pat.len() <= s.len() - i
        invariant
            from <= i,
            i <= s@.len(),
            find_from(s@, pat@, from as int) == find_from(s@, pat@, i as int),
        decreases s@.len() - i,
    {
        if occurs_at_exec(s, pat, i) {
            return Some(i);
        }
        proof {
            if pat@.len() == 0 {
                assert(s@.subrange(i as int, i as int) =~= pat@);
            }
        }
        i = i + 1;
    }
    None
}

fn closing_exec(s: &Vec<char>, start: usize, open: char, close: char) -> (r: Option<usize>)
    requires
        1 <= start,
    ensures
        r matches Some(e) ==> closing(s@, start as int, 1, open, close) == Some(e as int),
        r is None ==> closing(s@, start as int, 1, open, close) is None,
{
    let mut i = start;
    let mut depth: usize = 1;
    while i < s.len()
        invariant
            1 <= start <= i,
            1 <= depth <= i - start + 1,
            closing(s@, start as int, 1, open, close) == closing(
                s@,
                i as int,
                depth as nat,
                open,
                close,
            ),
        decreases s@.len() - i,
    {
        let c = s[i];
        if c == open {
            depth = depth + 1;
        } else if c == close {
            if depth <= 1 {
                return Some(i + 1);
            }
            depth = depth - 1;
        }
        i = i + 1;
    }
    None
}

fn slice_chars(s: &Vec<char>, from: usize, to: usize) -> (v: Vec<char>)
    requires
        from <= to <= s@.len(),
    ensures
        v@ == s@.subrange(from as int, to as int),
{
    let mut v: Vec<char> = Vec::new();
    let mut i = from;
    while i < to
        invariant
            from <= i <= to <= s@.len(),
            v@ == s@.subrange(from as int, i as int),
        decreases to - i,
    {
        v.push(s[i]);
        i = i + 1;
        proof {
            assert(v@ =~= s@.subrange(from as int, i as int));
        }
    }
    v
}

fn trim_chars(s: &Vec<char>) -> (v: Vec<char>)
    ensures
        v@ == trimmed(s@),
{
    let mut a: usize = 0;
    while a < s.len() && is_space_char(s[a])
        invariant
            a <= s@.len(),
            skip_space(s@, 0) == skip_space(s@, a as int),
        decreases s@.len() - a,
    {
        a = a + 1;
    }
    let mut b: usize = s.len();
    while b > 0 && is_space_char(s[b - 1])
        invariant
            b <= s@.len(),
            trim_back(s@, s@.len() as int) == trim_back(s@, b as int),
        decreases b,
    {
        b = b - 1;
    }
    if a >= b {
        Vec::new()
    } else {
        slice_chars(s, a, b)
    }
}

fn string_of(s: &Vec<char>) -> (out: String)
    ensures
        out@ == s@,
{
    let mut out = String::new();
    let mut i: usize = 0;
    while i < s.len()
        invariant
            i <= s@.len(),
            out@ == s@.take(i as int),
        decreases s@.len() - i,
    {
        push_char(&mut out, s[i]);
        i = i + 1;
        proof {
            assert(out@ =~= s@.take(i as int));
        }
    }
    proof {
        assert(out@ =~= s@);
    }
    out
}

// ---------------------------------------------------------------------------
// define_sql_function! blocks
// ---------------------------------------------------------------------------

/// The text that opens a declaration block.
pub open spec fn define_needle() -> Seq<char> {
    "diesel::define_sql_function! {"@
}

/// The error for a block whose braces are not closed.
pub open spec fn unterminated_msg() -> Seq<char> {
    "unterminated diesel::define_sql_function! block in template"@
}

/// The declaration blocks of `s` from `pos` on, each from its opening text
/// through the brace that closes it; `None` when a block is not closed.
pub open spec fn define_blocks_from(s: Seq<char>, pos: int) -> Option<Seq<Seq<char>>>
    decreases s.len() - pos,
{
    match find_from(s, define_needle(), pos) {
        None => Some(Seq::empty()),
        Some(start) => match closing(s, start + define_needle().len(), 1, '{', '}') {
            None => None,
            Some(end) => {
                proof {
                    lemma_find_from(s, define_needle(), pos);
                    lemma_closing(s, start + define_needle().len(), 1, '{', '}');
                }
                match define_blocks_from(s, end) {
                    None => None,
                    Some(rest) => Some(seq![s.subrange(start, end)] + rest),
                }
            },
        },
    }
}

/// Every block read from a template starts with the opening text and ends
/// with the brace that closes it.
pub proof fn law_define_blocks_shape(s: Seq<char>, pos: int)
    ensures
        define_blocks_from(s, pos) matches Some(bs) ==> forall|i: int|
            0 <= i < bs.len() ==> starts_with(#[trigger] bs[i], define_needle()) && bs[i].last()
                == '}',
    decreases s.len() - pos,
{
    match find_from(s, define_needle(), pos) {
        None => {},
        Some(start) => {
            let n = define_needle().len();
            lemma_find_from(s, define_needle(), pos);
            match closing(s, start + n, 1, '{', '}') {
                None => {},
                Some(end) => {
                    lemma_closing(s, start + n, 1, '{', '}');
                    law_define_blocks_shape(s, end);
                    let blk = s.subrange(start, end);
                    assert(blk.subrange(0, n as int) =~= s.subrange(start, start + n));
                    assert(blk.last() == s[end - 1]);
                    match define_blocks_from(s, end) {
                        None => {},
                        Some(rest) => {
                            let bs = seq![blk] + rest;
                            assert forall|i: int| 0 <= i < bs.len() implies starts_with(
                                #[trigger] bs[i],
                                define_needle(),
                            ) && bs[i].last() == '}' by {
                                if i > 0 {
                                    assert(bs[i] == rest[i - 1]);
                                }
                            }
                        },
                    }
                },
            }
        },
    }
}

/// Every `diesel::define_sql_function! { .. }` block of a template, in
/// order, each with its balanced braces.
pub fn extract_diesel_define_blocks(src: &str) -> (r: Result<Vec<String>, String>)
    ensures
        r matches Ok(v) ==> define_blocks_from(src@, 0) == Some(texts(v@)),
        r matches Err(e) ==> define_blocks_from(src@, 0) is None && e@ == unterminated_msg(),
{
    let s = chars_of(src);
    let needle = chars_of("diesel::define_sql_function! {");
    proof {
        reveal_strlit("diesel::define_sql_function! {");
    }
    let mut blocks: Vec<String> = Vec::new();
    let mut pos: usize = 0;
    loop
        invariant
            s@ == src@,
            pos <= s@.len(),
            needle@ == define_needle(),
            define_needle().len() == 30,
            define_blocks_from(s@, 0) == match define_blocks_from(s@, pos as int) {
                None => None,
                Some(rest) => Some(texts(blocks@) + rest),
            },
        decreases s@.len() - pos,
    {
        let start = match find_exec(&s, &needle, pos) {
            None => {
                proof {
                    assert(find_from(s@, define_needle(), pos as int) is None);
                    assert(define_blocks_from(s@, pos as int) == Some(Seq::<Seq<char>>::empty()));
                    assert(texts(blocks@) + Seq::<Seq<char>>::empty() =~= texts(blocks@));
                }
                return Ok(blocks);
            },
            Some(k) => k,
        };
        proof {
            lemma_find_from(s@, define_needle(), pos as int);
        }
        let slen = s.len();
        proof {
            assert(start + 30 <= slen);
        }
        let end = match closing_exec(&s, start + needle.len(), '{', '}') {
            None => {
                proof {
                    assert(define_blocks_from(s@, pos as int) is None);
                }
                return Err(
                    String::from_str("unterminated diesel::define_sql_function! block in template"),
                );
            },
            Some(e) => e,
        };
        proof {
            lemma_closing(s@, start + define_needle().len(), 1, '{', '}');
        }
        let block = string_of(&slice_chars(&s, start, end));
        let ghost before = texts(blocks@);
        blocks.push(block);
        proof {
            assert(texts(blocks@) =~= before.push(s@.subrange(start as int, end as int)));
            match define_blocks_from(s@, end as int) {
                None => {},
                Some(rest) => {
                    assert(texts(blocks@) + rest =~= before + (seq![
                        s@.subrange(start as int, end as int),
                    ] + rest));
                },
            }
        }
        pos = end;
    }
}

// ---------------------------------------------------------------------------
// Declaration signatures
// ---------------------------------------------------------------------------

/// The function name and the argument list of a declaration that starts
/// right after its `fn`: the name is the trimmed text before the first `(`,
/// the arguments the trimmed text inside the balanced parentheses.
pub open spec fn name_args_spec(rest: Seq<char>) -> Option<(Seq<char>, Seq<char>)> {
    match find_from(rest, seq!['('], 0) {
        None => None,
        Some(p) => match closing(rest, p + 1, 1, '(', ')') {
            None => None,
            Some(e) => Some((trimmed(rest.subrange(0, p)), trimmed(rest.subrange(p + 1, e - 1)))),
        },
    }
}

/// The views of a name and argument pair.
pub open spec fn pair_texts(r: Option<(String, String)>) -> Option<(Seq<char>, Seq<char>)> {
    match r {
        None => None,
        Some((a, b)) => Some((a@, b@)),
    }
}

fn name_args_exec(rest: &Vec<char>) -> (r: Option<(String, String)>)
    ensures
        pair_texts(r) == name_args_spec(rest@),
{
    let open = vec!['('];
    proof {
        assert(open@ =~= seq!['(']);
    }
    let p = match find_exec(rest, &open, 0) {
        None => return None,
        Some(p) => p,
    };
    proof {
        lemma_find_from(rest@, seq!['('], 0);
    }
    let n = rest.len();
    proof {
        assert(p + 1 <= n);
    }
    let e = match closing_exec(rest, p + 1, '(', ')') {
        None => return None,
        Some(e) => e,
    };
    proof {
        lemma_closing(rest@, p + 1, 1, '(', ')');
    }
    let name = string_of(&trim_chars(&slice_chars(rest, 0, p)));
    let args = string_of(&trim_chars(&slice_chars(rest, p + 1, e - 1)));
    Some((name, args))
}

/// The function name and argument list of a declaration, read from the
/// byte offset `fn_start` (just after its `fn`) on.
pub fn parse_name_and_args_after_fn(src: &str, fn_start: usize) -> (r: Option<(String, String)>)
    requires
        vstd::utf8::is_char_boundary(src.spec_bytes(), fn_start as int),
    ensures
        pair_texts(r) == name_args_spec(
            vstd::utf8::decode_utf8(
                src.spec_bytes().subrange(fn_start as int, src.spec_bytes().len() as int),
            ),
        ),
{
    proof {
        vstd::utf8::encode_utf8_valid_utf8(src@);
    }
    let (_, rest) = src.split_at(fn_start);
    proof {
        vstd::utf8::encode_utf8_decode_utf8(rest@);
        assert(rest.spec_bytes() =~= src.spec_bytes().subrange(
            fn_start as int,
            src.spec_bytes().len() as int,
        ));
    }
    let chars = chars_of(rest);
    name_args_exec(&chars)
}

/// `s` starts with `p`.
pub open spec fn starts_with(s: Seq<char>, p: Seq<char>) -> bool {
    occurs_at(s, 0, p)
}

/// The end of the line that starts at `i`: the next newline, or the end.
pub open spec fn line_end(s: Seq<char>, i: int) -> int {
    match find_from(s, seq!['\n'], i) {
        Some(k) => k,
        None => s.len() as int,
    }
}

/// The quoted name of a trimmed `#[sql_name = ".."]` line: the text between
/// its first two double quotes (`None` when it has fewer than two).
pub open spec fn quoted_name(t: Seq<char>) -> Option<Seq<char>> {
    match find_from(t, seq!['"'], 0) {
        None => None,
        Some(q1) => match find_from(t, seq!['"'], q1 + 1) {
            None => None,
            Some(q2) => Some(t.subrange(q1 + 1, q2)),
        },
    }
}

/// The SQL name override of the lines of `s` from position `i` on: the
/// first line whose trimmed text starts with `#[sql_name` decides.
pub open spec fn sql_name_from(s: Seq<char>, i: int) -> Option<Seq<char>>
    decreases s.len() + 1 - i,
{
    if i < 0 || i > s.len() {
        None
    } else {
        let e = line_end(s, i);
        let t = trimmed(s.subrange(i, e));
        if starts_with(t, "#[sql_name"@) {
            quoted_name(t)
        } else if e >= s.len() {
            None
        } else {
            proof {
                lemma_find_from(s, seq!['\n'], i);
            }
            sql_name_from(s, e + 1)
        }
    }
}

/// The views of an optional string.
pub open spec fn opt_text(r: Option<String>) -> Option<Seq<char>> {
    match r {
        None => None,
        Some(a) => Some(a@),
    }
}

fn quoted_name_exec(t: &Vec<char>) -> (r: Option<String>)
    ensures
        opt_text(r) == quoted_name(t@),
{
    let quote = vec!['"'];
    proof {
        assert(quote@ =~= seq!['"']);
    }
    let q1 = match find_exec(t, &quote, 0) {
        None => return None,
        Some(q) => q,
    };
    proof {
        lemma_find_from(t@, seq!['"'], 0);
    }
    let n = t.len();
    proof {
        assert(q1 + 1 <= n);
    }
    let q2 = match find_exec(t, &quote, q1 + 1) {
        None => return None,
        Some(q) => q,
    };
    proof {
        lemma_find_from(t@, seq!['"'], q1 + 1);
    }
    Some(string_of(&slice_chars(t, q1 + 1, q2)))
}

fn sql_name_chars(s: &Vec<char>) -> (r: Option<String>)
    ensures
        opt_text(r) == sql_name_from(s@, 0),
{
    let newline = vec!['\n'];
    let marker = chars_of("#[sql_name");
    proof {
        assert(newline@ =~= seq!['\n']);
    }
    let mut i: usize = 0;
    loop
        invariant
            i <= s@.len(),
            newline@ == seq!['\n'],
            marker@ == "#[sql_name"@,
            sql_name_from(s@, 0) == sql_name_from(s@, i as int),
        decreases s@.len() + 1 - i,
    {
        let e = match find_exec(s, &newline, i) {
            Some(k) => k,
            None => s.len(),
        };
        proof {
            lemma_find_from(s@, seq!['\n'], i as int);
        }
        let t = trim_chars(&slice_chars(s, i, e));
        let starts = marker.len() <= t.len() && occurs_at_exec(&t, &marker, 0);
        if starts {
            return quoted_name_exec(&t);
        }
        if e >= s.len() {
            return None;
        }
        i = e + 1;
    }
}

/// The name given by a `#[sql_name = ".."]` attribute line of a block.
pub fn sql_name_override(block: &str) -> (r: Option<String>)
    ensures
        opt_text(r) == sql_name_from(block@, 0),
{
    sql_name_chars(&chars_of(block))
}

/// The number of comma-separated pieces of `s` from position `i` on that
/// hold a non-whitespace character (`seen`: the current piece already does).
pub open spec fn pieces_from(s: Seq<char>, i: int, seen: bool) -> nat
    decreases s.len() - i,
{
    if i < 0 || i >= s.len() {
        if seen {
            1
        } else {
            0
        }
    } else if s[i] == ',' {
        (if seen {
            1nat
        } else {
            0nat
        }) + pieces_from(s, i + 1, false)
    } else {
        pieces_from(s, i + 1, seen || !is_unicode_space(s[i]))
    }
}

/// The number of declared arguments: the non-blank comma-separated pieces.
pub open spec fn arg_count(args: Seq<char>) -> nat {
    pieces_from(args, 0, false)
}

proof fn lemma_pieces_bound(s: Seq<char>, i: int, seen: bool)
    requires
        0 <= i <= s.len(),
    ensures
        pieces_from(s, i, seen) <= s.len() - i + 1,
    decreases s.len() - i,
{
    if i < s.len() {
        if s[i] == ',' {
            lemma_pieces_bound(s, i + 1, false);
        } else {
            lemma_pieces_bound(s, i + 1, seen || !is_unicode_space(s[i]));
        }
    }
}

fn count_args(s: &Vec<char>) -> (n: usize)
    ensures
        n == arg_count(s@),
{
    let mut n: usize = 0;
    let mut seen = false;
    let mut i: usize = 0;
    while i < s.len()
        invariant
            i <= s@.len(),
            n <= i,
            seen ==> n < i,
            arg_count(s@) == n + pieces_from(s@, i as int, seen),
        decreases s@.len() - i,
    {
        if s[i] == ',' {
            if seen {
                n = n + 1;
            }
            seen = false;
        } else {
            seen = seen || !is_space_char(s[i]);
        }
        i = i + 1;
    }
    if seen {
        n = n + 1;
    }
    n
}

fn upper_string(s: &Vec<char>) -> (out: String)
    ensures
        out@ == upper_text(s@),
{
    let mut out = String::new();
    let mut i: usize = 0;
    while i < s.len()
        invariant
            i <= s@.len(),
            out@ == upper_text(s@.take(i as int)),
        decreases s@.len() - i,
    {
        push_char(&mut out, upper_char(s[i]));
        i = i + 1;
        proof {
            assert(upper_text(s@.take(i as int)) =~= upper_text(s@.take(i - 1)).push(
                ascii_upper(s@[i - 1]),
            ));
        }
    }
    proof {
        assert(s@.take(s@.len() as int) =~= s@);
    }
    out
}

/// The SQL signature a declaration block declares: the upper-cased SQL name
/// (the `#[sql_name]` override, else the function name) and the number of
/// arguments.
pub open spec fn signature_spec(b: Seq<char>) -> std::result::Result<(Seq<char>, nat), Seq<char>> {
    match find_from(b, "fn "@, 0) {
        None => Err("missing `fn` in diesel declaration block"@),
        Some(k) => match name_args_spec(b.subrange(k + "fn "@.len(), b.len() as int)) {
            None => Err("failed to parse diesel declaration function signature"@),
            Some((name, args)) => Ok(
                (
                    upper_text(
                        match sql_name_from(b, 0) {
                            Some(o) => o,
                            None => name,
                        },
                    ),
                    arg_count(args),
                ),
            ),
        },
    }
}

/// The views of a signature result.
pub open spec fn signature_view(r: Result<(String, usize), String>) -> std::result::Result<
    (Seq<char>, nat),
    Seq<char>,
> {
    match r {
        Ok((n, c)) => Ok((n@, c as nat)),
        Err(e) => Err(e@),
    }
}

/// The SQL name (upper-cased) and argument count that a declaration block
/// declares.
pub fn diesel_signature(block: &str) -> (r: Result<(String, usize), String>)
    ensures
        signature_view(r) == signature_spec(block@),
{
    let s = chars_of(block);
    let fn_kw = chars_of("fn ");
    proof {
        reveal_strlit("fn ");
    }
    let k = match find_exec(&s, &fn_kw, 0) {
        None => return Err(String::from_str("missing `fn` in diesel declaration block")),
        Some(k) => k,
    };
    proof {
        lemma_find_from(s@, "fn "@, 0);
    }
    let n = s.len();
    proof {
        assert(k + 3 <= n);
    }
    let rest = slice_chars(&s, k + 3, n);
    let (fn_name, args) = match name_args_exec(&rest) {
        None => return Err(
            String::from_str("failed to parse diesel declaration function signature"),
        ),
        Some(pair) => pair,
    };
    let sql_name = match sql_name_chars(&s) {
        Some(o) => o,
        None => fn_name,
    };
    let name_chars = chars_of(sql_name.as_str());
    let args_chars = chars_of(args.as_str());
    Ok((upper_string(&name_chars), count_args(&args_chars)))
}

// ---------------------------------------------------------------------------
// The catalog and what is rendered from it
// ---------------------------------------------------------------------------

/// One SQL function of the catalog: its SQL name, its argument count
/// (SQLite's `nArg`), and the callback symbol that overrides the one derived
/// from the name.
#[derive(Clone, Copy, Debug)]
pub struct SqliteFunctionSpec {
    /// The SQL name.
    pub name: &'static str,
    /// The number of arguments.
    pub n_arg: i32,
    /// The callback symbol to use instead of the derived one.
    pub xfunc_override: Option<&'static str>,
}

/// A signature: upper-cased SQL name and argument count.
pub type SigView = (Seq<char>, nat);

/// The signature a catalog entry declares.
pub open spec fn spec_signature(f: SqliteFunctionSpec) -> SigView {
    (upper_text(f.name@), (f.n_arg as usize) as nat)
}

/// The views of exec signatures.
pub open spec fn sig_views(v: Seq<(String, usize)>) -> Seq<SigView> {
    v.map_values(|p: (String, usize)| (p.0@, p.1 as nat))
}

/// `s` without repeats, each kept where it first occurs.
pub open spec fn dedup(s: Seq<SigView>) -> Seq<SigView>
    decreases s.len(),
{
    if s.len() == 0 {
        Seq::empty()
    } else {
        let d = dedup(s.drop_last());
        if d.contains(s.last()) {
            d
        } else {
            d.push(s.last())
        }
    }
}

/// The catalog's signatures in catalog order, each once.
pub open spec fn catalog_sigs(specs: Seq<SqliteFunctionSpec>) -> Seq<SigView> {
    dedup(specs.map_values(|f: SqliteFunctionSpec| spec_signature(f)))
}

fn sig_eq(a: &(String, usize), b: &(String, usize)) -> (r: bool)
    ensures
        r == ((a.0@, a.1 as nat) == (b.0@, b.1 as nat)),
{
    a.1 == b.1 && a.0 == b.0
}

fn contains_sig(v: &Vec<(String, usize)>, sig: &(String, usize)) -> (r: bool)
    ensures
        r == sig_views(v@).contains((sig.0@, sig.1 as nat)),
{
    let mut j: usize = 0;
    while j < v.len()
        invariant
            j <= v@.len(),
            forall|k: int| 0 <= k < j ==> sig_views(v@)[k] != (sig.0@, sig.1 as nat),
        decreases v@.len() - j,
    {
        if sig_eq(&v[j], sig) {
            proof {
                assert(sig_views(v@)[j as int] == (sig.0@, sig.1 as nat));
            }
            return true;
        }
        j = j + 1;
    }
    false
}

/// The signatures of the catalog, in catalog order, each once.
pub fn catalog_signatures(specs: &[SqliteFunctionSpec]) -> (out: Vec<(String, usize)>)
    ensures
        sig_views(out@) == catalog_sigs(specs@),
{
    let ghost mapped = specs@.map_values(|f: SqliteFunctionSpec| spec_signature(f));
    let mut out: Vec<(String, usize)> = Vec::new();
    let mut i: usize = 0;
    while i < specs.len()
        invariant
            i <= specs@.len(),
            mapped == specs@.map_values(|f: SqliteFunctionSpec| spec_signature(f)),
            sig_views(out@) == dedup(mapped.take(i as int)),
        decreases specs@.len() - i,
    {
        let spec = specs[i];
        let name = upper_string(&chars_of(spec.name));
        let sig = (name, spec.n_arg as usize);
        proof {
            assert(mapped.take(i + 1).drop_last() =~= mapped.take(i as int));
            assert(mapped.take(i + 1).last() == (sig.0@, sig.1 as nat));
        }
        if !contains_sig(&out, &sig) {
            let ghost before = sig_views(out@);
            out.push(sig);
            proof {
                assert(sig_views(out@) =~= before.push((sig.0@, sig.1 as nat)));
            }
        }
        i = i + 1;
    }
    proof {
        assert(mapped.take(specs@.len() as int) =~= mapped);
    }
    out
}

proof fn lemma_dedup(s: Seq<SigView>)
    ensures
        forall|i: int, j: int| 0 <= i < j < dedup(s).len() ==> dedup(s)[i] != dedup(s)[j],
        forall|x: SigView| s.contains(x) <==> dedup(s).contains(x),
    decreases s.len(),
{
    if s.len() > 0 {
        let d = dedup(s.drop_last());
        lemma_dedup(s.drop_last());
        let last = s.last();
        let ds = dedup(s);
        assert forall|x: SigView| s.contains(x) <==> ds.contains(x) by {
            if d.contains(x) {
                if d.contains(last) {
                    assert(ds == d);
                } else {
                    let k = choose|k: int| 0 <= k < d.len() && d[k] == x;
                    assert(ds[k] == x);
                }
            }
            if x == last {
                assert(s[s.len() - 1] == x);
                if !d.contains(last) {
                    assert(ds[d.len() as int] == x);
                }
            }
            if s.contains(x) {
                let k = choose|k: int| 0 <= k < s.len() && s[k] == x;
                if k < s.len() - 1 {
                    assert(s.drop_last()[k] == x);
                    assert(s.drop_last().contains(x));
                }
            }
            if ds.contains(x) {
                let k = choose|k: int| 0 <= k < ds.len() && ds[k] == x;
                if k < d.len() {
                    assert(d[k] == x);
                    assert(d.contains(x));
                    assert(s.drop_last().contains(x));
                    let k2 = choose|k2: int| 0 <= k2 < s.drop_last().len() && s.drop_last()[k2] == x;
                    assert(s[k2] == x);
                }
            }
        }
        if !d.contains(s.last()) {
            assert forall|i: int, j: int| 0 <= i < j < dedup(s).len() implies dedup(s)[i]
                != dedup(s)[j] by {
                if j == d.len() {
                    assert(d[i] == dedup(s)[i]);
                }
            }
        }
    }
}

/// The catalog's signatures hold each entry's signature, and none twice.
pub proof fn law_catalog_sigs_distinct(specs: Seq<SqliteFunctionSpec>)
    ensures
        forall|i: int, j: int|
            0 <= i < j < catalog_sigs(specs).len() ==> catalog_sigs(specs)[i] != catalog_sigs(
                specs,
            )[j],
        forall|k: int|
            0 <= k < specs.len() ==> catalog_sigs(specs).contains(spec_signature(#[trigger] specs[k])),
{
    let m = specs.map_values(|f: SqliteFunctionSpec| spec_signature(f));
    lemma_dedup(m);
    assert forall|k: int| 0 <= k < specs.len() implies catalog_sigs(specs).contains(
        spec_signature(#[trigger] specs[k]),
    ) by {
        assert(m[k] == spec_signature(specs[k]));
        assert(m.contains(m[k]));
    }
}

/// The error for a block whose signature the catalog lacks.
pub open spec fn not_in_catalog_msg(sig: SigView) -> Seq<char> {
    "diesel template declaration is not in canonical catalog: "@ + sig.0 + "("@ + int_text(
        sig.1 as int,
    ) + ")"@
}

/// The error for a catalog signature that no block declares.
pub open spec fn missing_declaration_msg(sig: SigView) -> Seq<char> {
    "diesel declaration missing for catalog function: "@ + sig.0 + "("@ + int_text(sig.1 as int)
        + ")"@
}

/// The signatures of `blocks` in order, or the first block that has no
/// readable signature or one the catalog lacks.
pub open spec fn block_sigs(blocks: Seq<Seq<char>>, catalog: Seq<SigView>) -> std::result::Result<
    Seq<SigView>,
    Seq<char>,
>
    decreases blocks.len(),
{
    if blocks.len() == 0 {
        Ok(Seq::empty())
    } else {
        match block_sigs(blocks.drop_last(), catalog) {
            Err(e) => Err(e),
            Ok(sigs) => match signature_spec(blocks.last()) {
                Err(e) => Err(e),
                Ok(sig) => if catalog.contains(sig) {
                    Ok(sigs.push(sig))
                } else {
                    Err(not_in_catalog_msg(sig))
                },
            },
        }
    }
}

/// The first catalog signature that no block declares.
pub open spec fn first_missing(catalog: Seq<SigView>, sigs: Seq<SigView>) -> Option<SigView>
    decreases catalog.len(),
{
    if catalog.len() == 0 {
        None
    } else {
        match first_missing(catalog.drop_last(), sigs) {
            Some(m) => Some(m),
            None => if sigs.contains(catalog.last()) {
                None
            } else {
                Some(catalog.last())
            },
        }
    }
}

/// `str::trim_end`: `s` without its trailing whitespace.
pub open spec fn trimmed_end(s: Seq<char>) -> Seq<char> {
    s.subrange(0, trim_back(s, s.len() as int))
}

/// The blocks declaring `sig`, in template order, each without trailing
/// whitespace and followed by a blank line.
pub open spec fn group_text(sig: SigView, blocks: Seq<Seq<char>>, sigs: Seq<SigView>) -> Seq<char>
    decreases blocks.len(),
{
    if blocks.len() == 0 || sigs.len() == 0 {
        Seq::empty()
    } else {
        group_text(sig, blocks.drop_last(), sigs.drop_last()) + if sigs.last() == sig {
            trimmed_end(blocks.last()) + "\n\n"@
        } else {
            Seq::empty()
        }
    }
}

/// The groups of the catalog's signatures, in catalog order.
pub open spec fn rendered_groups(catalog: Seq<SigView>, blocks: Seq<Seq<char>>, sigs: Seq<SigView>) -> Seq<char>
    decreases catalog.len(),
{
    if catalog.len() == 0 {
        Seq::empty()
    } else {
        rendered_groups(catalog.drop_last(), blocks, sigs) + group_text(catalog.last(), blocks, sigs)
    }
}

/// The diesel declarations of a template reordered by the catalog, or the
/// first inconsistency between the two.
/// The two banner lines (and the blank line after them) every generated
/// file starts with.
pub open spec fn generated_banner() -> Seq<char> {
    "// @generated by `cargo run -p xtask -- gen-function-surfaces`\n// DO NOT EDIT BY HAND.\n\n"@
}

pub open spec fn diesel_functions_spec(template: Seq<char>, specs: Seq<SqliteFunctionSpec>) -> std::result::Result<
    Seq<char>,
    Seq<char>,
> {
    let catalog = catalog_sigs(specs);
    match define_blocks_from(template, 0) {
        None => Err(unterminated_msg()),
        Some(blocks) => match block_sigs(blocks, catalog) {
            Err(e) => Err(e),
            Ok(sigs) => match first_missing(catalog, sigs) {
                Some(m) => Err(missing_declaration_msg(m)),
                None => Ok(generated_banner() + rendered_groups(catalog, blocks, sigs)),
            },
        },
    }
}

proof fn lemma_block_sigs_prefix(s: Seq<Seq<char>>, c: Seq<SigView>, j: int)
    requires
        0 <= j <= s.len(),
        block_sigs(s.take(j), c) is Err,
    ensures
        block_sigs(s, c) == block_sigs(s.take(j), c),
    decreases s.len(),
{
    if j < s.len() {
        assert(s.drop_last().take(j) =~= s.take(j));
        lemma_block_sigs_prefix(s.drop_last(), c, j);
    } else {
        assert(s.take(j) =~= s);
    }
}

proof fn lemma_first_missing_prefix(c: Seq<SigView>, sigs: Seq<SigView>, k: int)
    requires
        0 <= k <= c.len(),
        first_missing(c.take(k), sigs) is Some,
    ensures
        first_missing(c, sigs) == first_missing(c.take(k), sigs),
    decreases c.len(),
{
    if k < c.len() {
        assert(c.drop_last().take(k) =~= c.take(k));
        lemma_first_missing_prefix(c.drop_last(), sigs, k);
    } else {
        assert(c.take(k) =~= c);
    }
}

/// The views of a text result.
pub open spec fn text_result(r: Result<String, String>) -> std::result::Result<Seq<char>, Seq<char>> {
    match r {
        Ok(t) => Ok(t@),
        Err(e) => Err(e@),
    }
}

fn sig_text(prefix: &str, sig: &(String, usize)) -> (out: String)
    ensures
        out@ == prefix@ + sig.0@ + "("@ + int_text(sig.1 as int) + ")"@,
{
    let n = decimal_u64(sig.1 as u64);
    String::from_str(prefix).concat(sig.0.as_str()).concat("(").concat(n.as_str()).concat(")")
}

fn trim_end_string(s: &str) -> (out: String)
    ensures
        out@ == trimmed_end(s@),
{
    let cs = chars_of(s);
    let mut b: usize = cs.len();
    while b > 0 && is_space_char(cs[b - 1])
        invariant
            cs@ == s@,
            b <= cs@.len(),
            trim_back(cs@, cs@.len() as int) == trim_back(cs@, b as int),
        decreases b,
    {
        b = b - 1;
    }
    string_of(&slice_chars(&cs, 0, b))
}

fn append_group(
    out: &mut String,
    sig: &(String, usize),
    blocks: &Vec<String>,
    sigs: &Vec<(String, usize)>,
)
    requires
        blocks@.len() == sigs@.len(),
    ensures
        final(out)@ == old(out)@ + group_text(
            (sig.0@, sig.1 as nat),
            texts(blocks@),
            sig_views(sigs@),
        ),
{
    let ghost start = out@;
    let ghost sv = (sig.0@, sig.1 as nat);
    let mut i: usize = 0;
    while i < blocks.len()
        invariant
            i <= blocks@.len(),
            blocks@.len() == sigs@.len(),
            sv == (sig.0@, sig.1 as nat),
            out@ == start + group_text(
                sv,
                texts(blocks@).take(i as int),
                sig_views(sigs@).take(i as int),
            ),
        decreases blocks@.len() - i,
    {
        let ghost before = out@;
        proof {
            assert(texts(blocks@).take(i + 1).drop_last() =~= texts(blocks@).take(i as int));
            assert(sig_views(sigs@).take(i + 1).drop_last() =~= sig_views(sigs@).take(i as int));
        }
        if sig_eq(&sigs[i], sig) {
            let t = trim_end_string(blocks[i].as_str());
            out.append(t.as_str());
            out.append("\n\n");
            proof {
                assert(out@ =~= before + (t@ + "\n\n"@));
            }
        }
        i = i + 1;
    }
    proof {
        assert(texts(blocks@).take(blocks@.len() as int) =~= texts(blocks@));
        assert(sig_views(sigs@).take(sigs@.len() as int) =~= sig_views(sigs@));
    }
}

/// The `define_sql_function!` declarations of a diesel template, reordered
/// to follow the catalog: every block must declare a catalog signature and
/// every catalog signature must be declared; the text starts with the
/// generated-file banner.
pub fn render_diesel_functions(template: &str, specs: &[SqliteFunctionSpec]) -> (r: Result<
    String,
    String,
>)
    ensures
        text_result(r) == diesel_functions_spec(template@, specs@),
{
    let blocks = extract_diesel_define_blocks(template)?;
    let catalog = catalog_signatures(specs);
    let ghost bv = texts(blocks@);
    let ghost cv = sig_views(catalog@);
    let mut sigs: Vec<(String, usize)> = Vec::new();
    proof {
        assert(bv.take(0) =~= Seq::<Seq<char>>::empty());
        assert(sig_views(sigs@) =~= Seq::<SigView>::empty());
    }
    let mut i: usize = 0;
    while i < blocks.len()
        invariant
            i <= blocks@.len(),
            sigs@.len() == i,
            bv == texts(blocks@),
            cv == sig_views(catalog@),
            define_blocks_from(template@, 0) == Some(bv),
            cv == catalog_sigs(specs@),
            block_sigs(bv.take(i as int), cv) == Ok::<Seq<SigView>, Seq<char>>(sig_views(sigs@)),
        decreases blocks@.len() - i,
    {
        proof {
            assert(bv.take(i + 1).drop_last() =~= bv.take(i as int));
        }
        let sig = match diesel_signature(blocks[i].as_str()) {
            Ok(sig) => sig,
            Err(e) => {
                proof {
                    lemma_block_sigs_prefix(bv, cv, i + 1);
                }
                return Err(e);
            },
        };
        if !contains_sig(&catalog, &sig) {
            proof {
                lemma_block_sigs_prefix(bv, cv, i + 1);
            }
            return Err(sig_text("diesel template declaration is not in canonical catalog: ", &sig));
        }
        let ghost before = sig_views(sigs@);
        sigs.push(sig);
        proof {
            assert(sig_views(sigs@) =~= before.push((sig.0@, sig.1 as nat)));
        }
        i = i + 1;
    }
    proof {
        assert(bv.take(blocks@.len() as int) =~= bv);
    }
    let ghost sv = sig_views(sigs@);
    proof {
        assert(cv.take(0) =~= Seq::<SigView>::empty());
    }
    let mut k: usize = 0;
    while k < catalog.len()
        invariant
            k <= catalog@.len(),
            cv == sig_views(catalog@),
            sv == sig_views(sigs@),
            define_blocks_from(template@, 0) == Some(bv),
            cv == catalog_sigs(specs@),
            block_sigs(bv, cv) == Ok::<Seq<SigView>, Seq<char>>(sv),
            first_missing(cv.take(k as int), sv) is None,
        decreases catalog@.len() - k,
    {
        proof {
            assert(cv.take(k + 1).drop_last() =~= cv.take(k as int));
        }
        if !contains_sig(&sigs, &catalog[k]) {
            proof {
                lemma_first_missing_prefix(cv, sv, k + 1);
            }
            return Err(sig_text("diesel declaration missing for catalog function: ", &catalog[k]));
        }
        k = k + 1;
    }
    proof {
        assert(cv.take(catalog@.len() as int) =~= cv);
    }
    let mut out = String::from_str("// @generated by `cargo run -p xtask -- gen-function-surfaces`\n// DO NOT EDIT BY HAND.\n\n");
    let ghost banner = out@;
    proof {
        assert(cv.take(0) =~= Seq::<SigView>::empty());
        assert(banner + rendered_groups(cv.take(0), bv, sv) =~= banner);
    }
    let mut k: usize = 0;
    while k < catalog.len()
        invariant
            k <= catalog@.len(),
            blocks@.len() == sigs@.len(),
            bv == texts(blocks@),
            cv == sig_views(catalog@),
            sv == sig_views(sigs@),
            banner == generated_banner(),
            out@ == banner + rendered_groups(cv.take(k as int), bv, sv),
        decreases catalog@.len() - k,
    {
        proof {
            assert(cv.take(k + 1).drop_last() =~= cv.take(k as int));
        }
        append_group(&mut out, &catalog[k], &blocks, &sigs);
        k = k + 1;
    }
    proof {
        assert(cv.take(catalog@.len() as int) =~= cv);
    }
    Ok(out)
}

/// `char::to_ascii_lowercase`.
pub open spec fn ascii_lower(c: char) -> char {
    if 'A' <= c <= 'Z' {
        ((c as u32) + 32) as char
    } else {
        c
    }
}

/// The name's ASCII letters, digits and underscores, lower-cased.
pub open spec fn symbol_base(name: Seq<char>) -> Seq<char>
    decreases name.len(),
{
    if name.len() == 0 {
        Seq::empty()
    } else {
        symbol_base(name.drop_last()) + if is_identifier_char(name.last()) {
            seq![ascii_lower(name.last())]
        } else {
            Seq::empty()
        }
    }
}

/// The callback symbol of a catalog entry: its override, else the symbol
/// base with the argument count when the name is overloaded, then `_xfunc`.
pub open spec fn callback_symbol_spec(f: SqliteFunctionSpec, overloaded: bool) -> Seq<char> {
    match f.xfunc_override {
        Some(o) => o@,
        None => if overloaded {
            symbol_base(f.name@) + "_"@ + int_text(f.n_arg as int) + "_xfunc"@
        } else {
            symbol_base(f.name@) + "_xfunc"@
        },
    }
}

fn lower_char(c: char) -> (r: char)
    ensures
        r == ascii_lower(c),
{
    if 'A' <= c && c <= 'Z' {
        ((c as u32) + 32) as u8 as char
    } else {
        c
    }
}

/// The callback symbol registered for a catalog entry.
pub fn callback_symbol(spec: &SqliteFunctionSpec, overloaded: bool) -> (r: String)
    ensures
        r@ == callback_symbol_spec(*spec, overloaded),
{
    if let Some(override_name) = spec.xfunc_override {
        return String::from_str(override_name);
    }
    let name = chars_of(spec.name);
    let mut base = String::new();
    let mut i: usize = 0;
    while i < name.len()
        invariant
            i <= name@.len(),
            name@ == spec.name@,
            base@ == symbol_base(name@.take(i as int)),
        decreases name@.len() - i,
    {
        let ch = name[i];
        proof {
            assert(name@.take(i + 1).drop_last() =~= name@.take(i as int));
        }
        let keep = ('a' <= ch && ch <= 'z') || ('A' <= ch && ch <= 'Z') || ('0' <= ch && ch <= '9')
            || ch == '_';
        if keep {
            push_char(&mut base, lower_char(ch));
        }
        i = i + 1;
        proof {
            assert(base@ =~= symbol_base(name@.take(i as int)));
        }
    }
    proof {
        assert(name@.take(name@.len() as int) =~= name@);
    }
    if overloaded {
        let n = decimal_i64(spec.n_arg as i64);
        base.concat("_").concat(n.as_str()).concat("_xfunc")
    } else {
        base.concat("_xfunc")
    }
}

/// How many catalog entries carry the SQL name `name`.
pub open spec fn name_count(specs: Seq<SqliteFunctionSpec>, name: Seq<char>) -> nat
    decreases specs.len(),
{
    if specs.len() == 0 {
        0
    } else {
        name_count(specs.drop_last(), name) + if specs.last().name@ == name {
            1nat
        } else {
            0nat
        }
    }
}

/// The table line registering one catalog entry.
pub open spec fn callback_line(f: SqliteFunctionSpec, specs: Seq<SqliteFunctionSpec>) -> Seq<char> {
    "    callback_spec!(\""@ + f.name@ + "\", "@ + int_text(f.n_arg as int) + ", "@
        + callback_symbol_spec(f, name_count(specs, f.name@) > 1) + "),\n"@
}

/// The table lines of `entries`, in order.
pub open spec fn callback_lines(entries: Seq<SqliteFunctionSpec>, specs: Seq<SqliteFunctionSpec>) -> Seq<char>
    decreases entries.len(),
{
    if entries.len() == 0 {
        Seq::empty()
    } else {
        callback_lines(entries.drop_last(), specs) + callback_line(entries.last(), specs)
    }
}

/// The callback table `const_name` of the catalog entries.
pub open spec fn callbacks_spec(const_name: Seq<char>, specs: Seq<SqliteFunctionSpec>) -> Seq<char> {
    generated_banner() + "const "@ + const_name + ": &[SqliteCallbackSpec] = &[\n"@ + callback_lines(specs, specs)
        + "];\n"@
}

fn count_name(specs: &[SqliteFunctionSpec], name: &str) -> (n: usize)
    ensures
        n == name_count(specs@, name@),
{
    let mut n: usize = 0;
    let mut i: usize = 0;
    while i < specs.len()
        invariant
            i <= specs@.len(),
            n <= i,
            n == name_count(specs@.take(i as int), name@),
        decreases specs@.len() - i,
    {
        proof {
            assert(specs@.take(i + 1).drop_last() =~= specs@.take(i as int));
        }
        if text_eq(specs[i].name, name) {
            n = n + 1;
        }
        i = i + 1;
    }
    proof {
        assert(specs@.take(specs@.len() as int) =~= specs@);
    }
    n
}

/// The callback table of the catalog entries, named `const_name`, one line
/// per entry in catalog order, after the generated-file banner.
pub fn render_sqlite_callbacks(const_name: &str, specs: &[SqliteFunctionSpec]) -> (out: String)
    ensures
        out@ == callbacks_spec(const_name@, specs@),
{
    let mut out = String::from_str("// @generated by `cargo run -p xtask -- gen-function-surfaces`\n// DO NOT EDIT BY HAND.\n\n").concat("const ").concat(const_name).concat(
        ": &[SqliteCallbackSpec] = &[\n",
    );
    let ghost head = out@;
    let mut i: usize = 0;
    while i < specs.len()
        invariant
            i <= specs@.len(),
            out@ == head + callback_lines(specs@.take(i as int), specs@),
        decreases specs@.len() - i,
    {
        proof {
            assert(specs@.take(i + 1).drop_last() =~= specs@.take(i as int));
        }
        let spec = specs[i];
        let overloaded = count_name(specs, spec.name) > 1;
        let xfunc = callback_symbol(&spec, overloaded);
        let n = decimal_i64(spec.n_arg as i64);
        let ghost before = out@;
        out.append("    callback_spec!(\"");
        out.append(spec.name);
        out.append("\", ");
        out.append(n.as_str());
        out.append(", ");
        out.append(xfunc.as_str());
        out.append("),\n");
        i = i + 1;
        proof {
            assert(out@ =~= before + callback_line(spec, specs@));
        }
    }
    proof {
        assert(specs@.take(specs@.len() as int) =~= specs@);
    }
    out.append("];\n");
    out
}

} // verus!
