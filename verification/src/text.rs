//! Text utilities over character sequences.
//!
//! Strings are modelled by their character sequences (`Seq<char>`). The
//! executable helpers here work on `Vec<char>` and are proved against the
//! spec functions, which state the std behaviour they stand for.

use vstd::prelude::*;

verus! {

// ---------------------------------------------------------------------------
// Trusted std primitives
// ---------------------------------------------------------------------------

/// Appends one character to a string (`String::push`).
/// Claims only that the string's characters gain `c` at the end.
#[verifier::external_body]
pub(crate) fn push_char(s: &mut String, c: char)
    ensures
        final(s)@ == old(s)@.push(c),
{
    s.push(c);
}

// ---------------------------------------------------------------------------
// Spec functions
// ---------------------------------------------------------------------------

/// `p` occurs in `s` starting at index `i`.
pub open spec fn matches_at(s: Seq<char>, p: Seq<char>, i: int) -> bool {
    &&& 0 <= i
    &&& i + p.len() <= s.len()
    &&& forall|k: int| 0 <= k < p.len() ==> #[trigger] s[i + k] == p[k]
}

/// The first index `>= i` at which `p` occurs in `s` (what `str::find` gives from `i`).
pub open spec fn find_from(s: Seq<char>, p: Seq<char>, i: int) -> Option<int>
    decreases s.len() - i,
{
    if i < 0 || i + p.len() > s.len() {
        None
    } else if matches_at(s, p, i) {
        Some(i)
    } else {
        find_from(s, p, i + 1)
    }
}

/// The first occurrence of `p` in `s`.
pub open spec fn find_spec(s: Seq<char>, p: Seq<char>) -> Option<int> {
    find_from(s, p, 0)
}

/// `p` occurs somewhere in `s`.
pub open spec fn contains_spec(s: Seq<char>, p: Seq<char>) -> bool {
    exists|i: int| matches_at(s, p, i)
}

/// `s` starts with `p`.
pub open spec fn starts_with_spec(s: Seq<char>, p: Seq<char>) -> bool {
    p.len() <= s.len() && s.subrange(0, p.len() as int) == p
}

/// `s` ends with `p`.
pub open spec fn ends_with_spec(s: Seq<char>, p: Seq<char>) -> bool {
    p.len() <= s.len() && s.subrange(s.len() - p.len(), s.len() as int) == p
}

/// Left-to-right replacement of the non-overlapping occurrences of `p`
/// by `r`, scanning from index `i` (what `str::replace` does for a
/// non-empty pattern).
pub open spec fn replace_from(s: Seq<char>, p: Seq<char>, r: Seq<char>, i: int) -> Seq<char>
    recommends
        p.len() > 0,
    decreases s.len() - i,
{
    if i < 0 || i >= s.len() || p.len() == 0 {
        if 0 <= i < s.len() { s.subrange(i, s.len() as int) } else { Seq::empty() }
    } else if matches_at(s, p, i) {
        r + replace_from(s, p, r, i + p.len())
    } else {
        seq![s[i]] + replace_from(s, p, r, i + 1)
    }
}

/// `str::replace(p, r)` for a non-empty pattern `p`.
pub open spec fn replace_spec(s: Seq<char>, p: Seq<char>, r: Seq<char>) -> Seq<char> {
    replace_from(s, p, r, 0)
}

/// One left-to-right pass over `s` from index `i` that puts `r1` for each
/// occurrence of `p1` and `r2` for each occurrence of `p2` (`p1` first
/// where both start). The inserted texts are not searched again.
pub open spec fn replace_two_from(s: Seq<char>, p1: Seq<char>, r1: Seq<char>, p2: Seq<char>, r2: Seq<char>, i: int) -> Seq<char>
    decreases s.len() - i,
{
    if i < 0 || i >= s.len() {
        Seq::empty()
    } else if p1.len() > 0 && matches_at(s, p1, i) {
        r1 + replace_two_from(s, p1, r1, p2, r2, i + p1.len())
    } else if p2.len() > 0 && matches_at(s, p2, i) {
        r2 + replace_two_from(s, p1, r1, p2, r2, i + p2.len())
    } else {
        seq![s[i]] + replace_two_from(s, p1, r1, p2, r2, i + 1)
    }
}

/// Both placeholders replaced in one pass over `s` only.
pub open spec fn replace_two_spec(s: Seq<char>, p1: Seq<char>, r1: Seq<char>, p2: Seq<char>, r2: Seq<char>) -> Seq<char> {
    replace_two_from(s, p1, r1, p2, r2, 0)
}

/// Unicode `White_Space`, the property `char::is_whitespace` tests.
pub open spec fn is_ws(c: char) -> bool {
    ||| ('\u{9}' <= c && c <= '\u{d}')
    ||| c == ' '
    ||| c == '\u{85}'
    ||| c == '\u{a0}'
    ||| c == '\u{1680}'
    ||| ('\u{2000}' <= c && c <= '\u{200a}')
    ||| c == '\u{2028}'
    ||| c == '\u{2029}'
    ||| c == '\u{202f}'
    ||| c == '\u{205f}'
    ||| c == '\u{3000}'
}

/// `char::is_ascii_digit`.
pub open spec fn is_digit(c: char) -> bool {
    '0' <= c && c <= '9'
}

/// `char::is_ascii_hexdigit`.
pub open spec fn is_hex(c: char) -> bool {
    ||| ('0' <= c && c <= '9')
    ||| ('a' <= c && c <= 'f')
    ||| ('A' <= c && c <= 'F')
}

/// `str::trim_start`.
pub open spec fn trim_start_spec(s: Seq<char>) -> Seq<char>
    decreases s.len(),
{
    if s.len() > 0 && is_ws(s[0]) {
        trim_start_spec(s.drop_first())
    } else {
        s
    }
}

/// `str::trim_end`.
pub open spec fn trim_end_spec(s: Seq<char>) -> Seq<char>
    decreases s.len(),
{
    if s.len() > 0 && is_ws(s.last()) {
        trim_end_spec(s.drop_last())
    } else {
        s
    }
}

/// `str::trim`.
pub open spec fn trim_spec(s: Seq<char>) -> Seq<char> {
    trim_end_spec(trim_start_spec(s))
}

/// A text holds only whitespace (its trim is empty).
pub open spec fn is_blank(s: Seq<char>) -> bool {
    forall|k: int| 0 <= k < s.len() ==> #[trigger] is_ws(s[k])
}

/// The first index `>= i` holding `c`.
pub open spec fn find_char_from(s: Seq<char>, c: char, i: int) -> Option<int>
    decreases s.len() - i,
{
    if i < 0 || i >= s.len() {
        None
    } else if s[i] == c {
        Some(i)
    } else {
        find_char_from(s, c, i + 1)
    }
}

/// One line of `str::lines`: drops a `\r` that precedes the line's `\n`.
pub open spec fn strip_cr(line: Seq<char>) -> Seq<char> {
    if line.len() > 0 && line.last() == '\r' {
        line.drop_last()
    } else {
        line
    }
}

/// `str::lines` on the text from index `i`: split at `\n`, a `\r` before a
/// `\n` dropped, no empty last line for a trailing line ending.
pub open spec fn lines_from(s: Seq<char>, i: int) -> Seq<Seq<char>>
    decreases s.len() - i,
{
    if i < 0 || i >= s.len() {
        Seq::empty()
    } else {
        match find_char_from(s, '\n', i) {
            None => seq![s.subrange(i, s.len() as int)],
            Some(j) => if i <= j < s.len() {
                seq![strip_cr(s.subrange(i, j))] + lines_from(s, j + 1)
            } else {
                Seq::empty()
            },
        }
    }
}

/// `str::lines`.
pub open spec fn lines_spec(s: Seq<char>) -> Seq<Seq<char>> {
    lines_from(s, 0)
}

/// The decimal digit for `d < 10`.
pub open spec fn digit_char(d: nat) -> char {
    if d == 0 { '0' }
    else if d == 1 { '1' }
    else if d == 2 { '2' }
    else if d == 3 { '3' }
    else if d == 4 { '4' }
    else if d == 5 { '5' }
    else if d == 6 { '6' }
    else if d == 7 { '7' }
    else if d == 8 { '8' }
    else { '9' }
}

/// The decimal representation of `n` (what `to_string` gives for an unsigned integer).
pub open spec fn decimal(n: nat) -> Seq<char>
    decreases n,
{
    if n < 10 {
        seq![digit_char(n)]
    } else {
        decimal(n / 10).push(digit_char(n % 10))
    }
}

/// `items.join(sep)`.
pub open spec fn join_spec(items: Seq<Seq<char>>, sep: Seq<char>) -> Seq<char>
    decreases items.len(),
{
    if items.len() == 0 {
        Seq::empty()
    } else if items.len() == 1 {
        items[0]
    } else {
        join_spec(items.drop_last(), sep) + sep + items.last()
    }
}

/// The characters of every string in a sequence.
pub open spec fn views(v: Seq<String>) -> Seq<Seq<char>> {
    v.map_values(|s: String| s@)
}

// ---------------------------------------------------------------------------
// Lemmas
// ---------------------------------------------------------------------------

/// `find_from` gives the least matching index at or after `i`.
pub proof fn lemma_find_from(s: Seq<char>, p: Seq<char>, i: int)
    requires
        0 <= i,
    ensures
        find_from(s, p, i) matches Some(j) ==> i <= j && matches_at(s, p, j) && forall|k: int|
            i <= k < j ==> !matches_at(s, p, k),
        find_from(s, p, i) is None ==> forall|k: int| i <= k ==> !matches_at(s, p, k),
    decreases s.len() - i,
{
    if i + p.len() > s.len() {
    } else if matches_at(s, p, i) {
    } else {
        lemma_find_from(s, p, i + 1);
        if find_from(s, p, i + 1) is None {
            assert forall|k: int| i <= k implies !matches_at(s, p, k) by {
                if k > i {
                }
            }
        }
    }
}

/// A match at `k` is found by a search from any index at or before `k`.
pub proof fn lemma_find_some(s: Seq<char>, p: Seq<char>, i: int, k: int)
    requires
        0 <= i <= k,
        matches_at(s, p, k),
    ensures
        find_from(s, p, i) is Some,
        find_from(s, p, i).unwrap() <= k,
{
    lemma_find_from(s, p, i);
}

/// `contains` agrees with the search.
pub proof fn lemma_contains_find(s: Seq<char>, p: Seq<char>)
    ensures
        contains_spec(s, p) <==> find_spec(s, p) is Some,
{
    lemma_find_from(s, p, 0);
    if contains_spec(s, p) {
        let k = choose|k: int| matches_at(s, p, k);
        lemma_find_some(s, p, 0, k);
    }
}

/// Trimming the start removes a whitespace-only prefix.
pub proof fn lemma_trim_start_skip(s: Seq<char>, k: int)
    requires
        0 <= k <= s.len(),
        forall|j: int| 0 <= j < k ==> #[trigger] is_ws(s[j]),
    ensures
        trim_start_spec(s) == trim_start_spec(s.subrange(k, s.len() as int)),
    decreases k,
{
    if k > 0 {
        assert(s.drop_first().subrange(k - 1, s.drop_first().len() as int) =~= s.subrange(
            k,
            s.len() as int,
        ));
        assert forall|j: int| 0 <= j < k - 1 implies #[trigger] is_ws(s.drop_first()[j]) by {
            assert(is_ws(s[j + 1]));
        }
        lemma_trim_start_skip(s.drop_first(), k - 1);
    } else {
        assert(s.subrange(0, s.len() as int) =~= s);
    }
}

/// Trimming the end removes a whitespace-only suffix.
pub proof fn lemma_trim_end_take(s: Seq<char>, k: int)
    requires
        0 <= k <= s.len(),
        forall|j: int| k <= j < s.len() ==> #[trigger] is_ws(s[j]),
    ensures
        trim_end_spec(s) == trim_end_spec(s.subrange(0, k)),
    decreases s.len() - k,
{
    if k < s.len() {
        assert(s.drop_last().subrange(0, k) =~= s.subrange(0, k));
        lemma_trim_end_take(s.drop_last(), k);
    } else {
        assert(s.subrange(0, k) =~= s);
    }
}

/// A whitespace-only text trims to nothing.
pub proof fn lemma_trim_blank(s: Seq<char>)
    requires
        is_blank(s),
    ensures
        trim_start_spec(s).len() == 0,
        trim_spec(s).len() == 0,
{
    lemma_trim_start_skip(s, s.len() as int);
    assert(s.subrange(s.len() as int, s.len() as int).len() == 0);
}

/// A text that is not all whitespace does not trim to nothing.
pub proof fn lemma_trim_not_blank(s: Seq<char>)
    requires
        !is_blank(s),
    ensures
        trim_spec(s).len() > 0,
    decreases s.len(),
{
    if s.len() > 0 && is_ws(s[0]) {
        assert(!is_blank(s.drop_first())) by {
            let k = choose|k: int| 0 <= k < s.len() && !is_ws(#[trigger] s[k]);
            assert(s.drop_first()[k - 1] == s[k]);
        }
        lemma_trim_not_blank(s.drop_first());
    } else {
        lemma_trim_end_nonempty(s);
    }
}

/// Trimming the end of a text whose first character is not whitespace keeps that character.
proof fn lemma_trim_end_nonempty(s: Seq<char>)
    requires
        s.len() > 0,
        !is_ws(s[0]),
    ensures
        trim_end_spec(s).len() > 0,
    decreases s.len(),
{
    if is_ws(s.last()) {
        lemma_trim_end_nonempty(s.drop_last());
    }
}

/// The decimal representation is non-empty.
pub proof fn lemma_decimal_len(n: nat)
    ensures
        decimal(n).len() >= 1,
    decreases n,
{
    if n >= 10 {
        lemma_decimal_len(n / 10);
    }
}

// ---------------------------------------------------------------------------
// Executable helpers
// ---------------------------------------------------------------------------

/// The characters of a string slice, in order.
pub fn to_chars(s: &str) -> (v: Vec<char>)
    ensures
        v@ == s@,
{
    let mut v: Vec<char> = Vec::new();
    for c in it: s.chars()
        invariant
            v@ == it.seq().take(it.index() as int),
            it.seq() == s@,
    {
        v.push(c);
    }
    v
}

/// Appends the characters of `t` to `out`.
pub fn push_chars(out: &mut String, t: &[char])
    ensures
        final(out)@ == old(out)@ + t@,
{
    let mut i: usize = 0;
    while i < t.len()
        invariant
            i <= t@.len(),
            out@ == old(out)@ + t@.subrange(0, i as int),
        decreases t.len() - i,
    {
        push_char(out, t[i]);
        i = i + 1;
        assert(t@.subrange(0, i as int) =~= t@.subrange(0, i - 1).push(t@[i - 1]));
    }
    assert(t@.subrange(0, t@.len() as int) =~= t@);
}

/// Appends a string slice (`String::push_str`).
pub fn push_str(out: &mut String, t: &str)
    ensures
        final(out)@ == old(out)@ + t@,
{
    let v = to_chars(t);
    push_chars(out, v.as_slice());
}

/// A string holding the given characters.
pub fn from_chars(t: &[char]) -> (s: String)
    ensures
        s@ == t@,
{
    let mut s = String::new();
    push_chars(&mut s, t);
    assert(Seq::<char>::empty() + t@ =~= t@);
    s
}

/// A fresh copy of a string slice.
pub fn owned(t: &str) -> (s: String)
    ensures
        s@ == t@,
{
    t.to_owned()
}

/// `p` occurs in `s` at index `i`.
pub fn chars_match_at(s: &[char], p: &[char], i: usize) -> (b: bool)
    ensures
        b == matches_at(s@, p@, i as int),
{
    if i > s.len() || p.len() > s.len() - i {
        return false;
    }
    let mut k: usize = 0;
    while k < p.len()
        invariant
            i + p@.len() <= s@.len(),
            k <= p@.len(),
            forall|m: int| 0 <= m < k ==> #[trigger] s@[i + m] == p@[m],
        decreases p.len() - k,
    {
        assert(i + k < s.len());
        if s[i + k] != p[k] {
            assert(!(s@[i + k as int] == p@[k as int]));
            return false;
        }
        k = k + 1;
    }
    true
}

/// The first index `>= from` at which `p` occurs in `s`.
pub fn find_chars(s: &[char], p: &[char], from: usize) -> (r: Option<usize>)
    ensures
        r matches Some(j) ==> find_from(s@, p@, from as int) == Some(j as int),
        r is None ==> find_from(s@, p@, from as int) is None,
{
    let mut i = from;
    while i <= s.len() && p.len() <= s.len() - i
        invariant
            from <= i,
            find_from(s@, p@, from as int) == find_from(s@, p@, i as int),
        decreases s.len() + 1 - i,
    {
        if chars_match_at(s, p, i) {
            return Some(i);
        }
        i = i + 1;
    }
    None
}

/// Whether `p` occurs in `s`.
pub fn contains_chars(s: &[char], p: &[char]) -> (b: bool)
    ensures
        b == contains_spec(s@, p@),
{
    proof {
        lemma_contains_find(s@, p@);
    }
    find_chars(s, p, 0).is_some()
}

/// Whether `p` occurs in `s` (`str::contains`).
pub fn str_contains(s: &str, p: &str) -> (b: bool)
    ensures
        b == contains_spec(s@, p@),
{
    let sv = to_chars(s);
    let pv = to_chars(p);
    contains_chars(sv.as_slice(), pv.as_slice())
}

/// Whether `s` starts with `p`.
pub fn chars_start_with(s: &[char], p: &[char]) -> (b: bool)
    ensures
        b == starts_with_spec(s@, p@),
{
    let b = chars_match_at(s, p, 0);
    proof {
        if b {
            assert forall|k: int| 0 <= k < p@.len() implies #[trigger] s@.subrange(
                0,
                p@.len() as int,
            )[k] == p@[k] by {
                assert(s@[0 + k] == p@[k]);
            }
            assert(s@.subrange(0, p@.len() as int) =~= p@);
        } else if p@.len() <= s@.len() {
            if s@.subrange(0, p@.len() as int) == p@ {
                assert forall|k: int| 0 <= k < p@.len() implies #[trigger] s@[0 + k] == p@[k] by {
                    assert(s@.subrange(0, p@.len() as int)[k] == p@[k]);
                }
            }
        }
    }
    b
}

/// Whether `s` ends with `p`.
pub fn chars_end_with(s: &[char], p: &[char]) -> (b: bool)
    ensures
        b == ends_with_spec(s@, p@),
{
    if p.len() > s.len() {
        return false;
    }
    let start = s.len() - p.len();
    let b = chars_match_at(s, p, start);
    proof {
        let t = s@.subrange(start as int, s@.len() as int);
        if b {
            assert forall|k: int| 0 <= k < p@.len() implies #[trigger] t[k] == p@[k] by {
                assert(s@[start + k] == p@[k]);
            }
            assert(t =~= p@);
        } else if t == p@ {
            assert forall|k: int| 0 <= k < p@.len() implies #[trigger] s@[start + k] == p@[k] by {
                assert(t[k] == p@[k]);
            }
        }
    }
    b
}

/// Whether `s` starts with `p` (`str::starts_with`).
pub fn str_starts_with(s: &str, p: &str) -> (b: bool)
    ensures
        b == starts_with_spec(s@, p@),
{
    let sv = to_chars(s);
    let pv = to_chars(p);
    chars_start_with(sv.as_slice(), pv.as_slice())
}

/// Whether `s` ends with `p` (`str::ends_with`).
pub fn str_ends_with(s: &str, p: &str) -> (b: bool)
    ensures
        b == ends_with_spec(s@, p@),
{
    let sv = to_chars(s);
    let pv = to_chars(p);
    chars_end_with(sv.as_slice(), pv.as_slice())
}

/// The characters `s[from..to]`.
pub fn slice_chars(s: &[char], from: usize, to: usize) -> (r: Vec<char>)
    requires
        from <= to <= s@.len(),
    ensures
        r@ == s@.subrange(from as int, to as int),
{
    let mut r: Vec<char> = Vec::new();
    let mut i = from;
    while i < to
        invariant
            from <= i <= to <= s@.len(),
            r@ == s@.subrange(from as int, i as int),
        decreases to - i,
    {
        r.push(s[i]);
        i = i + 1;
        assert(r@ =~= s@.subrange(from as int, i as int));
    }
    r
}

/// Replaces every non-overlapping occurrence of `p` by `r`, left to right.
pub fn replace_chars(s: &[char], p: &[char], r: &[char]) -> (out: Vec<char>)
    requires
        p@.len() > 0,
    ensures
        out@ == replace_spec(s@, p@, r@),
{
    let mut out: Vec<char> = Vec::new();
    let mut i: usize = 0;
    while i < s.len()
        invariant
            p@.len() > 0,
            i <= s@.len(),
            out@ + replace_from(s@, p@, r@, i as int) == replace_spec(s@, p@, r@),
        decreases s.len() - i,
    {
        if chars_match_at(s, p, i) {
            let ghost before = out@;
            let mut k: usize = 0;
            while k < r.len()
                invariant
                    k <= r@.len(),
                    out@ == before + r@.subrange(0, k as int),
                decreases r.len() - k,
            {
                out.push(r[k]);
                k = k + 1;
                assert(out@ =~= before + r@.subrange(0, k as int));
            }
            assert(r@.subrange(0, r@.len() as int) =~= r@);
            assert(before + (r@ + replace_from(s@, p@, r@, i + p@.len())) =~= out@
                + replace_from(s@, p@, r@, i + p@.len()));
            i = i + p.len();
        } else {
            let ghost before = out@;
            out.push(s[i]);
            assert(before + (seq![s@[i as int]] + replace_from(s@, p@, r@, i + 1)) =~= out@
                + replace_from(s@, p@, r@, i + 1));
            i = i + 1;
        }
    }
    assert(out@ + replace_from(s@, p@, r@, i as int) =~= out@);
    out
}

/// `str::replace` for a non-empty pattern.
pub fn str_replace(s: &str, p: &str, r: &str) -> (out: String)
    requires
        p@.len() > 0,
    ensures
        out@ == replace_spec(s@, p@, r@),
{
    let sv = to_chars(s);
    let pv = to_chars(p);
    let rv = to_chars(r);
    let o = replace_chars(sv.as_slice(), pv.as_slice(), rv.as_slice());
    from_chars(o.as_slice())
}

/// Appends characters to a character vector.
fn extend_chars(out: &mut Vec<char>, t: &[char])
    ensures
        final(out)@ == old(out)@ + t@,
{
    let mut k: usize = 0;
    while k < t.len()
        invariant
            k <= t@.len(),
            out@ == old(out)@ + t@.subrange(0, k as int),
        decreases t.len() - k,
    {
        out.push(t[k]);
        k = k + 1;
        assert(out@ =~= old(out)@ + t@.subrange(0, k as int));
    }
    assert(t@.subrange(0, t@.len() as int) =~= t@);
}

/// Replaces two placeholders in one left-to-right pass over `s`, so that
/// what is inserted is kept as it is.
pub fn replace_two(s: &str, p1: &str, r1: &str, p2: &str, r2: &str) -> (out: String)
    ensures
        out@ == replace_two_spec(s@, p1@, r1@, p2@, r2@),
{
    let sv = to_chars(s);
    let a = to_chars(p1);
    let ra = to_chars(r1);
    let b = to_chars(p2);
    let rb = to_chars(r2);
    let mut out: Vec<char> = Vec::new();
    let mut i: usize = 0;
    while i < sv.len()
        invariant
            i <= sv@.len(),
            sv@ == s@,
            a@ == p1@,
            ra@ == r1@,
            b@ == p2@,
            rb@ == r2@,
            out@ + replace_two_from(sv@, a@, ra@, b@, rb@, i as int) == replace_two_spec(sv@, a@, ra@, b@, rb@),
        decreases sv.len() - i,
    {
        let ghost before = out@;
        if a.len() > 0 && chars_match_at(sv.as_slice(), a.as_slice(), i) {
            extend_chars(&mut out, ra.as_slice());
            assert(before + (ra@ + replace_two_from(sv@, a@, ra@, b@, rb@, i + a@.len())) =~= out@
                + replace_two_from(sv@, a@, ra@, b@, rb@, i + a@.len()));
            i = i + a.len();
        } else if b.len() > 0 && chars_match_at(sv.as_slice(), b.as_slice(), i) {
            extend_chars(&mut out, rb.as_slice());
            assert(before + (rb@ + replace_two_from(sv@, a@, ra@, b@, rb@, i + b@.len())) =~= out@
                + replace_two_from(sv@, a@, ra@, b@, rb@, i + b@.len()));
            i = i + b.len();
        } else {
            out.push(sv[i]);
            assert(before + (seq![sv@[i as int]] + replace_two_from(sv@, a@, ra@, b@, rb@, i + 1)) =~= out@
                + replace_two_from(sv@, a@, ra@, b@, rb@, i + 1));
            i = i + 1;
        }
    }
    assert(out@ + replace_two_from(sv@, a@, ra@, b@, rb@, i as int) =~= out@);
    from_chars(out.as_slice())
}

/// `char::is_whitespace`.
pub fn char_is_ws(c: char) -> (b: bool)
    ensures
        b == is_ws(c),
{
    ('\u{9}' <= c && c <= '\u{d}') || c == ' ' || c == '\u{85}' || c == '\u{a0}' || c
        == '\u{1680}' || ('\u{2000}' <= c && c <= '\u{200a}') || c == '\u{2028}' || c
        == '\u{2029}' || c == '\u{202f}' || c == '\u{205f}' || c == '\u{3000}'
}

/// `char::is_ascii_digit`.
pub fn char_is_digit(c: char) -> (b: bool)
    ensures
        b == is_digit(c),
{
    '0' <= c && c <= '9'
}

/// `char::is_ascii_hexdigit`.
pub fn char_is_hex(c: char) -> (b: bool)
    ensures
        b == is_hex(c),
{
    ('0' <= c && c <= '9') || ('a' <= c && c <= 'f') || ('A' <= c && c <= 'F')
}

/// `str::trim_start` on characters.
pub fn trim_start_chars(s: &[char]) -> (r: Vec<char>)
    ensures
        r@ == trim_start_spec(s@),
{
    let mut k: usize = 0;
    while k < s.len() && char_is_ws(s[k])
        invariant
            k <= s@.len(),
            forall|j: int| 0 <= j < k ==> #[trigger] is_ws(s@[j]),
        decreases s.len() - k,
    {
        k = k + 1;
    }
    proof {
        lemma_trim_start_skip(s@, k as int);
    }
    slice_chars(s, k, s.len())
}

/// `str::trim_end` on characters.
pub fn trim_end_chars(s: &[char]) -> (r: Vec<char>)
    ensures
        r@ == trim_end_spec(s@),
{
    let mut k: usize = s.len();
    while k > 0 && char_is_ws(s[k - 1])
        invariant
            k <= s@.len(),
            forall|j: int| k <= j < s@.len() ==> #[trigger] is_ws(s@[j]),
        decreases k,
    {
        k = k - 1;
    }
    proof {
        lemma_trim_end_take(s@, k as int);
        let t = s@.subrange(0, k as int);
        if t.len() > 0 {
            assert(t.last() == s@[k - 1]);
        }
    }
    slice_chars(s, 0, k)
}

/// `str::trim` on characters.
pub fn trim_chars(s: &[char]) -> (r: Vec<char>)
    ensures
        r@ == trim_spec(s@),
{
    let a = trim_start_chars(s);
    trim_end_chars(a.as_slice())
}

/// `str::trim`.
pub fn str_trim(s: &str) -> (r: String)
    ensures
        r@ == trim_spec(s@),
{
    let v = to_chars(s);
    let t = trim_chars(v.as_slice());
    from_chars(t.as_slice())
}

/// Whether a text is whitespace only (`s.trim().is_empty()`).
pub fn chars_blank(s: &[char]) -> (b: bool)
    ensures
        b == is_blank(s@),
        b == (trim_spec(s@).len() == 0),
{
    let mut k: usize = 0;
    while k < s.len()
        invariant
            k <= s@.len(),
            forall|j: int| 0 <= j < k ==> #[trigger] is_ws(s@[j]),
        decreases s.len() - k,
    {
        if !char_is_ws(s[k]) {
            proof {
                assert(!is_blank(s@));
                lemma_trim_not_blank(s@);
            }
            return false;
        }
        k = k + 1;
    }
    proof {
        lemma_trim_blank(s@);
    }
    true
}

/// Whether a string is whitespace only (`s.trim().is_empty()`).
pub fn str_blank(s: &str) -> (b: bool)
    ensures
        b == is_blank(s@),
        b == (trim_spec(s@).len() == 0),
{
    let v = to_chars(s);
    chars_blank(v.as_slice())
}

/// The first index `>= from` holding `c`.
pub fn find_char(s: &[char], c: char, from: usize) -> (r: Option<usize>)
    ensures
        r matches Some(j) ==> find_char_from(s@, c, from as int) == Some(j as int),
        r is None ==> find_char_from(s@, c, from as int) is None,
{
    let mut i = from;
    while i < s.len()
        invariant
            from <= i,
            find_char_from(s@, c, from as int) == find_char_from(s@, c, i as int),
        decreases s.len() - i,
    {
        if s[i] == c {
            return Some(i);
        }
        i = i + 1;
    }
    None
}

/// Proof that `find_char_from` lands on the character.
pub proof fn lemma_find_char(s: Seq<char>, c: char, i: int)
    requires
        0 <= i,
    ensures
        find_char_from(s, c, i) matches Some(j) ==> i <= j < s.len() && s[j] == c && forall|k: int|
            i <= k < j ==> s[k] != c,
        find_char_from(s, c, i) is None ==> forall|k: int| i <= k < s.len() ==> s[k] != c,
    decreases s.len() - i,
{
    if i < s.len() && s[i] != c {
        lemma_find_char(s, c, i + 1);
    }
}

/// `str::lines` on characters.
pub fn lines_chars(s: &[char]) -> (r: Vec<Vec<char>>)
    ensures
        r@.map_values(|l: Vec<char>| l@) == lines_spec(s@),
{
    let mut r: Vec<Vec<char>> = Vec::new();
    let mut i: usize = 0;
    while i < s.len()
        invariant
            i <= s@.len(),
            r@.map_values(|l: Vec<char>| l@) + lines_from(s@, i as int) == lines_spec(s@),
        decreases s.len() - i,
    {
        let ghost before = r@.map_values(|l: Vec<char>| l@);
        proof {
            lemma_find_char(s@, '\n', i as int);
        }
        match find_char(s, '\n', i) {
            None => {
                let line = slice_chars(s, i, s.len());
                r.push(line);
                assert(r@.map_values(|l: Vec<char>| l@) =~= before.push(line@));
                assert(lines_from(s@, s@.len() as int) =~= Seq::<Seq<char>>::empty());
                assert(before + lines_from(s@, i as int) =~= r@.map_values(|l: Vec<char>| l@)
                    + lines_from(s@, s@.len() as int));
                i = s.len();
            },
            Some(j) => {
                let mut line = slice_chars(s, i, j);
                if line.len() > 0 && line[line.len() - 1] == '\r' {
                    line.pop();
                }
                proof {
                    let raw = s@.subrange(i as int, j as int);
                    assert(line@ == strip_cr(raw)) by {
                        if raw.len() > 0 && raw.last() == '\r' {
                            assert(line@ =~= raw.drop_last());
                        }
                    }
                }
                r.push(line);
                assert(r@.map_values(|l: Vec<char>| l@) =~= before.push(line@));
                assert(before + lines_from(s@, i as int) =~= r@.map_values(|l: Vec<char>| l@)
                    + lines_from(s@, j + 1));
                i = j + 1;
            },
        }
    }
    assert(lines_from(s@, i as int) =~= Seq::<Seq<char>>::empty());
    assert(r@.map_values(|l: Vec<char>| l@) + lines_from(s@, i as int) =~= r@.map_values(
        |l: Vec<char>| l@,
    ));
    r
}

/// The decimal digit for `d < 10`.
pub fn digit_of(d: u64) -> (c: char)
    requires
        d < 10,
    ensures
        c == digit_char(d as nat),
{
    if d == 0 { '0' }
    else if d == 1 { '1' }
    else if d == 2 { '2' }
    else if d == 3 { '3' }
    else if d == 4 { '4' }
    else if d == 5 { '5' }
    else if d == 6 { '6' }
    else if d == 7 { '7' }
    else if d == 8 { '8' }
    else { '9' }
}

/// The decimal characters of `n`.
pub fn decimal_chars(n: u64) -> (r: Vec<char>)
    ensures
        r@ == decimal(n as nat),
    decreases n,
{
    if n < 10 {
        let mut r: Vec<char> = Vec::new();
        r.push(digit_of(n));
        assert(r@ =~= seq![digit_char(n as nat)]);
        r
    } else {
        let mut r = decimal_chars(n / 10);
        r.push(digit_of(n % 10));
        r
    }
}

/// `n.to_string()` for an unsigned integer.
pub fn decimal_string(n: u64) -> (s: String)
    ensures
        s@ == decimal(n as nat),
{
    let v = decimal_chars(n);
    from_chars(v.as_slice())
}

/// Joins strings with a separator (`slice.join(sep)`).
pub fn join_strings(items: &Vec<String>, sep: &str) -> (s: String)
    ensures
        s@ == join_spec(views(items@), sep@),
{
    let mut s = String::new();
    let mut i: usize = 0;
    while i < items.len()
        invariant
            i <= items@.len(),
            s@ == join_spec(views(items@).subrange(0, i as int), sep@),
        decreases items.len() - i,
    {
        let ghost prev = views(items@).subrange(0, i as int);
        if i > 0 {
            push_str(&mut s, sep);
        }
        push_str(&mut s, items[i].as_str());
        i = i + 1;
        proof {
            let cur = views(items@).subrange(0, i as int);
            assert(cur.drop_last() =~= prev);
            assert(cur.last() == items@[i - 1]@);
            if i == 1 {
                assert(s@ =~= cur[0]);
            }
        }
    }
    assert(views(items@).subrange(0, items@.len() as int) =~= views(items@));
    s
}

/// `str::trim_end`.
pub fn str_trim_end(s: &str) -> (r: String)
    ensures
        r@ == trim_end_spec(s@),
{
    let v = to_chars(s);
    let t = trim_end_chars(v.as_slice());
    from_chars(t.as_slice())
}

/// Appends an owned string to a list of strings.
pub fn push_owned(list: &mut Vec<String>, item: String)
    ensures
        views(final(list)@) == views(old(list)@).push(item@),
{
    let ghost m = item@;
    list.push(item);
    proof {
        assert(views(list@) =~= views(old(list)@).push(m));
    }
}

/// Appends a copy of a string slice to a list of strings.
pub fn push_lit(list: &mut Vec<String>, item: &str)
    ensures
        views(final(list)@) == views(old(list)@).push(item@),
{
    push_owned(list, owned(item));
}

/// `a + b` as a new string.
pub fn concat2(a: &str, b: &str) -> (r: String)
    ensures
        r@ == a@ + b@,
{
    let mut r = owned(a);
    push_str(&mut r, b);
    r
}

/// `a + b + c` as a new string.
pub fn concat3(a: &str, b: &str, c: &str) -> (r: String)
    ensures
        r@ == a@ + b@ + c@,
{
    let mut r = owned(a);
    push_str(&mut r, b);
    push_str(&mut r, c);
    r
}

/// `s.replace(p, r)` for an owned string and a non-empty pattern.
pub fn replace_owned(s: String, p: &str, r: &str) -> (out: String)
    requires
        p@.len() > 0,
    ensures
        out@ == replace_spec(s@, p@, r@),
{
    str_replace(s.as_str(), p, r)
}

/// `"true"` or `"false"`.
pub open spec fn bool_text(b: bool) -> Seq<char> {
    if b { "true"@ } else { "false"@ }
}

/// `b.to_string()`.
pub fn bool_string(b: bool) -> (s: String)
    ensures
        s@ == bool_text(b),
{
    if b { owned("true") } else { owned("false") }
}

/// `str::split(c)` on the text from index `i`: the pieces between the
/// separators, empty pieces included.
pub open spec fn split_from(s: Seq<char>, c: char, i: int) -> Seq<Seq<char>>
    decreases s.len() - i, 1int,
{
    if i < 0 || i > s.len() {
        Seq::empty()
    } else {
        match find_char_from(s, c, i) {
            None => seq![s.subrange(i, s.len() as int)],
            Some(j) => if i <= j < s.len() {
                seq![s.subrange(i, j)] + split_from(s, c, j + 1)
            } else {
                Seq::empty()
            },
        }
    }
}

/// `str::split(c)`.
pub open spec fn split_spec(s: Seq<char>, c: char) -> Seq<Seq<char>> {
    split_from(s, c, 0)
}

/// `str::split(c)`, each piece as a string.
pub fn split_str(text: &str, c: char) -> (r: Vec<String>)
    ensures
        views(r@) == split_spec(text@, c),
{
    let s = to_chars(text);
    let mut r: Vec<String> = Vec::new();
    let mut i: usize = 0;
    loop
        invariant_except_break
            i <= s@.len(),
            views(r@) + split_from(s@, c, i as int) == split_spec(s@, c),
        invariant
            s@ == text@,
        ensures
            views(r@) == split_spec(s@, c),
        decreases s@.len() - i,
    {
        let ghost before = views(r@);
        proof {
            lemma_find_char(s@, c, i as int);
        }
        match find_char(s.as_slice(), c, i) {
            None => {
                let piece = slice_chars(s.as_slice(), i, s.len());
                push_owned(&mut r, from_chars(piece.as_slice()));
                assert(views(r@) =~= before + split_from(s@, c, i as int));
                break;
            },
            Some(j) => {
                let piece = slice_chars(s.as_slice(), i, j);
                push_owned(&mut r, from_chars(piece.as_slice()));
                assert(before + split_from(s@, c, i as int) =~= views(r@) + split_from(s@, c, j + 1));
                i = j + 1;
            },
        }
    }
    r
}

/// Whether two characters are equal ignoring ASCII case.
pub open spec fn char_eq_ignore_case(a: char, b: char) -> bool {
    a == b || ('A' <= a <= 'Z' && b as u32 == a as u32 + 32) || ('A' <= b <= 'Z' && a as u32 == b as u32
        + 32)
}

/// `str::eq_ignore_ascii_case`.
pub open spec fn eq_ignore_case(a: Seq<char>, b: Seq<char>) -> bool {
    a.len() == b.len() && forall|i: int| 0 <= i < a.len() ==> char_eq_ignore_case(#[trigger] a[i], b[i])
}

/// Whether two characters are equal ignoring ASCII case.
pub fn chars_eq_ignore_case(a: char, b: char) -> (r: bool)
    ensures
        r == char_eq_ignore_case(a, b),
{
    let x = a as u32;
    let y = b as u32;
    a == b || ('A' <= a && a <= 'Z' && y == x + 32) || ('A' <= b && b <= 'Z' && x == y + 32)
}

/// `str::eq_ignore_ascii_case`.
pub fn str_eq_ignore_case(a: &str, b: &str) -> (r: bool)
    ensures
        r == eq_ignore_case(a@, b@),
{
    let x = to_chars(a);
    let y = to_chars(b);
    if x.len() != y.len() {
        return false;
    }
    let mut i: usize = 0;
    while i < x.len()
        invariant
            x@ == a@,
            y@ == b@,
            x@.len() == y@.len(),
            i <= x@.len(),
            forall|k: int| 0 <= k < i ==> char_eq_ignore_case(#[trigger] x@[k], y@[k]),
        decreases x.len() - i,
    {
        if !chars_eq_ignore_case(x[i], y[i]) {
            return false;
        }
        i = i + 1;
    }
    true
}

/// The value of a string of decimal digits.
pub open spec fn digits_value(s: Seq<char>) -> nat
    decreases s.len(),
{
    if s.len() == 0 {
        0
    } else {
        digits_value(s.drop_last()) * 10 + ((s.last() as u32) - ('0' as u32)) as nat
    }
}

/// Whether every character is an ASCII digit.
pub open spec fn all_digits(s: Seq<char>) -> bool {
    forall|i: int| 0 <= i < s.len() ==> is_digit(#[trigger] s[i])
}

/// The unsigned number a string spells (what `str::parse` accepts for an
/// unsigned integer before its range check): an optional `+`, then one or
/// more ASCII digits.
pub open spec fn parse_nat_spec(s: Seq<char>) -> Option<nat> {
    let d = if s.len() > 0 && s[0] == '+' { s.drop_first() } else { s };
    if d.len() > 0 && all_digits(d) { Some(digits_value(d)) } else { None }
}

/// `str::parse::<u64>`: the value when the text spells one that fits.
pub open spec fn parse_u64_spec(s: Seq<char>) -> Option<u64> {
    match parse_nat_spec(s) {
        Some(n) => if n <= u64::MAX { Some(n as u64) } else { None },
        None => None,
    }
}

/// `str::parse::<u64>`.
pub fn parse_u64(text: &str) -> (r: Option<u64>)
    ensures
        r == parse_u64_spec(text@),
{
    let s = to_chars(text);
    let start: usize = if s.len() > 0 && s[0] == '+' { 1 } else { 0 };
    let ghost d = if s@.len() > 0 && s@[0] == '+' { s@.drop_first() } else { s@ };
    assert(d =~= s@.subrange(start as int, s@.len() as int));
    if start >= s.len() {
        return None;
    }
    let mut v: u64 = 0;
    let mut overflow = false;
    let mut i: usize = start;
    while i < s.len()
        invariant
            start <= i <= s@.len(),
            start < s@.len(),
            s@ == text@,
            d == (if s@.len() > 0 && s@[0] == '+' { s@.drop_first() } else { s@ }),
            d == s@.subrange(start as int, s@.len() as int),
            all_digits(s@.subrange(start as int, i as int)),
            !overflow ==> v == digits_value(s@.subrange(start as int, i as int)),
            overflow ==> digits_value(s@.subrange(start as int, i as int)) > u64::MAX,
        decreases s.len() - i,
    {
        let ch = s[i];
        if !char_is_digit(ch) {
            assert(!all_digits(d)) by {
                assert(d[i - start] == ch);
            }
            return None;
        }
        let ghost prev = s@.subrange(start as int, i as int);
        let ghost cur = s@.subrange(start as int, i + 1);
        assert(cur.drop_last() =~= prev);
        assert(cur.last() == ch);
        assert(all_digits(cur)) by {
            assert forall|k: int| 0 <= k < cur.len() implies is_digit(#[trigger] cur[k]) by {
                if k < prev.len() {
                    assert(cur[k] == prev[k]);
                }
            }
        }
        let dv = (ch as u32 - '0' as u32) as u64;
        if !overflow {
            if v > (u64::MAX - dv) / 10 {
                overflow = true;
                assert(digits_value(cur) > u64::MAX) by (nonlinear_arith)
                    requires
                        digits_value(cur) == v * 10 + dv,
                        v > (u64::MAX - dv) / 10,
                        dv <= 9,
                ;
            } else {
                assert(v * 10 + dv <= u64::MAX) by (nonlinear_arith)
                    requires
                        v <= (u64::MAX - dv) / 10,
                        dv <= 9,
                ;
                v = v * 10 + dv;
            }
        } else {
            assert(digits_value(cur) > u64::MAX) by (nonlinear_arith)
                requires
                    digits_value(cur) == digits_value(prev) * 10 + dv,
                    digits_value(prev) > u64::MAX,
            ;
        }
        i = i + 1;
    }
    assert(s@.subrange(start as int, i as int) =~= d);
    if overflow { None } else { Some(v) }
}


/// No occurrence of `p` in `s` overlaps the stretch `[j, j + x.len())`.
pub open spec fn clear_of(s: Seq<char>, p: Seq<char>, j: int, x: Seq<char>) -> bool {
    forall|k: int| #[trigger] matches_at(s, p, k) ==> k + p.len() <= j || j + x.len() <= k
}

/// What `a + b` holds of `b`, shifted.
pub proof fn lemma_contains_after(a: Seq<char>, b: Seq<char>, x: Seq<char>)
    requires
        contains_spec(b, x),
    ensures
        contains_spec(a + b, x),
{
    let k = choose|k: int| matches_at(b, x, k);
    assert forall|t: int| 0 <= t < x.len() implies #[trigger] (a + b)[k + a.len() + t] == x[t] by {
        assert(b[k + t] == x[t]);
    }
    assert(matches_at(a + b, x, k + a.len()));
}

/// Where no occurrence of `p` starts in `[i, m)`, replacement copies that
/// stretch as it is.
pub proof fn lemma_replace_copies(s: Seq<char>, p: Seq<char>, r: Seq<char>, i: int, m: int)
    requires
        p.len() > 0,
        0 <= i <= m <= s.len(),
        forall|k: int| i <= k < m ==> !matches_at(s, p, k),
    ensures
        replace_from(s, p, r, i) == s.subrange(i, m) + replace_from(s, p, r, m),
    decreases m - i,
{
    if i < m {
        assert(!matches_at(s, p, i));
        lemma_replace_copies(s, p, r, i + 1, m);
        assert(s.subrange(i, m) =~= seq![s[i]] + s.subrange(i + 1, m));
    } else {
        assert(s.subrange(i, m) =~= Seq::<char>::empty());
    }
}

/// Replacing `p` keeps an occurrence of `x` that no occurrence of `p`
/// overlaps.
pub proof fn lemma_replace_keeps(s: Seq<char>, p: Seq<char>, r: Seq<char>, i: int, x: Seq<char>, j: int)
    requires
        p.len() > 0,
        x.len() > 0,
        0 <= i <= j,
        matches_at(s, x, j),
        clear_of(s, p, j, x),
    ensures
        contains_spec(replace_from(s, p, r, i), x),
    decreases j - i,
{
    if i == j {
        assert forall|k: int| j <= k < j + x.len() implies !matches_at(s, p, k) by {
            if matches_at(s, p, k) {
                assert(k + p.len() <= j || j + x.len() <= k);
            }
        }
        lemma_replace_copies(s, p, r, j, j + x.len());
        let rest = replace_from(s, p, r, j + x.len());
        assert forall|t: int| 0 <= t < x.len() implies #[trigger] s.subrange(j, j + x.len())[t] == x[t] by {
            assert(s[j + t] == x[t]);
        }
        assert(s.subrange(j, j + x.len()) =~= x);
        assert(matches_at(x + rest, x, 0));
    } else if matches_at(s, p, i) {
        assert(i + p.len() <= j);
        lemma_replace_keeps(s, p, r, i + p.len(), x, j);
        lemma_contains_after(r, replace_from(s, p, r, i + p.len()), x);
    } else {
        lemma_replace_keeps(s, p, r, i + 1, x, j);
        lemma_contains_after(seq![s[i]], replace_from(s, p, r, i + 1), x);
    }
}

/// Where `p` occurs at or after `i`, the replacement text shows up.
pub proof fn lemma_replace_inserts(s: Seq<char>, p: Seq<char>, r: Seq<char>, i: int, k: int)
    requires
        p.len() > 0,
        0 <= i <= k,
        matches_at(s, p, k),
    ensures
        contains_spec(replace_from(s, p, r, i), r),
    decreases k - i,
{
    if matches_at(s, p, i) {
        let rest = replace_from(s, p, r, i + p.len());
        assert(matches_at(r + rest, r, 0));
    } else {
        lemma_replace_inserts(s, p, r, i + 1, k);
        lemma_contains_after(seq![s[i]], replace_from(s, p, r, i + 1), r);
    }
}

/// An occurrence of `x` is clear of `p` when `x` holds neither the first
/// nor the last character of `p` and is at least as long.
pub proof fn lemma_clear_by_ends(s: Seq<char>, p: Seq<char>, x: Seq<char>, j: int)
    requires
        p.len() > 0,
        x.len() >= p.len(),
        matches_at(s, x, j),
        forall|t: int| 0 <= t < x.len() ==> x[t] != p[0] && x[t] != p[p.len() - 1],
    ensures
        clear_of(s, p, j, x),
{
    assert forall|k: int| #[trigger] matches_at(s, p, k) implies k + p.len() <= j || j + x.len() <= k by {
        if k + p.len() > j && k < j + x.len() {
            if k >= j {
                assert(s[k + 0] == p[0]);
                assert(s[j + (k - j)] == x[k - j]);
            } else {
                let l = p.len() - 1;
                assert(s[k + l] == p[l]);
                assert(s[j + (k + l - j)] == x[k + l - j]);
            }
        }
    }
}

/// Two placeholders `{{A}}` and `{{B}}` that differ in their first letter
/// never overlap.
pub proof fn lemma_clear_placeholders(s: Seq<char>, p: Seq<char>, x: Seq<char>, j: int)
    requires
        p.len() > 2,
        x.len() > 2,
        matches_at(s, x, j),
        p[0] == '{' && p[1] == '{',
        x[0] == '{' && x[1] == '{',
        forall|t: int| 2 <= t < p.len() ==> p[t] != '{',
        forall|t: int| 2 <= t < x.len() ==> x[t] != '{',
        p[2] != x[2],
    ensures
        clear_of(s, p, j, x),
{
    assert forall|k: int| #[trigger] matches_at(s, p, k) implies k + p.len() <= j || j + x.len() <= k by {
        if k + p.len() > j && k < j + x.len() {
            if k >= j {
                assert(s[k + 0] == p[0]);
                assert(s[j + (k - j)] == x[k - j]);
                if k == j {
                    assert(s[k + 2] == p[2]);
                    assert(s[j + 2] == x[2]);
                } else {
                    assert(s[k + 1] == p[1]);
                    assert(s[j + 2] == x[2]);
                }
            } else {
                assert(s[j + 0] == x[0]);
                assert(s[k + (j - k)] == p[j - k]);
                assert(s[j + 1] == x[1]);
                if j - k == 1 {
                    assert(s[k + 2] == p[2]);
                }
            }
        }
    }
}

/// Replacing `p` keeps a text that holds neither end character of `p`.
pub proof fn lemma_replace_keeps_by_ends(s: Seq<char>, p: Seq<char>, r: Seq<char>, x: Seq<char>)
    requires
        p.len() > 0,
        x.len() >= p.len(),
        contains_spec(s, x),
        forall|t: int| 0 <= t < x.len() ==> x[t] != p[0] && x[t] != p[p.len() - 1],
    ensures
        contains_spec(replace_spec(s, p, r), x),
{
    let j = choose|j: int| matches_at(s, x, j);
    lemma_clear_by_ends(s, p, x, j);
    lemma_replace_keeps(s, p, r, 0, x, j);
}

/// Replacing one `{{A}}` placeholder keeps a `{{B}}` placeholder that
/// starts with another letter.
pub proof fn lemma_replace_keeps_placeholder(s: Seq<char>, p: Seq<char>, r: Seq<char>, x: Seq<char>)
    requires
        p.len() > 2,
        x.len() > 2,
        contains_spec(s, x),
        p[0] == '{' && p[1] == '{',
        x[0] == '{' && x[1] == '{',
        forall|t: int| 2 <= t < p.len() ==> p[t] != '{',
        forall|t: int| 2 <= t < x.len() ==> x[t] != '{',
        p[2] != x[2],
    ensures
        contains_spec(replace_spec(s, p, r), x),
{
    let j = choose|j: int| matches_at(s, x, j);
    lemma_clear_placeholders(s, p, x, j);
    lemma_replace_keeps(s, p, r, 0, x, j);
}

} // verus!
