//! XML sanitization for AI-generated project specifications.
//!
//! Generated XML often holds an unescaped `&` ("R&D") or a `<` that starts
//! no tag ("<100ms"). The sanitizer escapes both so that the text parses.

use vstd::prelude::*;
use crate::text::{char_is_digit, char_is_hex, char_is_ws, from_chars, is_digit, is_hex, is_ws, to_chars};

verus! {

/// A character that ends the scan for an entity's closing `;` without
/// completing it (the `;` itself included, since the scan stops there).
pub open spec fn entity_stop(c: char) -> bool {
    c == ';' || is_ws(c) || c == '<' || c == '>' || c == '&'
}

/// Every character of `e` from index `from` is an ASCII digit.
pub open spec fn all_digits_from(e: Seq<char>, from: int) -> bool {
    forall|k: int| from <= k < e.len() ==> #[trigger] is_digit(e[k])
}

/// Every character of `e` from index `from` is an ASCII hex digit.
pub open spec fn all_hex_from(e: Seq<char>, from: int) -> bool {
    forall|k: int| from <= k < e.len() ==> #[trigger] is_hex(e[k])
}

/// The five predefined XML entity names.
pub open spec fn is_named_entity(e: Seq<char>) -> bool {
    ||| e =~= seq!['a', 'm', 'p']
    ||| e =~= seq!['l', 't']
    ||| e =~= seq!['g', 't']
    ||| e =~= seq!['q', 'u', 'o', 't']
    ||| e =~= seq!['a', 'p', 'o', 's']
}

/// The text between `&` and `;` of a valid reference: a predefined name,
/// `#` and decimal digits, or `#x`/`#X` and hex digits.
pub open spec fn entity_name_ok(e: Seq<char>) -> bool {
    ||| is_named_entity(e)
    ||| (e.len() >= 2 && e[0] == '#' && all_digits_from(e, 1))
    ||| (e.len() >= 3 && e[0] == '#' && (e[1] == 'x' || e[1] == 'X') && all_hex_from(e, 2))
}

/// The `;` at `j` closes a valid entity reference opened by the `&` at `i`:
/// at most nine characters lie between them, none of which stops the scan.
pub open spec fn entity_closes_at(s: Seq<char>, i: int, j: int) -> bool {
    &&& i < j <= i + 10
    &&& j < s.len()
    &&& s[j] == ';'
    &&& forall|k: int| i < k < j ==> !#[trigger] entity_stop(s[k])
    &&& entity_name_ok(s.subrange(i + 1, j))
}

/// Position `i` of `s` starts a valid XML entity reference.
pub open spec fn entity_at(s: Seq<char>, i: int) -> bool {
    &&& 0 <= i < s.len()
    &&& s[i] == '&'
    &&& exists|j: int| entity_closes_at(s, i, j)
}

/// The `<` at `i` is followed by a digit or whitespace, so it starts no tag.
pub open spec fn stray_lt_at(s: Seq<char>, i: int) -> bool {
    &&& 0 <= i
    &&& i + 1 < s.len()
    &&& s[i] == '<'
    &&& (is_digit(s[i + 1]) || is_ws(s[i + 1]))
}

/// What the sanitizer emits for the character at `i`.
pub open spec fn piece(s: Seq<char>, i: int) -> Seq<char> {
    if s[i] == '&' && !entity_at(s, i) {
        seq!['&', 'a', 'm', 'p', ';']
    } else if stray_lt_at(s, i) {
        seq!['&', 'l', 't', ';']
    } else {
        seq![s[i]]
    }
}

/// The sanitized text of `s` from index `i`.
pub open spec fn sanitize_from(s: Seq<char>, i: int) -> Seq<char>
    decreases s.len() - i,
{
    if i < 0 || i >= s.len() {
        Seq::empty()
    } else {
        piece(s, i) + sanitize_from(s, i + 1)
    }
}

/// The sanitized text of `s`.
pub open spec fn sanitize_spec(s: Seq<char>) -> Seq<char> {
    sanitize_from(s, 0)
}

/// A text in which every `&` starts a valid entity reference and no `<`
/// is followed by a digit or whitespace.
pub open spec fn well_escaped(t: Seq<char>) -> bool {
    forall|p: int|
        0 <= p < t.len() ==> (#[trigger] t[p] == '&' ==> entity_at(t, p)) && !stray_lt_at(t, p)
}

// ---------------------------------------------------------------------------
// Lemmas
// ---------------------------------------------------------------------------

/// Entity references are recognised by what follows the `&` alone.
proof fn lemma_entity_shift(a: Seq<char>, b: Seq<char>, p: int)
    requires
        0 <= p < b.len(),
    ensures
        entity_at(a + b, a.len() + p) == entity_at(b, p),
{
    let t = a + b;
    let q = a.len() + p;
    if entity_at(b, p) {
        let j = choose|j: int| entity_closes_at(b, p, j);
        assert(t.subrange(q + 1, a.len() + j) =~= b.subrange(p + 1, j));
        assert forall|k: int| q < k < a.len() + j implies !#[trigger] entity_stop(t[k]) by {
            assert(t[k] == b[k - a.len()]);
            assert(!entity_stop(b[k - a.len()]));
        }
        assert(entity_closes_at(t, q, a.len() + j));
    }
    if entity_at(t, q) {
        let j = choose|j: int| entity_closes_at(t, q, j);
        assert(t.subrange(q + 1, j) =~= b.subrange(p + 1, j - a.len()));
        assert forall|k: int| p < k < j - a.len() implies !#[trigger] entity_stop(b[k]) by {
            assert(t[k + a.len()] == b[k]);
            assert(!entity_stop(t[k + a.len()]));
        }
        assert(entity_closes_at(b, p, j - a.len()));
    }
}

/// A plain stretch of the input (no `&`, no `<`) is copied unchanged.
proof fn lemma_copy_prefix(s: Seq<char>, a: int, b: int)
    requires
        0 <= a <= b <= s.len(),
        forall|k: int| a <= k < b ==> s[k] != '&' && s[k] != '<',
    ensures
        sanitize_from(s, a) == s.subrange(a, b) + sanitize_from(s, b),
    decreases b - a,
{
    if a < b {
        lemma_copy_prefix(s, a + 1, b);
        assert(piece(s, a) =~= seq![s[a]]);
        assert(s.subrange(a, b) =~= seq![s[a]] + s.subrange(a + 1, b));
    } else {
        assert(s.subrange(a, b) =~= Seq::<char>::empty());
    }
}

/// The first character emitted for position `i`.
proof fn lemma_first_char(s: Seq<char>, i: int)
    requires
        0 <= i < s.len(),
    ensures
        sanitize_from(s, i).len() > 0,
        sanitize_from(s, i)[0] == (if s[i] == '&' || stray_lt_at(s, i) { '&' } else { s[i] }),
{
}

/// The sanitizer's output is well escaped from every starting index.
proof fn lemma_sanitize_from_escaped(s: Seq<char>, i: int)
    requires
        0 <= i <= s.len(),
    ensures
        well_escaped(sanitize_from(s, i)),
    decreases s.len() - i,
{
    if i < s.len() {
        lemma_sanitize_from_escaped(s, i + 1);
        let pc = piece(s, i);
        let r = sanitize_from(s, i + 1);
        let t = sanitize_from(s, i);
        assert(t == pc + r);
        assert forall|p: int| 0 <= p < t.len() implies (#[trigger] t[p] == '&' ==> entity_at(t, p))
            && !stray_lt_at(t, p) by {
            if p >= pc.len() {
                let q = p - pc.len();
                assert(t[p] == r[q]);
                lemma_entity_shift(pc, r, q);
                if stray_lt_at(t, p) {
                    assert(r[q + 1] == t[p + 1]);
                    assert(stray_lt_at(r, q));
                }
            } else if s[i] == '&' && !entity_at(s, i) {
                assert(pc =~= seq!['&', 'a', 'm', 'p', ';']);
                if p == 0 {
                    assert(t.subrange(1, 4) =~= seq!['a', 'm', 'p']);
                    assert(forall|k: int| 0 < k < 4 ==> #[trigger] t[k] == pc[k]);
                    assert(entity_closes_at(t, 0, 4));
                }
            } else if stray_lt_at(s, i) {
                assert(pc =~= seq!['&', 'l', 't', ';']);
                if p == 0 {
                    assert(t.subrange(1, 3) =~= seq!['l', 't']);
                    assert(forall|k: int| 0 < k < 3 ==> #[trigger] t[k] == pc[k]);
                    assert(entity_closes_at(t, 0, 3));
                }
            } else if s[i] == '&' {
                // A valid reference is kept: its characters are copied.
                assert(p == 0);
                let j = choose|j: int| entity_closes_at(s, i, j);
                assert forall|k: int| i + 1 <= k < j + 1 implies s[k] != '&' && s[k] != '<' by {
                    if k < j {
                        assert(!entity_stop(s[k]));
                    }
                }
                lemma_copy_prefix(s, i + 1, j + 1);
                let jj = j - i;
                assert(r.subrange(0, jj) =~= s.subrange(i + 1, j + 1));
                assert forall|k: int| 0 < k <= jj implies #[trigger] t[k] == s[i + k] by {
                    assert(t[k] == r[k - 1]);
                    assert(r[k - 1] == s.subrange(i + 1, j + 1)[k - 1]);
                }
                assert(t.subrange(1, jj) =~= s.subrange(i + 1, j));
                assert forall|k: int| 0 < k < jj implies !#[trigger] entity_stop(t[k]) by {
                    assert(t[k] == s[i + k]);
                    assert(!entity_stop(s[i + k]));
                }
                assert(entity_closes_at(t, 0, jj));
            } else if s[i] == '<' {
                // A kept `<` is followed by no digit and no whitespace.
                assert(p == 0);
                if 1 < t.len() {
                    assert(i + 1 < s.len());
                    lemma_first_char(s, i + 1);
                    assert(t[1] == r[0]);
                }
            }
        }
    }
}

/// The sanitizer leaves a well-escaped text from index `i` unchanged.
proof fn lemma_sanitize_from_identity(s: Seq<char>, i: int)
    requires
        0 <= i <= s.len(),
        well_escaped(s),
    ensures
        sanitize_from(s, i) == s.subrange(i, s.len() as int),
    decreases s.len() - i,
{
    if i < s.len() {
        lemma_sanitize_from_identity(s, i + 1);
        assert(s[i] == '&' ==> entity_at(s, i));
        assert(!stray_lt_at(s, i));
        assert(piece(s, i) =~= seq![s[i]]);
        assert(s.subrange(i, s.len() as int) =~= seq![s[i]] + s.subrange(i + 1, s.len() as int));
    } else {
        assert(s.subrange(i, s.len() as int) =~= Seq::<char>::empty());
    }
}

/// Law: every `&` in sanitized text starts a valid entity reference and no
/// `<` in it is followed by a digit or whitespace.
pub proof fn lemma_sanitize_well_escaped(s: Seq<char>)
    ensures
        well_escaped(sanitize_spec(s)),
{
    lemma_sanitize_from_escaped(s, 0);
}

/// Law: text that is already well escaped passes through unchanged.
pub proof fn lemma_sanitize_identity(s: Seq<char>)
    requires
        well_escaped(s),
    ensures
        sanitize_spec(s) == s,
{
    lemma_sanitize_from_identity(s, 0);
    assert(s.subrange(0, s.len() as int) =~= s);
}

/// Law: sanitizing twice gives what sanitizing once gives.
pub proof fn lemma_sanitize_idempotent(s: Seq<char>)
    ensures
        sanitize_spec(sanitize_spec(s)) == sanitize_spec(s),
{
    lemma_sanitize_well_escaped(s);
    lemma_sanitize_identity(sanitize_spec(s));
}

// ---------------------------------------------------------------------------
// Executable code
// ---------------------------------------------------------------------------

/// Checks whether position `i` in `chars` starts a valid XML entity
/// reference: `&amp;` `&lt;` `&gt;` `&quot;` `&apos;` `&#digits;` `&#xhex;`.
pub fn is_valid_entity_at(chars: &[char], i: usize) -> (b: bool)
    ensures
        b == entity_at(chars@, i as int),
{
    let len = chars.len();
    if i >= len || chars[i] != '&' {
        return false;
    }
    let mut j = i + 1;
    let mut entity: Vec<char> = Vec::new();
    while j < len && j - i < 10
        invariant
            i < j <= i + 10,
            j <= len,
            len == chars@.len(),
            chars@[i as int] == '&',
            entity@ == chars@.subrange(i + 1, j as int),
            forall|k: int| i < k < j ==> !#[trigger] entity_stop(chars@[k]),
        ensures
            j >= len || j - i >= 10 || chars@[j as int] == ';',
        decreases len - j,
    {
        let c = chars[j];
        if c == ';' {
            break;
        }
        if char_is_ws(c) || c == '<' || c == '>' || c == '&' {
            proof {
                assert(entity_stop(chars@[j as int]));
                assert forall|jj: int| !entity_closes_at(chars@, i as int, jj) by {
                    if entity_closes_at(chars@, i as int, jj) {
                        if jj > j {
                            assert(!entity_stop(chars@[j as int]));
                        } else if jj < j {
                            assert(!entity_stop(chars@[jj]));
                        }
                    }
                }
            }
            return false;
        }
        entity.push(c);
        j = j + 1;
        assert(entity@ =~= chars@.subrange(i + 1, j as int));
    }
    if j >= len || chars[j] != ';' {
        proof {
            assert forall|jj: int| !entity_closes_at(chars@, i as int, jj) by {
                if entity_closes_at(chars@, i as int, jj) {
                    if jj < j {
                        assert(!entity_stop(chars@[jj]));
                    }
                }
            }
        }
        return false;
    }
    let ok = name_ok(&entity);
    proof {
        if ok {
            assert(entity_closes_at(chars@, i as int, j as int));
        } else {
            assert forall|jj: int| !entity_closes_at(chars@, i as int, jj) by {
                if entity_closes_at(chars@, i as int, jj) {
                    if jj > j {
                        assert(!entity_stop(chars@[j as int]));
                    } else if jj < j {
                        assert(!entity_stop(chars@[jj]));
                    }
                }
            }
        }
    }
    ok
}

/// Whether the text between `&` and `;` names a valid reference.
fn name_ok(e: &Vec<char>) -> (b: bool)
    ensures
        b == entity_name_ok(e@),
{
    let n = e.len();
    if (n == 3 && e[0] == 'a' && e[1] == 'm' && e[2] == 'p') || (n == 2 && e[0] == 'l' && e[1]
        == 't') || (n == 2 && e[0] == 'g' && e[1] == 't') || (n == 4 && e[0] == 'q' && e[1] == 'u'
        && e[2] == 'o' && e[3] == 't') || (n == 4 && e[0] == 'a' && e[1] == 'p' && e[2] == 'o'
        && e[3] == 's') {
        proof {
            assert(is_named_entity(e@));
        }
        return true;
    }
    proof {
        assert(!is_named_entity(e@));
    }
    if n >= 2 && e[0] == '#' && all_from(e, 1, false) {
        return true;
    }
    if n >= 3 && e[0] == '#' && (e[1] == 'x' || e[1] == 'X') && all_from(e, 2, true) {
        return true;
    }
    false
}

/// Every character from `from` is a digit (or a hex digit when `hex`).
fn all_from(e: &Vec<char>, from: usize, hex: bool) -> (b: bool)
    ensures
        !hex ==> b == all_digits_from(e@, from as int),
        hex ==> b == all_hex_from(e@, from as int),
{
    let mut k = from;
    while k < e.len()
        invariant
            from <= k,
            !hex ==> forall|m: int| from <= m < k && m < e@.len() ==> #[trigger] is_digit(e@[m]),
            hex ==> forall|m: int| from <= m < k && m < e@.len() ==> #[trigger] is_hex(e@[m]),
        decreases e.len() - k,
    {
        let c = e[k];
        let ok = if hex { char_is_hex(c) } else { char_is_digit(c) };
        if !ok {
            return false;
        }
        k = k + 1;
    }
    true
}

/// Sanitizes AI-generated XML specification text: escapes each `&` that
/// does not start a valid entity reference, and each `<` followed by a
/// digit or whitespace.
pub fn sanitize_spec_xml(spec: &str) -> (result: String)
    ensures
        result@ == sanitize_spec(spec@),
{
    let chars = to_chars(spec);
    let len = chars.len();
    let mut out: Vec<char> = Vec::new();
    let mut i: usize = 0;
    while i < len
        invariant
            len == chars@.len(),
            i <= len,
            out@ + sanitize_from(chars@, i as int) == sanitize_spec(chars@),
        decreases len - i,
    {
        let ghost before = out@;
        let c = chars[i];
        if c == '&' {
            if is_valid_entity_at(chars.as_slice(), i) {
                out.push(c);
            } else {
                out.push('&');
                out.push('a');
                out.push('m');
                out.push('p');
                out.push(';');
            }
        } else if c == '<' && i + 1 < len && (char_is_digit(chars[i + 1]) || char_is_ws(
            chars[i + 1],
        )) {
            out.push('&');
            out.push('l');
            out.push('t');
            out.push(';');
        } else {
            out.push(c);
        }
        assert(out@ =~= before + piece(chars@, i as int));
        assert(before + (piece(chars@, i as int) + sanitize_from(chars@, i + 1)) =~= out@
            + sanitize_from(chars@, i + 1));
        i = i + 1;
    }
    assert(out@ + sanitize_from(chars@, i as int) =~= out@);
    from_chars(out.as_slice())
}

} // verus!
