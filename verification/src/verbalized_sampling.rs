//! Verbalized sampling: prompts that ask a model for diverse approaches and
//! for the choice among them, the cache key of a feature, and where the
//! JSON answer sits in a model's output. Running the model, parsing JSON
//! and scoring (with floating point) happen outside.

use vstd::prelude::*;
use std::hash::{Hash, Hasher};
use crate::error::ForgerError;
use crate::text::{
    concat2, find_from, find_spec, owned, push_char, push_str, replace_owned, replace_spec, to_chars,
    from_chars, slice_chars, find_chars, trim_spec,
};

verus! {

/// Prompt asking for diverse implementation approaches.
pub const VS_PROMPT: &'static str = "Propose ten genuinely different ways to implement the feature below, from the most usual to the rarely used, each with the probability that a typical engineer would choose it.

## Feature

{{FEATURE_DESCRIPTION}}

## Technology Stack

{{TECH_STACK}}

## Project Context

{{PROJECT_CONTEXT}}

## Codebase Patterns

{{CODEBASE_PATTERNS}}

Answer with JSON only: {\"responses\": [{\"text\": \"...\", \"probability\": 0.1, \"reasoning\": \"...\", \"key_techniques\": [\"...\"], \"trade_offs\": \"...\"}]}
";

/// Prompt asking to choose the approach that fits the project best.
pub const SELECTOR_PROMPT: &'static str = "Choose the implementation approach that fits this project best.

## Project Overview

{{PROJECT_OVERVIEW}}

## Technology Stack

{{TECH_STACK}}

## Codebase Patterns

{{CODEBASE_PATTERNS}}

## Feature

{{FEATURE_DESCRIPTION}} (priority: {{FEATURE_PRIORITY}}, risk tolerance: {{RISK_LEVEL}})

## Approaches

{{APPROACHES_JSON}}

Answer with JSON only: {\"selected_index\": 0, \"approach\": \"...\", \"justification\": \"...\", \"alignment_scores\": {\"project_alignment\": 0, \"codebase_consistency\": 0, \"technical_fit\": 0, \"feature_requirements\": 0, \"maintainability\": 0}, \"adaptations\": [\"...\"], \"implementation_notes\": \"...\"}
";

/// The model that chooses among approaches unless configured otherwise.
pub const DEFAULT_SELECTOR_MODEL: &'static str = "io-intelligence/deepseek-ai/DeepSeek-V3.2";

/// How an approach fits, as scored by the selecting model.
#[derive(Debug, Clone, Copy, Default)]
pub struct AlignmentScores {
    pub project_alignment: u8,
    pub codebase_consistency: u8,
    pub technical_fit: u8,
    pub feature_requirements: u8,
    pub maintainability: u8,
}

/// The approach the selecting model chose.
#[derive(Debug, Clone)]
pub struct ApproachSelection {
    pub selected_index: usize,
    pub approach: String,
    pub probability_override_reason: String,
    pub justification: String,
    pub alignment_scores: AlignmentScores,
    pub adaptations: Vec<String>,
    pub implementation_notes: String,
}

/// Settings of verbalized sampling.
#[derive(Debug, Clone)]
pub struct VSConfig {
    pub generator_model: Option<String>,
    pub selector_model: String,
    pub cache_dir: String,
    pub cache_enabled: bool,
}

impl Default for VSConfig {
    /// The default settings: the default generator, the default selector,
    /// caching in `.vs-cache`.
    fn default() -> (c: VSConfig)
        ensures
            c.generator_model is None,
            c.selector_model@ == DEFAULT_SELECTOR_MODEL@,
            c.cache_dir@ == ".vs-cache"@,
            c.cache_enabled,
    {
        VSConfig {
            generator_model: None,
            selector_model: owned(DEFAULT_SELECTOR_MODEL),
            cache_dir: owned(".vs-cache"),
            cache_enabled: true,
        }
    }
}

// ---------------------------------------------------------------------------
// Cache key
// ---------------------------------------------------------------------------

/// The 64-bit hash `std::collections::hash_map::DefaultHasher::new()`
/// gives a string (all such hashers start equal).
pub uninterp spec fn default_hash(s: Seq<char>) -> u64;

/// Hashes a string with a fresh `DefaultHasher`. Claims only that the
/// result is the named hash of the string.
#[verifier::external_body]
fn hash_str(s: &str) -> (h: u64)
    ensures
        h == default_hash(s@),
{
    let mut hasher = std::collections::hash_map::DefaultHasher::new();
    s.hash(&mut hasher);
    hasher.finish()
}

/// The lowercase hex digit for `d < 16`.
pub open spec fn hex_digit(d: nat) -> char {
    if d < 10 { crate::text::digit_char(d) } else if d == 10 { 'a' } else if d == 11 { 'b' } else if d == 12 {
        'c'
    } else if d == 13 { 'd' } else if d == 14 { 'e' } else { 'f' }
}

/// `format!("{:x}", n)`: lowercase hex without leading zeros.
pub open spec fn hex(n: nat) -> Seq<char>
    decreases n,
{
    if n < 16 { seq![hex_digit(n)] } else { hex(n / 16).push(hex_digit(n % 16)) }
}

/// The lowercase hex digit for `d < 16`.
fn hex_digit_of(d: u64) -> (c: char)
    requires
        d < 16,
    ensures
        c == hex_digit(d as nat),
{
    if d < 10 { crate::text::digit_of(d) } else if d == 10 { 'a' } else if d == 11 { 'b' } else if d == 12 {
        'c'
    } else if d == 13 { 'd' } else if d == 14 { 'e' } else { 'f' }
}

/// `format!("{:x}", n)`.
pub fn hex_string(n: u64) -> (s: String)
    ensures
        s@ == hex(n as nat),
    decreases n,
{
    if n < 16 {
        let mut s = String::new();
        push_char(&mut s, hex_digit_of(n));
        assert(s@ =~= seq![hex_digit(n as nat)]);
        s
    } else {
        let mut s = hex_string(n / 16);
        push_char(&mut s, hex_digit_of(n % 16));
        s
    }
}

/// The hex form has at least one digit, and two or more from 16 on.
proof fn lemma_hex_len(n: nat)
    ensures
        hex(n).len() >= 1,
        n >= 16 ==> hex(n).len() >= 2,
    decreases n,
{
    if n >= 16 {
        lemma_hex_len(n / 16);
    }
}

/// A hex digit names one value below 16.
proof fn lemma_hex_digit_injective(a: nat, b: nat)
    requires
        a < 16,
        b < 16,
        hex_digit(a) == hex_digit(b),
    ensures
        a == b,
{
}

/// Different numbers have different hex forms, so different description
/// hashes give different cache keys (and equal descriptions equal keys,
/// the hash being a function of the description).
pub proof fn lemma_hex_injective(n: nat, m: nat)
    requires
        hex(n) == hex(m),
    ensures
        n == m,
    decreases n,
{
    lemma_hex_len(n);
    lemma_hex_len(m);
    if n < 16 && m < 16 {
        assert(hex(n)[0] == hex_digit(n));
        assert(hex(m)[0] == hex_digit(m));
        lemma_hex_digit_injective(n, m);
    } else if n >= 16 && m >= 16 {
        let hn = hex(n / 16).push(hex_digit(n % 16));
        let hm = hex(m / 16).push(hex_digit(m % 16));
        assert(hn.last() == hm.last());
        lemma_hex_digit_injective(n % 16, m % 16);
        assert(hn.drop_last() =~= hex(n / 16));
        assert(hm.drop_last() =~= hex(m / 16));
        lemma_hex_injective(n / 16, m / 16);
        assert(n == 16 * (n / 16) + n % 16) by (nonlinear_arith);
        assert(m == 16 * (m / 16) + m % 16) by (nonlinear_arith);
    } else {
        assert(hex(n).len() != hex(m).len());
    }
}

/// The cache key of a feature: the hex of its description's hash.
pub fn feature_hash(feature_description: &str) -> (s: String)
    ensures
        s@ == hex(default_hash(feature_description@) as nat),
{
    hex_string(hash_str(feature_description))
}

/// The cache file of a feature in a cache directory.
pub fn cache_file_path(cache_dir: &str, feature_description: &str) -> (p: String)
    ensures
        p@ == crate::services::scaffold::join_path(
            cache_dir@,
            hex(default_hash(feature_description@) as nat) + ".json"@,
        ),
{
    let name = concat2(feature_hash(feature_description).as_str(), ".json");
    crate::services::scaffold::join_path_str(cache_dir, name.as_str())
}

// ---------------------------------------------------------------------------
// Prompts
// ---------------------------------------------------------------------------

/// The prompt asking for approaches.
pub open spec fn vs_prompt_spec(feature: Seq<char>, tech: Seq<char>, context: Seq<char>, patterns: Seq<char>) -> Seq<char> {
    let a = replace_spec(VS_PROMPT@, "{{FEATURE_DESCRIPTION}}"@, feature);
    let b = replace_spec(a, "{{TECH_STACK}}"@, tech);
    let c = replace_spec(b, "{{PROJECT_CONTEXT}}"@, context);
    replace_spec(c, "{{CODEBASE_PATTERNS}}"@, patterns)
}

/// Builds the prompt asking for diverse approaches.
pub fn build_vs_prompt(feature: &str, tech_stack: &str, project_context: &str, codebase_patterns: &str) -> (s: String)
    ensures
        s@ == vs_prompt_spec(feature@, tech_stack@, project_context@, codebase_patterns@),
{
    proof {
        reveal_strlit("{{FEATURE_DESCRIPTION}}");
        reveal_strlit("{{TECH_STACK}}");
        reveal_strlit("{{PROJECT_CONTEXT}}");
        reveal_strlit("{{CODEBASE_PATTERNS}}");
    }
    let a = replace_owned(owned(VS_PROMPT), "{{FEATURE_DESCRIPTION}}", feature);
    let b = replace_owned(a, "{{TECH_STACK}}", tech_stack);
    let c = replace_owned(b, "{{PROJECT_CONTEXT}}", project_context);
    replace_owned(c, "{{CODEBASE_PATTERNS}}", codebase_patterns)
}

/// The prompt asking to choose an approach.
pub open spec fn selector_prompt_spec(
    overview: Seq<char>,
    tech: Seq<char>,
    patterns: Seq<char>,
    feature: Seq<char>,
    priority: Seq<char>,
    risk: Seq<char>,
    approaches_json: Seq<char>,
) -> Seq<char> {
    let a = replace_spec(SELECTOR_PROMPT@, "{{PROJECT_OVERVIEW}}"@, overview);
    let b = replace_spec(a, "{{TECH_STACK}}"@, tech);
    let c = replace_spec(b, "{{CODEBASE_PATTERNS}}"@, patterns);
    let d = replace_spec(c, "{{FEATURE_DESCRIPTION}}"@, feature);
    let e = replace_spec(d, "{{FEATURE_PRIORITY}}"@, priority);
    let f = replace_spec(e, "{{RISK_LEVEL}}"@, risk);
    replace_spec(f, "{{APPROACHES_JSON}}"@, approaches_json)
}

/// Builds the prompt asking to choose among approaches, given the
/// approaches as JSON.
pub fn build_selector_prompt(
    project_overview: &str,
    tech_stack: &str,
    codebase_patterns: &str,
    feature_description: &str,
    feature_priority: &str,
    risk_level: &str,
    approaches_json: &str,
) -> (s: String)
    ensures
        s@ == selector_prompt_spec(
            project_overview@,
            tech_stack@,
            codebase_patterns@,
            feature_description@,
            feature_priority@,
            risk_level@,
            approaches_json@,
        ),
{
    proof {
        reveal_strlit("{{PROJECT_OVERVIEW}}");
        reveal_strlit("{{TECH_STACK}}");
        reveal_strlit("{{CODEBASE_PATTERNS}}");
        reveal_strlit("{{FEATURE_DESCRIPTION}}");
        reveal_strlit("{{FEATURE_PRIORITY}}");
        reveal_strlit("{{RISK_LEVEL}}");
        reveal_strlit("{{APPROACHES_JSON}}");
    }
    let a = replace_owned(owned(SELECTOR_PROMPT), "{{PROJECT_OVERVIEW}}", project_overview);
    let b = replace_owned(a, "{{TECH_STACK}}", tech_stack);
    let c = replace_owned(b, "{{CODEBASE_PATTERNS}}", codebase_patterns);
    let d = replace_owned(c, "{{FEATURE_DESCRIPTION}}", feature_description);
    let e = replace_owned(d, "{{FEATURE_PRIORITY}}", feature_priority);
    let f = replace_owned(e, "{{RISK_LEVEL}}", risk_level);
    replace_owned(f, "{{APPROACHES_JSON}}", approaches_json)
}

// ---------------------------------------------------------------------------
// Finding the JSON answer
// ---------------------------------------------------------------------------

/// The last index where `p` occurs in `s`.
pub open spec fn rfind_spec(s: Seq<char>, p: Seq<char>) -> Option<int> {
    if exists|i: int| 0 <= i && i + p.len() <= s.len() && crate::text::matches_at(s, p, i) {
        Some(choose|i: int| 0 <= i && i + p.len() <= s.len() && crate::text::matches_at(s, p, i) && forall|j: int|
            i < j && j + p.len() <= s.len() ==> !crate::text::matches_at(s, p, j))
    } else {
        None
    }
}

/// The text from the first `{` to the last `}` (inclusive), when both
/// occur.
pub open spec fn braced_spec(output: Seq<char>) -> Option<Seq<char>> {
    match (find_spec(output, "{"@), rfind_spec(output, "}"@)) {
        (Some(a), Some(b)) => Some(output.subrange(a, b + 1)),
        _ => None,
    }
}

/// The trimmed text of the first ```` ```json ```` block, when one is
/// closed by ```` ``` ```` and a line break.
pub open spec fn fenced_spec(output: Seq<char>) -> Option<Seq<char>> {
    match find_spec(output, "```json"@) {
        Some(a) => match find_from(output, "```\n"@, a) {
            Some(b) => Some(trim_spec(output.subrange(a + 7, b))),
            None => None,
        },
        None => None,
    }
}

/// An output whose first `{` comes more than one place after its last `}`
/// cannot be cut between them; a `{` right after the last `}` gives the
/// empty text.
pub open spec fn braces_ordered(output: Seq<char>) -> bool {
    match (find_spec(output, "{"@), rfind_spec(output, "}"@)) {
        (Some(a), Some(b)) => a <= b + 1,
        _ => true,
    }
}

/// The last index of a character.
fn rfind_char(s: &[char], c: char) -> (r: Option<usize>)
    ensures
        r matches Some(i) ==> i < s@.len() && s@[i as int] == c && forall|j: int| i < j < s@.len() ==> s@[j] != c,
        r is None ==> forall|j: int| 0 <= j < s@.len() ==> s@[j] != c,
{
    let mut i = s.len();
    while i > 0
        invariant
            i <= s@.len(),
            forall|j: int| i <= j < s@.len() ==> s@[j] != c,
        decreases i,
    {
        if s[i - 1] == c {
            return Some(i - 1);
        }
        i = i - 1;
    }
    None
}

/// The two places a JSON answer may sit in a model's output, in the order
/// they are tried: between the first `{` and the last `}`, and inside the
/// first ```` ```json ```` block.
pub fn json_candidates(output: &str) -> (r: (Option<String>, Option<String>))
    requires
        braces_ordered(output@),
    ensures
        match (r.0, braced_spec(output@)) {
            (Some(x), Some(y)) => x@ == y,
            (None, None) => true,
            _ => false,
        },
        match (r.1, fenced_spec(output@)) {
            (Some(x), Some(y)) => x@ == y,
            (None, None) => true,
            _ => false,
        },
{
    let s = to_chars(output);
    let open = to_chars("{");
    let fence = to_chars("```json");
    let close_fence = to_chars("```\n");
    proof {
        reveal_strlit("{");
        reveal_strlit("}");
        reveal_strlit("```json");
        reveal_strlit("```\n");
        crate::text::lemma_find_from(s@, open@, 0);
    }
    let first = find_chars(s.as_slice(), open.as_slice(), 0);
    let last = rfind_char(s.as_slice(), '}');
    proof {
        match last {
            Some(i) => {
                assert(crate::text::matches_at(s@, "}"@, i as int)) by {
                    assert(s@.subrange(i as int, i + 1) =~= "}"@);
                }
                assert forall|j: int| i < j && j + 1 <= s@.len() implies !crate::text::matches_at(s@, "}"@, j) by {
                    reveal_strlit("}");
                    if crate::text::matches_at(s@, "}"@, j) {
                        assert(s@[j + 0] == "}"@[0]);
                    }
                }
                let k = choose|k: int| 0 <= k && k + 1 <= s@.len() && crate::text::matches_at(s@, "}"@, k) && forall|j: int|
                    k < j && j + 1 <= s@.len() ==> !crate::text::matches_at(s@, "}"@, j);
                assert(k == i as int);
                assert(rfind_spec(s@, "}"@) == Some(i as int));
            },
            None => {
                assert forall|j: int| 0 <= j && j + 1 <= s@.len() implies !crate::text::matches_at(s@, "}"@, j) by {
                    reveal_strlit("}");
                    if crate::text::matches_at(s@, "}"@, j) {
                        assert(s@[j + 0] == "}"@[0]);
                    }
                }
            },
        }
    }
    let braced = match (first, last) {
        (Some(a), Some(b)) => {
            let t = slice_chars(s.as_slice(), a, b + 1);
            Some(from_chars(t.as_slice()))
        },
        _ => None,
    };
    proof {
        crate::text::lemma_find_from(s@, fence@, 0);
    }
    let fenced = match find_chars(s.as_slice(), fence.as_slice(), 0) {
        Some(a) => {
            proof {
                crate::text::lemma_find_from(s@, close_fence@, a as int);
            }
            match find_chars(s.as_slice(), close_fence.as_slice(), a) {
                Some(b) => {
                    proof {
                        assert(b >= a + 7) by {
                            reveal_strlit("```json");
                            reveal_strlit("```\n");
                            let ai = a as int;
                            let bi = b as int;
                            assert(crate::text::matches_at(s@, "```json"@, ai));
                            assert(crate::text::matches_at(s@, "```\n"@, bi));
                            if bi < ai + 7 {
                                let d = bi - ai;
                                if d <= 2 {
                                    assert(s@[bi + 3] == "```\n"@[3]);
                                    assert(s@[ai + (d + 3)] == "```json"@[d + 3]);
                                } else {
                                    assert(s@[bi + 0] == "```\n"@[0]);
                                    assert(s@[ai + d] == "```json"@[d]);
                                }
                            }
                        }
                    }
                    let t = slice_chars(s.as_slice(), a + 7, b);
                    Some(crate::text::str_trim(from_chars(t.as_slice()).as_str()))
                },
                None => None,
            }
        },
        None => None,
    };
    (braced, fenced)
}

/// The first `n` characters of a text.
pub open spec fn prefix_chars(s: Seq<char>, n: nat) -> Seq<char> {
    if s.len() <= n { s } else { s.take(n as int) }
}

/// The first characters of a text (at most `n`).
fn take_chars(s: &str, n: usize) -> (r: String)
    ensures
        r@ == prefix_chars(s@, n as nat),
{
    let v = to_chars(s);
    if v.len() <= n {
        from_chars(v.as_slice())
    } else {
        let t = slice_chars(v.as_slice(), 0, n);
        from_chars(t.as_slice())
    }
}

/// The message when no JSON answer could be read from an output of the
/// approach generator: the start of the output is shown.
pub fn unparsable_approaches_message(output: &str) -> (m: String)
    ensures
        m@ == "Could not parse VS response as JSON. The model may have produced malformed output.\n\nPartial output:\n"@
            + prefix_chars(output@, 500),
{
    let mut m = owned("Could not parse VS response as JSON. The model may have produced malformed output.\n\nPartial output:\n");
    push_str(&mut m, take_chars(output, 500).as_str());
    m
}

/// The message when no JSON answer could be read from an output of the
/// approach selector: the start of the output is shown.
pub fn unparsable_selection_message(output: &str) -> (m: String)
    ensures
        m@ == "Could not parse selection response as JSON. The model may have produced malformed output.\n\nPartial output:\n"@
            + prefix_chars(output@, 500),
{
    let mut m = owned("Could not parse selection response as JSON. The model may have produced malformed output.\n\nPartial output:\n");
    push_str(&mut m, take_chars(output, 500).as_str());
    m
}

/// The message when the model exits with an error during a step (`what`):
/// the start of its output is shown.
pub fn model_failure_message(what: &str, output: &str) -> (m: String)
    ensures
        m@ == "OpenCode exited with error during "@ + what@ + ". Output:\n"@ + prefix_chars(output@, 1000),
{
    let mut m = owned("OpenCode exited with error during ");
    push_str(&mut m, what);
    push_str(&mut m, ". Output:\n");
    push_str(&mut m, take_chars(output, 1000).as_str());
    m
}

} // verus!
