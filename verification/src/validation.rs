//! Validation of generated project specifications.
//!
//! A specification is checked for its root element, parsed with
//! `quick_xml`, and its sections are counted. Configuration-aware rules
//! add minimum counts and required sections.

use vstd::prelude::*;
use crate::config::{Config, GenerationRequirements, is_minimal, requirements_for};
use crate::error::ForgerError;
use crate::template_xml::{
    XmlEvent, chars_eq, ev_end, ev_error, ev_start, ev_empty, ev_text, event_view, is_terminal,
    lemma_least, xml_event_at, xml_fresh, xml_next, xml_position, xml_position_at, xml_reader,
    xml_reads, xml_source, xml_trims,
};
use crate::text::{
    chars_start_with, contains_chars, contains_spec, decimal, decimal_string, find_chars,
    find_from, from_chars, lemma_find_from, matches_at, push_char, lines_chars, lines_spec, owned, push_chars, push_str,
    starts_with_spec, to_chars, trim_chars, trim_spec,
};

verus! {

// ---------------------------------------------------------------------------
// Comment stripping
// ---------------------------------------------------------------------------

/// A comment opens at index `i`: `<!--` starts there.
pub open spec fn opens_comment(s: Seq<char>, i: int) -> bool {
    0 <= i && i + 4 <= s.len() && s[i] == '<' && s[i + 1] == '!' && s[i + 2] == '-' && s[i + 3] == '-'
}

/// The text from index `i` with XML comments removed: wherever `<!--`
/// starts, everything up to and including the next `-->` after it is
/// dropped (the rest of the text when none follows); every other character
/// is kept, in order.
pub open spec fn strip_from(s: Seq<char>, i: int) -> Seq<char>
    decreases s.len() - i,
{
    if i < 0 || i >= s.len() {
        Seq::empty()
    } else if opens_comment(s, i) {
        match find_from(s, "-->"@, i + 4) {
            Some(q) => if q >= i + 4 && q + 3 <= s.len() { strip_from(s, q + 3) } else { Seq::empty() },
            None => Seq::empty(),
        }
    } else {
        seq![s[i]] + strip_from(s, i + 1)
    }
}

/// The text with XML comments removed.
pub open spec fn strip_comments_spec(s: Seq<char>) -> Seq<char> {
    strip_from(s, 0)
}

/// Strips XML comments (`<!-- ... -->`) from text, so that nothing hidden
/// in a comment counts in validation.
pub fn strip_xml_comments(text: &str) -> (r: String)
    ensures
        r@ == strip_comments_spec(text@),
{
    let s = to_chars(text);
    let close = to_chars("-->");
    proof {
        reveal_strlit("-->");
    }
    let len = s.len();
    assert(close@.len() == 3);
    let mut out: Vec<char> = Vec::new();
    let mut i: usize = 0;
    while i < len
        invariant
            len == s@.len(),
            close@ == "-->"@,
            close@.len() == 3,
            i <= len,
            out@ + strip_from(s@, i as int) == strip_comments_spec(s@),
        decreases len - i,
    {
        let ghost before = out@;
        if len - i >= 4 && s[i] == '<' && s[i + 1] == '!' && s[i + 2] == '-' && s[i + 3] == '-' {
            proof {
                lemma_find_from(s@, close@, i + 4);
            }
            match find_chars(s.as_slice(), close.as_slice(), i + 4) {
                Some(q) => {
                    i = q + 3;
                },
                None => {
                    assert(out@ + strip_from(s@, len as int) =~= out@);
                    i = len;
                },
            }
        } else {
            out.push(s[i]);
            assert(before + (seq![s@[i as int]] + strip_from(s@, i + 1)) =~= out@ + strip_from(
                s@,
                i + 1,
            ));
            i = i + 1;
        }
    }
    assert(out@ + strip_from(s@, i as int) =~= out@);
    from_chars(out.as_slice())
}

// ---------------------------------------------------------------------------
// Results and rules
// ---------------------------------------------------------------------------

/// Statistics about a specification.
#[derive(Debug, Clone, Copy, Default, PartialEq, Eq)]
pub struct SpecStats {
    pub has_project_name: bool,
    pub has_overview: bool,
    pub has_tech_stack: bool,
    pub has_features: bool,
    pub has_database: bool,
    pub has_api_endpoints: bool,
    pub has_success_criteria: bool,
    pub has_security: bool,
    pub has_testing_strategy: bool,
    pub has_devops: bool,
    pub has_accessibility: bool,
    pub has_future_enhancements: bool,
    pub feature_count: usize,
    pub endpoint_count: usize,
    pub database_table_count: usize,
    pub implementation_step_count: usize,
}

/// Result of validating a specification.
#[derive(Debug, Clone)]
pub struct ValidationResult {
    pub is_valid: bool,
    pub errors: Vec<String>,
    pub warnings: Vec<String>,
    pub stats: SpecStats,
}

impl View for ValidationResult {
    type V = (bool, Seq<Seq<char>>, Seq<Seq<char>>, SpecStats);

    open spec fn view(&self) -> Self::V {
        (
            self.is_valid,
            crate::text::views(self.errors@),
            crate::text::views(self.warnings@),
            self.stats,
        )
    }
}

/// Validation rules derived from configuration.
#[derive(Debug, Clone, Copy)]
pub struct ValidationRules {
    pub requirements: GenerationRequirements,
    pub include_security_section: bool,
    pub include_testing_strategy: bool,
    pub include_devops_section: bool,
    pub include_accessibility: bool,
    pub include_future_enhancements: bool,
}

impl ValidationRules {
    /// The rules that a configuration's generation settings ask for.
    pub fn from_config(config: &Config) -> (r: Self)
        ensures
            r.requirements == requirements_for(is_minimal(config.generation.complexity@)),
            r.include_security_section == config.generation.include_security_section,
            r.include_testing_strategy == config.generation.include_testing_strategy,
            r.include_devops_section == config.generation.include_devops_section,
            r.include_accessibility == config.generation.include_accessibility,
            r.include_future_enhancements == config.generation.include_future_enhancements,
    {
        ValidationRules {
            requirements: config.generation.requirements(),
            include_security_section: config.generation.include_security_section,
            include_testing_strategy: config.generation.include_testing_strategy,
            include_devops_section: config.generation.include_devops_section,
            include_accessibility: config.generation.include_accessibility,
            include_future_enhancements: config.generation.include_future_enhancements,
        }
    }
}

/// The mark printed for a present or missing section.
pub fn bool_icon(val: bool) -> (s: &'static str)
    ensures
        val ==> s@ == "✓"@,
        !val ==> s@ == "✗"@,
{
    if val {
        "✓"
    } else {
        "✗"
    }
}

// ---------------------------------------------------------------------------
// Scanning events
// ---------------------------------------------------------------------------

/// Where the scan of a specification's events stands.
#[derive(Debug, Clone, Copy)]
pub struct ScanState {
    pub in_features: bool,
    pub in_endpoints: bool,
    pub in_tables: bool,
    pub in_steps: bool,
    pub stats: SpecStats,
    pub feature_tags: usize,
    pub other_tags_in_features: usize,
    pub table_tags: usize,
    pub table_lines: usize,
    pub step_tags: usize,
}

/// The state before any event.
pub open spec fn scan_init() -> ScanState {
    ScanState {
        in_features: false,
        in_endpoints: false,
        in_tables: false,
        in_steps: false,
        stats: SpecStats {
            has_project_name: false,
            has_overview: false,
            has_tech_stack: false,
            has_features: false,
            has_database: false,
            has_api_endpoints: false,
            has_success_criteria: false,
            has_security: false,
            has_testing_strategy: false,
            has_devops: false,
            has_accessibility: false,
            has_future_enhancements: false,
            feature_count: 0,
            endpoint_count: 0,
            database_table_count: 0,
            implementation_step_count: 0,
        },
        feature_tags: 0,
        other_tags_in_features: 0,
        table_tags: 0,
        table_lines: 0,
        step_tags: 0,
    }
}

/// `x + n`, held at `usize::MAX`.
pub open spec fn sat_add(x: usize, n: nat) -> usize {
    if x + n <= usize::MAX { (x + n) as usize } else { usize::MAX }
}

/// The kind of a tag, by name: the tags the scan cares about, and 19 for
/// any other.
pub open spec fn tag_kind(name: Seq<char>) -> u8 {
    if name == "project_name"@ { 0 }
    else if name == "overview"@ { 1 }
    else if name == "technology_stack"@ { 2 }
    else if name == "core_features"@ { 3 }
    else if name == "database_schema"@ || name == "database"@ { 4 }
    else if name == "tables"@ { 5 }
    else if name == "api_endpoints"@ || name == "api_endpoints_summary"@ { 6 }
    else if name == "implementation_steps"@ { 7 }
    else if name == "success_criteria"@ { 8 }
    else if name == "security"@ { 9 }
    else if name == "testing_strategy"@ { 10 }
    else if name == "devops"@ { 11 }
    else if name == "accessibility"@ { 12 }
    else if name == "future_enhancements"@ { 13 }
    else if name == "feature"@ { 14 }
    else if name == "endpoint"@ { 15 }
    else if name == "step"@ { 16 }
    else if name == "table"@ { 17 }
    else if name == "column"@ { 18 }
    else { 19 }
}

/// The scan after a start (or empty) tag.
#[verifier::opaque]
pub open spec fn start_step(st: ScanState, kind: u8) -> ScanState {
    let s = st.stats;
    if kind == 0 { ScanState { stats: SpecStats { has_project_name: true, ..s }, ..st } }
    else if kind == 1 { ScanState { stats: SpecStats { has_overview: true, ..s }, ..st } }
    else if kind == 2 { ScanState { stats: SpecStats { has_tech_stack: true, ..s }, ..st } }
    else if kind == 3 { ScanState { in_features: true, stats: SpecStats { has_features: true, ..s }, ..st } }
    else if kind == 4 { ScanState { stats: SpecStats { has_database: true, ..s }, ..st } }
    else if kind == 5 { ScanState { in_tables: true, stats: SpecStats { has_database: true, ..s }, ..st } }
    else if kind == 6 { ScanState { in_endpoints: true, stats: SpecStats { has_api_endpoints: true, ..s }, ..st } }
    else if kind == 7 { ScanState { in_steps: true, ..st } }
    else if kind == 8 { ScanState { stats: SpecStats { has_success_criteria: true, ..s }, ..st } }
    else if kind == 9 { ScanState { stats: SpecStats { has_security: true, ..s }, ..st } }
    else if kind == 10 { ScanState { stats: SpecStats { has_testing_strategy: true, ..s }, ..st } }
    else if kind == 11 { ScanState { stats: SpecStats { has_devops: true, ..s }, ..st } }
    else if kind == 12 { ScanState { stats: SpecStats { has_accessibility: true, ..s }, ..st } }
    else if kind == 13 { ScanState { stats: SpecStats { has_future_enhancements: true, ..s }, ..st } }
    else if kind == 14 {
        if st.in_features { ScanState { feature_tags: sat_add(st.feature_tags, 1), ..st } } else { st }
    } else if kind == 15 {
        if st.in_endpoints {
            ScanState { stats: SpecStats { endpoint_count: sat_add(s.endpoint_count, 1), ..s }, ..st }
        } else { st }
    } else if kind == 16 {
        if st.in_steps { ScanState { step_tags: sat_add(st.step_tags, 1), ..st } } else { st }
    } else if kind == 17 {
        if st.in_tables { ScanState { table_tags: sat_add(st.table_tags, 1), ..st } } else { st }
    } else if kind == 18 {
        if st.in_tables { ScanState { stats: SpecStats { has_database: true, ..s }, ..st } } else { st }
    } else {
        let a = if st.in_features {
            ScanState { other_tags_in_features: sat_add(st.other_tags_in_features, 1), ..st }
        } else { st };
        if a.in_tables { ScanState { table_tags: sat_add(a.table_tags, 1), ..a } } else { a }
    }
}

/// The scan after an end tag.
#[verifier::opaque]
pub open spec fn end_step(st: ScanState, kind: u8) -> ScanState {
    if kind == 3 { ScanState { in_features: false, ..st } }
    else if kind == 6 { ScanState { in_endpoints: false, ..st } }
    else if kind == 5 { ScanState { in_tables: false, ..st } }
    else if kind == 7 { ScanState { in_steps: false, ..st } }
    else { st }
}

/// A text line that lists an API endpoint ("- GET /path" or a METHOD line).
pub open spec fn endpoint_line(l: Seq<char>) -> bool {
    let t = trim_spec(l);
    starts_with_spec(t, "- "@) && (contains_spec(t, "/"@) || contains_spec(t, "METHOD"@))
}

/// A text line that lists a table ("- name").
pub open spec fn table_line(l: Seq<char>) -> bool {
    starts_with_spec(trim_spec(l), "-"@)
}

/// How many lines list an endpoint.
pub open spec fn count_endpoint_lines(ls: Seq<Seq<char>>) -> nat
    decreases ls.len(),
{
    if ls.len() == 0 { 0 } else {
        count_endpoint_lines(ls.drop_last()) + if endpoint_line(ls.last()) { 1nat } else { 0nat }
    }
}

/// How many lines list a table.
pub open spec fn count_table_lines(ls: Seq<Seq<char>>) -> nat
    decreases ls.len(),
{
    if ls.len() == 0 { 0 } else {
        count_table_lines(ls.drop_last()) + if table_line(ls.last()) { 1nat } else { 0nat }
    }
}

/// The scan after a text event.
#[verifier::opaque]
pub open spec fn text_step(st: ScanState, text: Seq<char>) -> ScanState {
    let ls = lines_spec(text);
    let a = if st.in_endpoints {
        ScanState {
            stats: SpecStats {
                endpoint_count: sat_add(st.stats.endpoint_count, count_endpoint_lines(ls)),
                ..st.stats
            },
            ..st
        }
    } else { st };
    if a.in_tables { ScanState { table_lines: sat_add(a.table_lines, count_table_lines(ls)), ..a } } else { a }
}

/// The scan after one (non-terminal) event.
pub open spec fn scan_step(st: ScanState, e: (u8, Seq<char>)) -> ScanState {
    if e.0 == ev_start() || e.0 == ev_empty() {
        start_step(st, tag_kind(e.1))
    } else if e.0 == ev_end() {
        end_step(st, tag_kind(e.1))
    } else if e.0 == ev_text() {
        text_step(st, e.1)
    } else {
        st
    }
}

/// The scan over the events from index `i` up to the first terminal event:
/// the final state and the message of the error that ended it, if any.
pub open spec fn scan_from(evs: Seq<(u8, Seq<char>)>, i: int, st: ScanState) -> (ScanState, Option<Seq<char>>)
    decreases evs.len() - i,
{
    if i < 0 || i >= evs.len() {
        (st, None)
    } else if is_terminal(evs[i]) {
        (st, if evs[i].0 == ev_error() { Some(evs[i].1) } else { None })
    } else {
        scan_from(evs, i + 1, scan_step(st, evs[i]))
    }
}

/// The statistics a finished scan gives.
pub open spec fn final_stats(st: ScanState) -> SpecStats {
    SpecStats {
        implementation_step_count: st.step_tags,
        database_table_count: if st.table_tags > 0 { st.table_tags } else { st.table_lines },
        feature_count: if st.feature_tags > 0 { st.feature_tags } else { st.other_tags_in_features },
        ..st.stats
    }
}

/// "Spec has {n} {what}, requires at least {min}".
pub open spec fn count_error(n: usize, what: Seq<char>, min: u32) -> Seq<char> {
    "Spec has "@ + decimal(n as nat) + what + ", requires at least "@ + decimal(min as nat)
}

/// The errors for counts below the configured minimums.
pub open spec fn rule_count_errors(stats: SpecStats, r: GenerationRequirements) -> Seq<Seq<char>> {
    let e1: Seq<Seq<char>> = if stats.feature_count < r.min_features {
        seq![count_error(stats.feature_count, " feature(s)"@, r.min_features)]
    } else { seq![] };
    let e2: Seq<Seq<char>> = if stats.database_table_count < r.min_database_tables {
        seq![count_error(stats.database_table_count, " database table(s)"@, r.min_database_tables)]
    } else { seq![] };
    let e3: Seq<Seq<char>> = if stats.endpoint_count < r.min_api_endpoints {
        seq![count_error(stats.endpoint_count, " API endpoint(s)"@, r.min_api_endpoints)]
    } else { seq![] };
    let e4: Seq<Seq<char>> = if stats.implementation_step_count < r.min_implementation_steps {
        seq![count_error(stats.implementation_step_count, " implementation step(s)"@, r.min_implementation_steps)]
    } else { seq![] };
    e1 + e2 + e3 + e4
}

/// The errors for required sections that are missing.
pub open spec fn rule_section_errors(stats: SpecStats, rules: ValidationRules) -> Seq<Seq<char>> {
    let e5: Seq<Seq<char>> = if rules.include_security_section && !stats.has_security {
        seq!["Missing <security> section in spec"@]
    } else { seq![] };
    let e6: Seq<Seq<char>> = if rules.include_testing_strategy && !stats.has_testing_strategy {
        seq!["Missing <testing_strategy> section in spec"@]
    } else { seq![] };
    let e7: Seq<Seq<char>> = if rules.include_devops_section && !stats.has_devops {
        seq!["Missing <devops> section in spec"@]
    } else { seq![] };
    let e8: Seq<Seq<char>> = if rules.include_accessibility && !stats.has_accessibility {
        seq!["Missing <accessibility> section in spec"@]
    } else { seq![] };
    let e9: Seq<Seq<char>> = if rules.include_future_enhancements && !stats.has_future_enhancements {
        seq!["Missing <future_enhancements> section in spec"@]
    } else { seq![] };
    e5 + e6 + e7 + e8 + e9
}

/// The errors that configuration rules add.
pub open spec fn rule_errors(stats: SpecStats, rules: ValidationRules) -> Seq<Seq<char>> {
    rule_count_errors(stats, rules.requirements) + rule_section_errors(stats, rules)
}

/// The error for a missing opening tag, if it is missing.
pub open spec fn err_open(stripped: Seq<char>) -> Seq<Seq<char>> {
    if !contains_spec(stripped, "<project_specification>"@) {
        seq!["Missing <project_specification> root element"@]
    } else { seq![] }
}

/// The error for a missing closing tag, if it is missing.
pub open spec fn err_close(stripped: Seq<char>) -> Seq<Seq<char>> {
    if !contains_spec(stripped, "</project_specification>"@) {
        seq!["Missing </project_specification> closing tag"@]
    } else { seq![] }
}

/// The error for the parse error that ended the reading, if any.
pub open spec fn err_parse(err: Option<Seq<char>>, pos: u64) -> Seq<Seq<char>> {
    match err {
        Some(m) => seq!["XML parsing error at position "@ + decimal(pos as nat) + ": "@ + m],
        None => seq![],
    }
}

/// The errors for a missing project name and overview.
pub open spec fn err_required(stats: SpecStats) -> Seq<Seq<char>> {
    let e_name: Seq<Seq<char>> = if !stats.has_project_name {
        seq!["Missing <project_name> element"@]
    } else { seq![] };
    let e_overview: Seq<Seq<char>> = if !stats.has_overview {
        seq!["Missing <overview> element"@]
    } else { seq![] };
    e_name + e_overview
}

/// The errors of a validation, in the order they are reported.
pub open spec fn errors_spec(
    stripped: Seq<char>,
    err: Option<Seq<char>>,
    pos: u64,
    rules: Option<ValidationRules>,
    stats: SpecStats,
) -> Seq<Seq<char>> {
    let e_rules: Seq<Seq<char>> = match rules {
        Some(r) => rule_errors(stats, r),
        None => seq![],
    };
    err_open(stripped) + err_close(stripped) + err_parse(err, pos) + e_rules + err_required(stats)
}

/// The warnings of a validation.
pub open spec fn warnings_spec(stats: SpecStats) -> Seq<Seq<char>> {
    let w1: Seq<Seq<char>> = if !stats.has_features && !stats.has_tech_stack {
        seq!["Spec has no features or tech stack defined"@]
    } else { seq![] };
    let w2: Seq<Seq<char>> = if !stats.has_success_criteria {
        seq!["Missing success criteria - how will you know when it's done?"@]
    } else { seq![] };
    w1 + w2
}

/// The outcome of validating a specification: its comment-stripped text,
/// its events up to the first terminal one, the reader's position after
/// them (used when an error ended the reading), and optional rules.
pub open spec fn validation_spec(
    stripped: Seq<char>,
    evs: Seq<(u8, Seq<char>)>,
    pos: u64,
    rules: Option<ValidationRules>,
) -> (bool, Seq<Seq<char>>, Seq<Seq<char>>, SpecStats) {
    let (st, err) = scan_from(evs, 0, scan_init());
    let stats = final_stats(st);
    let errors = errors_spec(stripped, err, pos, rules, stats);
    (errors.len() == 0, errors, warnings_spec(stats), stats)
}

// ---------------------------------------------------------------------------
// Executable scan
// ---------------------------------------------------------------------------

/// `x + 1`, held at `usize::MAX`.
fn sat_inc(x: usize) -> (r: usize)
    ensures
        r == sat_add(x, 1),
{
    if x < usize::MAX { x + 1 } else { x }
}

/// Whether `name` equals the string literal `lit`.
fn name_is(name: &Vec<char>, lit: &str) -> (b: bool)
    ensures
        b == (name@ == lit@),
{
    let l = to_chars(lit);
    chars_eq(name.as_slice(), l.as_slice())
}

/// The kind of a tag, by name.
pub fn classify_tag(name: &str) -> (k: u8)
    ensures
        k == tag_kind(name@),
{
    let n = to_chars(name);
    if name_is(&n, "project_name") { 0 }
    else if name_is(&n, "overview") { 1 }
    else if name_is(&n, "technology_stack") { 2 }
    else if name_is(&n, "core_features") { 3 }
    else if name_is(&n, "database_schema") || name_is(&n, "database") { 4 }
    else if name_is(&n, "tables") { 5 }
    else if name_is(&n, "api_endpoints") || name_is(&n, "api_endpoints_summary") { 6 }
    else if name_is(&n, "implementation_steps") { 7 }
    else if name_is(&n, "success_criteria") { 8 }
    else if name_is(&n, "security") { 9 }
    else if name_is(&n, "testing_strategy") { 10 }
    else if name_is(&n, "devops") { 11 }
    else if name_is(&n, "accessibility") { 12 }
    else if name_is(&n, "future_enhancements") { 13 }
    else if name_is(&n, "feature") { 14 }
    else if name_is(&n, "endpoint") { 15 }
    else if name_is(&n, "step") { 16 }
    else if name_is(&n, "table") { 17 }
    else if name_is(&n, "column") { 18 }
    else { 19 }
}

/// The scan after a start (or empty) tag of the given kind.
fn exec_start_step(st: ScanState, kind: u8) -> (r: ScanState)
    ensures
        r == start_step(st, kind),
{
    reveal(start_step);
    let s = st.stats;
    if kind == 0 { ScanState { stats: SpecStats { has_project_name: true, ..s }, ..st } }
    else if kind == 1 { ScanState { stats: SpecStats { has_overview: true, ..s }, ..st } }
    else if kind == 2 { ScanState { stats: SpecStats { has_tech_stack: true, ..s }, ..st } }
    else if kind == 3 { ScanState { in_features: true, stats: SpecStats { has_features: true, ..s }, ..st } }
    else if kind == 4 { ScanState { stats: SpecStats { has_database: true, ..s }, ..st } }
    else if kind == 5 { ScanState { in_tables: true, stats: SpecStats { has_database: true, ..s }, ..st } }
    else if kind == 6 { ScanState { in_endpoints: true, stats: SpecStats { has_api_endpoints: true, ..s }, ..st } }
    else if kind == 7 { ScanState { in_steps: true, ..st } }
    else if kind == 8 { ScanState { stats: SpecStats { has_success_criteria: true, ..s }, ..st } }
    else if kind == 9 { ScanState { stats: SpecStats { has_security: true, ..s }, ..st } }
    else if kind == 10 { ScanState { stats: SpecStats { has_testing_strategy: true, ..s }, ..st } }
    else if kind == 11 { ScanState { stats: SpecStats { has_devops: true, ..s }, ..st } }
    else if kind == 12 { ScanState { stats: SpecStats { has_accessibility: true, ..s }, ..st } }
    else if kind == 13 { ScanState { stats: SpecStats { has_future_enhancements: true, ..s }, ..st } }
    else if kind == 14 {
        if st.in_features { ScanState { feature_tags: sat_inc(st.feature_tags), ..st } } else { st }
    } else if kind == 15 {
        if st.in_endpoints {
            ScanState { stats: SpecStats { endpoint_count: sat_inc(s.endpoint_count), ..s }, ..st }
        } else { st }
    } else if kind == 16 {
        if st.in_steps { ScanState { step_tags: sat_inc(st.step_tags), ..st } } else { st }
    } else if kind == 17 {
        if st.in_tables { ScanState { table_tags: sat_inc(st.table_tags), ..st } } else { st }
    } else if kind == 18 {
        if st.in_tables { ScanState { stats: SpecStats { has_database: true, ..s }, ..st } } else { st }
    } else {
        let a = if st.in_features {
            ScanState { other_tags_in_features: sat_inc(st.other_tags_in_features), ..st }
        } else { st };
        if a.in_tables { ScanState { table_tags: sat_inc(a.table_tags), ..a } } else { a }
    }
}

/// The scan after an end tag of the given kind.
fn exec_end_step(st: ScanState, kind: u8) -> (r: ScanState)
    ensures
        r == end_step(st, kind),
{
    reveal(end_step);
    let mut r = st;
    if kind == 3 { r.in_features = false; }
    else if kind == 6 { r.in_endpoints = false; }
    else if kind == 5 { r.in_tables = false; }
    else if kind == 7 { r.in_steps = false; }
    r
}

/// Whether a line lists an endpoint.
fn is_endpoint_line(l: &Vec<char>) -> (b: bool)
    ensures
        b == endpoint_line(l@),
{
    let t = trim_chars(l.as_slice());
    let dash = to_chars("- ");
    let slash = to_chars("/");
    let method = to_chars("METHOD");
    chars_start_with(t.as_slice(), dash.as_slice()) && (contains_chars(t.as_slice(), slash.as_slice())
        || contains_chars(t.as_slice(), method.as_slice()))
}

/// Whether a line lists a table.
fn is_table_line(l: &Vec<char>) -> (b: bool)
    ensures
        b == table_line(l@),
{
    let t = trim_chars(l.as_slice());
    let dash = to_chars("-");
    chars_start_with(t.as_slice(), dash.as_slice())
}

/// Counts the lines of a text that list endpoints (when `endpoints`) or
/// tables (otherwise), held at `usize::MAX` when added to `base`.
fn count_lines(text: &str, endpoints: bool, base: usize) -> (r: usize)
    ensures
        endpoints ==> r == sat_add(base, count_endpoint_lines(lines_spec(text@))),
        !endpoints ==> r == sat_add(base, count_table_lines(lines_spec(text@))),
{
    let chars = to_chars(text);
    let ls = lines_chars(chars.as_slice());
    let ghost lv = ls@.map_values(|l: Vec<char>| l@);
    let mut r = base;
    let mut i: usize = 0;
    while i < ls.len()
        invariant
            i <= ls@.len(),
            lv == ls@.map_values(|l: Vec<char>| l@),
            lv == lines_spec(text@),
            endpoints ==> r == sat_add(base, count_endpoint_lines(lv.subrange(0, i as int))),
            !endpoints ==> r == sat_add(base, count_table_lines(lv.subrange(0, i as int))),
        decreases ls.len() - i,
    {
        let hit = if endpoints { is_endpoint_line(&ls[i]) } else { is_table_line(&ls[i]) };
        proof {
            let pre = lv.subrange(0, i as int);
            let cur = lv.subrange(0, i + 1);
            assert(cur.drop_last() =~= pre);
            assert(cur.last() == ls@[i as int]@);
        }
        if hit {
            r = sat_inc(r);
        }
        i = i + 1;
    }
    assert(lv.subrange(0, lv.len() as int) =~= lv);
    r
}

/// The scan after a text event.
fn exec_text_step(st: ScanState, text: &str) -> (r: ScanState)
    ensures
        r == text_step(st, text@),
{
    reveal(text_step);
    let mut r = st;
    if r.in_endpoints {
        r.stats.endpoint_count = count_lines(text, true, r.stats.endpoint_count);
    }
    if r.in_tables {
        r.table_lines = count_lines(text, false, r.table_lines);
    }
    r
}

/// The scan after one non-terminal event.
pub fn step_event(st: ScanState, e: &XmlEvent) -> (r: ScanState)
    ensures
        r == scan_step(st, event_view(*e)),
{
    match e {
        XmlEvent::Start(name) => exec_start_step(st, classify_tag(name.as_str())),
        XmlEvent::Empty(name) => exec_start_step(st, classify_tag(name.as_str())),
        XmlEvent::End(name) => exec_end_step(st, classify_tag(name.as_str())),
        XmlEvent::Text(text) => exec_text_step(st, text.as_str()),
        _ => st,
    }
}

/// Appends "Spec has {n}{what}, requires at least {min}" to the errors.
fn push_count_error(errors: &mut Vec<String>, n: usize, what: &str, min: u32)
    ensures
        crate::text::views(final(errors)@) == crate::text::views(old(errors)@).push(
            count_error(n, what@, min),
        ),
{
    let mut m = owned("Spec has ");
    let d = decimal_string(n as u64);
    push_str(&mut m, d.as_str());
    push_str(&mut m, what);
    push_str(&mut m, ", requires at least ");
    let dm = decimal_string(min as u64);
    push_str(&mut m, dm.as_str());
    errors.push(m);
    proof {
        assert(crate::text::views(errors@) =~= crate::text::views(old(errors)@).push(
            count_error(n, what@, min),
        ));
    }
}

/// Appends a message to a list of messages.
fn push_message(list: &mut Vec<String>, msg: &str)
    ensures
        crate::text::views(final(list)@) == crate::text::views(old(list)@).push(msg@),
{
    list.push(owned(msg));
    proof {
        assert(crate::text::views(list@) =~= crate::text::views(old(list)@).push(msg@));
    }
}

/// Scans the events up to the first terminal one: the final state and the
/// message of the error that ended the reading, if any.
pub fn scan_events(events: &Vec<XmlEvent>) -> (r: (ScanState, Option<String>))
    ensures
        scan_from(events@.map_values(|e: XmlEvent| event_view(e)), 0, scan_init()) == (r.0, match r.1 {
            Some(m) => Some(m@),
            None => None::<Seq<char>>,
        }),
{
    let ghost evs = events@.map_values(|e: XmlEvent| event_view(e));
    let mut st = ScanState {
        in_features: false,
        in_endpoints: false,
        in_tables: false,
        in_steps: false,
        stats: SpecStats {
            has_project_name: false,
            has_overview: false,
            has_tech_stack: false,
            has_features: false,
            has_database: false,
            has_api_endpoints: false,
            has_success_criteria: false,
            has_security: false,
            has_testing_strategy: false,
            has_devops: false,
            has_accessibility: false,
            has_future_enhancements: false,
            feature_count: 0,
            endpoint_count: 0,
            database_table_count: 0,
            implementation_step_count: 0,
        },
        feature_tags: 0,
        other_tags_in_features: 0,
        table_tags: 0,
        table_lines: 0,
        step_tags: 0,
    };
    let mut i: usize = 0;
    while i < events.len()
        invariant
            i <= events@.len(),
            evs == events@.map_values(|e: XmlEvent| event_view(e)),
            scan_from(evs, i as int, st) == scan_from(evs, 0, scan_init()),
        decreases events.len() - i,
    {
        let e = &events[i];
        assert(evs[i as int] == event_view(*e));
        match e {
            XmlEvent::Eof => {
                return (st, None);
            },
            XmlEvent::Error(m) => {
                return (st, Some(m.clone()));
            },
            _ => {
                st = step_event(st, e);
                i = i + 1;
            },
        }
    }
    (st, None)
}

/// Appends the errors for counts below the configured minimums.
fn push_count_errors(errors: &mut Vec<String>, stats: SpecStats, req: GenerationRequirements)
    ensures
        crate::text::views(final(errors)@) == crate::text::views(old(errors)@) + rule_count_errors(stats, req),
{
    let ghost before = crate::text::views(errors@);
    if stats.feature_count < req.min_features as usize {
        push_count_error(errors, stats.feature_count, " feature(s)", req.min_features);
    }
    let ghost a1 = crate::text::views(errors@);
    if stats.database_table_count < req.min_database_tables as usize {
        push_count_error(errors, stats.database_table_count, " database table(s)", req.min_database_tables);
    }
    let ghost a2 = crate::text::views(errors@);
    if stats.endpoint_count < req.min_api_endpoints as usize {
        push_count_error(errors, stats.endpoint_count, " API endpoint(s)", req.min_api_endpoints);
    }
    let ghost a3 = crate::text::views(errors@);
    if stats.implementation_step_count < req.min_implementation_steps as usize {
        push_count_error(errors, stats.implementation_step_count, " implementation step(s)", req.min_implementation_steps);
    }
    assert(crate::text::views(errors@) =~= before + rule_count_errors(stats, req));
}

/// Appends the errors for required sections that are missing.
fn push_section_errors(errors: &mut Vec<String>, stats: SpecStats, rules: ValidationRules)
    ensures
        crate::text::views(final(errors)@) == crate::text::views(old(errors)@) + rule_section_errors(stats, rules),
{
    let ghost before = crate::text::views(errors@);
    if rules.include_security_section && !stats.has_security {
        push_message(errors, "Missing <security> section in spec");
    }
    if rules.include_testing_strategy && !stats.has_testing_strategy {
        push_message(errors, "Missing <testing_strategy> section in spec");
    }
    if rules.include_devops_section && !stats.has_devops {
        push_message(errors, "Missing <devops> section in spec");
    }
    if rules.include_accessibility && !stats.has_accessibility {
        push_message(errors, "Missing <accessibility> section in spec");
    }
    if rules.include_future_enhancements && !stats.has_future_enhancements {
        push_message(errors, "Missing <future_enhancements> section in spec");
    }
    assert(crate::text::views(errors@) =~= before + rule_section_errors(stats, rules));
}

/// "XML parsing error at position {pos}: {m}".
fn parse_error_message(pos: u64, m: &str) -> (msg: String)
    ensures
        seq![msg@] == err_parse(Some(m@), pos),
{
    let mut msg = owned("XML parsing error at position ");
    let d = decimal_string(pos);
    push_str(&mut msg, d.as_str());
    push_str(&mut msg, ": ");
    push_str(&mut msg, m);
    msg
}

/// Appends an owned message to a list of messages.
fn push_string(list: &mut Vec<String>, msg: String)
    ensures
        crate::text::views(final(list)@) == crate::text::views(old(list)@).push(msg@),
{
    let ghost m = msg@;
    list.push(msg);
    proof {
        assert(crate::text::views(list@) =~= crate::text::views(old(list)@).push(m));
    }
}

/// The errors about the document's structure: the root element's tags and
/// the parse error that ended the reading.
fn structure_errors(stripped: &str, err: &Option<String>, pos: u64) -> (errors: Vec<String>)
    ensures
        crate::text::views(errors@) == err_open(stripped@) + err_close(stripped@) + err_parse(
            match *err {
                Some(m) => Some(m@),
                None => None::<Seq<char>>,
            },
            pos,
        ),
{
    let mut errors: Vec<String> = Vec::new();
    let s = to_chars(stripped);
    let open = to_chars("<project_specification>");
    let close = to_chars("</project_specification>");
    proof {
        reveal_strlit("<project_specification>");
        reveal_strlit("</project_specification>");
    }
    if !contains_chars(s.as_slice(), open.as_slice()) {
        push_message(&mut errors, "Missing <project_specification> root element");
    }
    let ghost a1 = crate::text::views(errors@);
    assert(a1 =~= err_open(stripped@));
    if !contains_chars(s.as_slice(), close.as_slice()) {
        push_message(&mut errors, "Missing </project_specification> closing tag");
    }
    let ghost a2 = crate::text::views(errors@);
    assert(a2 =~= err_open(stripped@) + err_close(stripped@));
    match err {
        Some(m) => {
            let msg = parse_error_message(pos, m.as_str());
            push_string(&mut errors, msg);
        },
        None => {},
    }
    errors
}

/// The errors of a validation, in the order they are reported.
fn build_errors(
    stripped: &str,
    err: Option<String>,
    pos: u64,
    rules: Option<ValidationRules>,
    stats: SpecStats,
) -> (errors: Vec<String>)
    ensures
        crate::text::views(errors@) == errors_spec(stripped@, match err {
            Some(m) => Some(m@),
            None => None::<Seq<char>>,
        }, pos, rules, stats),
{
    let mut errors = structure_errors(stripped, &err, pos);
    let ghost before_rules = crate::text::views(errors@);
    match rules {
        Some(rules) => {
            push_count_errors(&mut errors, stats, rules.requirements);
            push_section_errors(&mut errors, stats, rules);
            assert(crate::text::views(errors@) =~= before_rules + rule_errors(stats, rules));
        },
        None => {
            assert(crate::text::views(errors@) =~= before_rules + Seq::<Seq<char>>::empty());
        },
    }
    let ghost before_required = crate::text::views(errors@);
    if !stats.has_project_name {
        push_message(&mut errors, "Missing <project_name> element");
    }
    if !stats.has_overview {
        push_message(&mut errors, "Missing <overview> element");
    }
    assert(crate::text::views(errors@) =~= before_required + err_required(stats));
    errors
}

/// The warnings of a validation.
fn build_warnings(stats: SpecStats) -> (warnings: Vec<String>)
    ensures
        crate::text::views(warnings@) == warnings_spec(stats),
{
    let mut warnings: Vec<String> = Vec::new();
    if !stats.has_features && !stats.has_tech_stack {
        push_message(&mut warnings, "Spec has no features or tech stack defined");
    }
    if !stats.has_success_criteria {
        push_message(&mut warnings, "Missing success criteria - how will you know when it's done?");
    }
    assert(crate::text::views(warnings@) =~= warnings_spec(stats));
    warnings
}

/// Summarizes a specification's validation from its comment-stripped text,
/// its XML events (read up to the first end of input or error), the
/// reader's position after the last of them, and optional rules.
pub fn summarize_spec_events(
    stripped: &str,
    events: &Vec<XmlEvent>,
    error_position: u64,
    rules: Option<ValidationRules>,
) -> (r: ValidationResult)
    ensures
        r@ == validation_spec(stripped@, events@.map_values(|e: XmlEvent| event_view(e)), error_position, rules),
{
    let (st, err) = scan_events(events);
    let stats = SpecStats {
        implementation_step_count: st.step_tags,
        database_table_count: if st.table_tags > 0 { st.table_tags } else { st.table_lines },
        feature_count: if st.feature_tags > 0 { st.feature_tags } else { st.other_tags_in_features },
        ..st.stats
    };
    let errors = build_errors(stripped, err, error_position, rules, stats);
    let warnings = build_warnings(stats);
    let is_valid = errors.len() == 0;
    ValidationResult { is_valid, errors, warnings, stats }
}


// ---------------------------------------------------------------------------
// Validation
// ---------------------------------------------------------------------------

/// The index of the first event at which the reading of `src` (with text
/// trimmed) ends: end of input or an error.
pub open spec fn terminal_index(src: Seq<char>) -> nat {
    choose|m: nat| #[trigger] is_terminal(xml_event_at(src, true, m)) && forall|k: nat|
        k < m ==> !is_terminal(xml_event_at(src, true, k))
}

/// The events read from `src` (text trimmed), up to and including the
/// first terminal one.
pub open spec fn spec_events(src: Seq<char>) -> Seq<(u8, Seq<char>)> {
    Seq::new(terminal_index(src) + 1, |k: int| xml_event_at(src, true, k as nat))
}

/// The outcome of validating `text` with optional rules: comments are
/// stripped for the root-element check, the events are read from the text
/// as given, and a parse error is reported at the reader's position after
/// it.
pub open spec fn validate_text_spec(text: Seq<char>, rules: Option<ValidationRules>) -> (
    bool,
    Seq<Seq<char>>,
    Seq<Seq<char>>,
    SpecStats,
) {
    validation_spec(
        strip_comments_spec(text),
        spec_events(text),
        xml_position_at(text, true, terminal_index(text) + 1),
        rules,
    )
}

/// Reads the events of a text (with text trimmed) up to and including the
/// first end of input or error, and the reader's position after them.
fn read_events(text: &str) -> (r: (Vec<XmlEvent>, u64))
    ensures
        r.0@.map_values(|e: XmlEvent| event_view(e)) == spec_events(text@),
        r.1 == xml_position_at(text@, true, terminal_index(text@) + 1),
{
    let mut reader = xml_reader(text, true);
    let ghost src = text@;
    let ghost stop = |k: nat| is_terminal(xml_event_at(src, true, k));
    proof {
        let n = choose|n: nat| is_terminal(xml_event_at(src, true, n));
        assert(stop(n));
        lemma_least(stop, n);
        let w = choose|w: nat| #[trigger] stop(w) && forall|k: nat| k < w ==> !#[trigger] stop(k);
        assert(is_terminal(xml_event_at(src, true, w)));
        assert forall|k: nat| k < w implies !is_terminal(xml_event_at(src, true, k)) by {
            assert(!stop(k));
        }
    }
    let ghost m = terminal_index(src);
    let mut events: Vec<XmlEvent> = Vec::new();
    loop
        invariant_except_break
            xml_reads(reader) <= m,
        invariant
            xml_fresh(reader),
            xml_source(reader) == src,
            src == text@,
            xml_trims(reader),
            m == terminal_index(src),
            is_terminal(xml_event_at(src, true, m)),
            forall|k: nat| k < m ==> !is_terminal(xml_event_at(src, true, k)),
            events@.map_values(|e: XmlEvent| event_view(e)) == Seq::new(
                xml_reads(reader),
                |k: int| xml_event_at(src, true, k as nat),
            ),
        ensures
            xml_reads(reader) == m + 1,
        decreases m - xml_reads(reader),
    {
        let ghost k = xml_reads(reader);
        let ghost before = events@.map_values(|e: XmlEvent| event_view(e));
        let e = xml_next(&mut reader);
        let terminal = match e {
            XmlEvent::Eof => true,
            XmlEvent::Error(_) => true,
            _ => false,
        };
        let ghost ev = event_view(e);
        events.push(e);
        proof {
            assert(events@.map_values(|e: XmlEvent| event_view(e)) =~= before.push(ev));
            assert(before.push(ev) =~= Seq::new(k + 1, |j: int| xml_event_at(src, true, j as nat)));
            assert(terminal == is_terminal(xml_event_at(src, true, k)));
            if !terminal && k == m {
                assert(false);
            }
            if terminal && k < m {
                assert(false);
            }
        }
        if terminal {
            break;
        }
    }
    let pos = xml_position(&reader);
    (events, pos)
}

/// Validates a specification with optional configuration rules.
fn validate_spec_with_rules(spec_text: &str, rules: Option<ValidationRules>) -> (r: ValidationResult)
    ensures
        r@ == validate_text_spec(spec_text@, rules),
{
    let stripped = strip_xml_comments(spec_text);
    let (events, pos) = read_events(spec_text);
    summarize_spec_events(stripped.as_str(), &events, pos, rules)
}

/// Validates a project specification: its root element, its structure as
/// XML, its sections and counts. Always `Ok`; problems are reported in the
/// result.
pub fn validate_spec(spec_text: &str) -> (r: Result<ValidationResult, ForgerError>)
    ensures
        r matches Ok(v) && v@ == validate_text_spec(spec_text@, None),
{
    Ok(validate_spec_with_rules(spec_text, None))
}

/// Validates a project specification with the rules that a configuration
/// asks for: minimum counts and required sections. Always `Ok`.
pub fn validate_spec_with_config(spec_text: &str, config: &Config) -> (r: Result<ValidationResult, ForgerError>)
    ensures
        r matches Ok(v) && v@ == validate_text_spec(
            spec_text@,
            Some(
                ValidationRules {
                    requirements: requirements_for(is_minimal(config.generation.complexity@)),
                    include_security_section: config.generation.include_security_section,
                    include_testing_strategy: config.generation.include_testing_strategy,
                    include_devops_section: config.generation.include_devops_section,
                    include_accessibility: config.generation.include_accessibility,
                    include_future_enhancements: config.generation.include_future_enhancements,
                },
            ),
        ),
{
    Ok(validate_spec_with_rules(spec_text, Some(ValidationRules::from_config(config))))
}

// ---------------------------------------------------------------------------
// Laws
// ---------------------------------------------------------------------------

/// Configuration rules only add errors: a specification that passes with
/// rules passes without them, the statistics and warnings do not depend on
/// the rules, and the errors with rules are those without, with the rule
/// errors put in before the missing-element errors (so the errors without
/// rules are a subsequence of those with them, in the same order).
pub proof fn lemma_rules_only_add_errors(text: Seq<char>, rules: ValidationRules)
    ensures
        validate_text_spec(text, Some(rules)).0 ==> validate_text_spec(text, None).0,
        validate_text_spec(text, Some(rules)).3 == validate_text_spec(text, None).3,
        validate_text_spec(text, Some(rules)).2 == validate_text_spec(text, None).2,
        ({
            let without = validate_text_spec(text, None).1;
            let stats = validate_text_spec(text, None).3;
            let k = without.len() - err_required(stats).len();
            &&& 0 <= k <= without.len()
            &&& validate_text_spec(text, Some(rules)).1 == without.subrange(0, k) + rule_errors(stats, rules)
                + without.subrange(k, without.len() as int)
        }),
{
    let stripped = strip_comments_spec(text);
    let evs = spec_events(text);
    let pos = xml_position_at(text, true, terminal_index(text) + 1);
    let (st, err) = scan_from(evs, 0, scan_init());
    let stats = final_stats(st);
    let head = err_open(stripped) + err_close(stripped) + err_parse(err, pos);
    let without = errors_spec(stripped, err, pos, None, stats);
    let with = errors_spec(stripped, err, pos, Some(rules), stats);
    assert(without =~= head + err_required(stats));
    assert(with =~= head + rule_errors(stats, rules) + err_required(stats));
    let k = without.len() - err_required(stats).len();
    assert(without.subrange(0, k) =~= head);
    assert(without.subrange(k, without.len() as int) =~= err_required(stats));
}

/// Membership in a concatenation.
proof fn lemma_contains_add(a: Seq<Seq<char>>, b: Seq<Seq<char>>, x: Seq<char>)
    ensures
        (a + b).contains(x) <==> a.contains(x) || b.contains(x),
{
    if a.contains(x) {
        let i = choose|i: int| 0 <= i < a.len() && a[i] == x;
        assert((a + b)[i] == x);
    }
    if b.contains(x) {
        let i = choose|i: int| 0 <= i < b.len() && b[i] == x;
        assert((a + b)[a.len() + i] == x);
    }
    if (a + b).contains(x) {
        let i = choose|i: int| 0 <= i < (a + b).len() && (a + b)[i] == x;
        if i < a.len() {
            assert(a[i] == x);
        } else {
            assert(b[i - a.len()] == x);
        }
    }
}

/// Membership in a sequence of at most one element.
proof fn lemma_contains_one(y: Seq<char>, x: Seq<char>)
    ensures
        seq![y].contains(x) <==> x == y,
        !Seq::<Seq<char>>::empty().contains(x),
{
    if x == y {
        assert(seq![y][0] == x);
    }
}

/// A message that begins with `M` and is as long as none of the rule
/// section messages is not a rule error.
proof fn lemma_not_rule_error(stats: SpecStats, rules: ValidationRules, t: Seq<char>)
    requires
        t.len() > 0,
        t[0] == 'M',
        t.len() != 32 && t.len() != 34 && t.len() != 39 && t.len() != 42 && t.len() != 45,
    ensures
        !rule_errors(stats, rules).contains(t),
{
    reveal_strlit("Spec has ");
    reveal_strlit("Missing <security> section in spec");
    reveal_strlit("Missing <testing_strategy> section in spec");
    reveal_strlit("Missing <devops> section in spec");
    reveal_strlit("Missing <accessibility> section in spec");
    reveal_strlit("Missing <future_enhancements> section in spec");
    let r = rules.requirements;
    let e = rule_errors(stats, rules);
    assert forall|i: int| 0 <= i < e.len() implies e[i] != t by {
        let c = rule_count_errors(stats, r);
        if i < c.len() {
            let m = c[i];
            assert(m[0] == 'S');
        }
    }
}

/// The errors and warnings say exactly what the statistics show: a
/// specification is valid exactly when it has no error; the project name
/// (overview) error is there exactly when no project name (overview) was
/// found; the warning about features and technology exactly when neither
/// was found; the success-criteria warning exactly when none were found.
/// This holds for every text, with and without rules.
pub proof fn lemma_messages_match_stats(text: Seq<char>, rules: Option<ValidationRules>)
    ensures
        ({
            let v = validate_text_spec(text, rules);
            &&& v.0 <==> v.1.len() == 0
            &&& v.1.contains("Missing <project_name> element"@) <==> !v.3.has_project_name
            &&& v.1.contains("Missing <overview> element"@) <==> !v.3.has_overview
            &&& v.2.contains("Spec has no features or tech stack defined"@) <==> (!v.3.has_features
                && !v.3.has_tech_stack)
            &&& v.2.contains("Missing success criteria - how will you know when it's done?"@)
                <==> !v.3.has_success_criteria
        }),
{
    reveal_strlit("Missing <project_name> element");
    reveal_strlit("Missing <overview> element");
    reveal_strlit("Missing <project_specification> root element");
    reveal_strlit("Missing </project_specification> closing tag");
    reveal_strlit("XML parsing error at position ");
    reveal_strlit("Spec has no features or tech stack defined");
    reveal_strlit("Missing success criteria - how will you know when it's done?");
    let stripped = strip_comments_spec(text);
    let evs = spec_events(text);
    let pos = xml_position_at(text, true, terminal_index(text) + 1);
    let (st, err) = scan_from(evs, 0, scan_init());
    let stats = final_stats(st);
    let e_rules: Seq<Seq<char>> = match rules {
        Some(r) => rule_errors(stats, r),
        None => seq![],
    };
    let p1 = err_open(stripped);
    let p2 = err_close(stripped);
    let p3 = err_parse(err, pos);
    let e_name: Seq<Seq<char>> = if !stats.has_project_name { seq!["Missing <project_name> element"@] } else { seq![] };
    let e_over: Seq<Seq<char>> = if !stats.has_overview { seq!["Missing <overview> element"@] } else { seq![] };
    let errs = errors_spec(stripped, err, pos, rules, stats);
    let v = validate_text_spec(text, rules);
    assert(v == (errs.len() == 0, errs, warnings_spec(stats), stats));
    assert(err_required(stats) == e_name + e_over);
    assert(errs == p1 + p2 + p3 + e_rules + (e_name + e_over));
    let t1 = "Missing <project_name> element"@;
    let t2 = "Missing <overview> element"@;
    assert forall|t: Seq<char>| t == t1 || t == t2 implies (errs.contains(t) <==> (e_name + e_over).contains(t)) by {
        lemma_contains_add(p1 + p2 + p3 + e_rules, e_name + e_over, t);
        lemma_contains_add(p1 + p2 + p3, e_rules, t);
        lemma_contains_add(p1 + p2, p3, t);
        lemma_contains_add(p1, p2, t);
        assert(t.len() == 30 || t.len() == 26);
        assert(t[0] == 'M');
        assert(t != "Missing <project_specification> root element"@);
        assert(t != "Missing </project_specification> closing tag"@);
        lemma_contains_one("Missing <project_specification> root element"@, t);
        lemma_contains_one("Missing </project_specification> closing tag"@, t);
        match err {
            Some(m) => {
                let q = "XML parsing error at position "@ + decimal(pos as nat) + ": "@ + m;
                assert(q[0] == 'X');
                lemma_contains_one(q, t);
            },
            None => {
                lemma_contains_one(t, t);
            },
        }
        match rules {
            Some(r) => {
                lemma_not_rule_error(stats, r, t);
            },
            None => {
                lemma_contains_one(t, t);
            },
        }
    }
    assert(errs.contains(t1) <==> (e_name + e_over).contains(t1));
    assert(errs.contains(t2) <==> (e_name + e_over).contains(t2));
    assert(t1.len() == 30);
    assert(t2.len() == 26);
    assert(t1 != t2);
    lemma_contains_add(e_name, e_over, t1);
    lemma_contains_add(e_name, e_over, t2);
    lemma_contains_one(t1, t1);
    lemma_contains_one(t2, t1);
    lemma_contains_one(t1, t2);
    lemma_contains_one(t2, t2);
    assert(errs.contains(t1) <==> !stats.has_project_name);
    assert(errs.contains(t2) <==> !stats.has_overview);
    let w1s = "Spec has no features or tech stack defined"@;
    let w2s = "Missing success criteria - how will you know when it's done?"@;
    let w1: Seq<Seq<char>> = if !stats.has_features && !stats.has_tech_stack { seq![w1s] } else { seq![] };
    let w2: Seq<Seq<char>> = if !stats.has_success_criteria { seq![w2s] } else { seq![] };
    assert(warnings_spec(stats) == w1 + w2);
    lemma_contains_add(w1, w2, w1s);
    lemma_contains_add(w1, w2, w2s);
    lemma_contains_one(w1s, w1s);
    lemma_contains_one(w2s, w1s);
    lemma_contains_one(w1s, w2s);
    lemma_contains_one(w2s, w2s);
    assert(w1s.len() == 42);
    assert(w2s.len() == 60);
    assert(w1s != w2s);
    assert(warnings_spec(stats).contains(w1s) <==> (!stats.has_features && !stats.has_tech_stack));
    assert(warnings_spec(stats).contains(w2s) <==> !stats.has_success_criteria);
}

/// Each missing-section message comes from the section rule alone: it is
/// among the rule errors exactly when the rules ask for that section and
/// the specification lacks it.
proof fn lemma_rule_section_messages(stats: SpecStats, rules: ValidationRules)
    ensures
        rule_errors(stats, rules).contains("Missing <security> section in spec"@)
            <==> (rules.include_security_section && !stats.has_security),
        rule_errors(stats, rules).contains("Missing <testing_strategy> section in spec"@)
            <==> (rules.include_testing_strategy && !stats.has_testing_strategy),
        rule_errors(stats, rules).contains("Missing <devops> section in spec"@)
            <==> (rules.include_devops_section && !stats.has_devops),
        rule_errors(stats, rules).contains("Missing <accessibility> section in spec"@)
            <==> (rules.include_accessibility && !stats.has_accessibility),
        rule_errors(stats, rules).contains("Missing <future_enhancements> section in spec"@)
            <==> (rules.include_future_enhancements && !stats.has_future_enhancements),
{
    reveal_strlit("Spec has ");
    let m5 = "Missing <security> section in spec"@;
    let m6 = "Missing <testing_strategy> section in spec"@;
    let m7 = "Missing <devops> section in spec"@;
    let m8 = "Missing <accessibility> section in spec"@;
    let m9 = "Missing <future_enhancements> section in spec"@;
    reveal_strlit("Missing <security> section in spec");
    reveal_strlit("Missing <testing_strategy> section in spec");
    reveal_strlit("Missing <devops> section in spec");
    reveal_strlit("Missing <accessibility> section in spec");
    reveal_strlit("Missing <future_enhancements> section in spec");
    let e5: Seq<Seq<char>> = if rules.include_security_section && !stats.has_security { seq![m5] } else { seq![] };
    let e6: Seq<Seq<char>> = if rules.include_testing_strategy && !stats.has_testing_strategy { seq![m6] } else { seq![] };
    let e7: Seq<Seq<char>> = if rules.include_devops_section && !stats.has_devops { seq![m7] } else { seq![] };
    let e8: Seq<Seq<char>> = if rules.include_accessibility && !stats.has_accessibility { seq![m8] } else { seq![] };
    let e9: Seq<Seq<char>> = if rules.include_future_enhancements && !stats.has_future_enhancements { seq![m9] } else { seq![] };
    let counts = rule_count_errors(stats, rules.requirements);
    assert(rule_section_errors(stats, rules) == e5 + e6 + e7 + e8 + e9);
    assert(rule_errors(stats, rules) == counts + (e5 + e6 + e7 + e8 + e9));
    assert(m5.len() == 34 && m6.len() == 42 && m7.len() == 32 && m8.len() == 39 && m9.len() == 45);
    assert forall|t: Seq<char>| t == m5 || t == m6 || t == m7 || t == m8 || t == m9 implies (rule_errors(stats, rules).contains(t)
        <==> (e5.contains(t) || e6.contains(t) || e7.contains(t) || e8.contains(t) || e9.contains(t))) by {
        assert(t[0] == 'M');
        assert forall|i: int| 0 <= i < counts.len() implies counts[i] != t by {
            assert(counts[i][0] == 'S');
        }
        lemma_contains_add(counts, e5 + e6 + e7 + e8 + e9, t);
        lemma_contains_add(e5 + e6 + e7 + e8, e9, t);
        lemma_contains_add(e5 + e6 + e7, e8, t);
        lemma_contains_add(e5 + e6, e7, t);
        lemma_contains_add(e5, e6, t);
    }
    assert(rule_errors(stats, rules).contains(m5) <==> (e5.contains(m5) || e6.contains(m5) || e7.contains(m5) || e8.contains(m5) || e9.contains(m5)));
    lemma_contains_one(m5, m5);
    lemma_contains_one(m6, m5);
    lemma_contains_one(m7, m5);
    lemma_contains_one(m8, m5);
    lemma_contains_one(m9, m5);
    assert(rule_errors(stats, rules).contains(m6) <==> (e5.contains(m6) || e6.contains(m6) || e7.contains(m6) || e8.contains(m6) || e9.contains(m6)));
    lemma_contains_one(m5, m6);
    lemma_contains_one(m6, m6);
    lemma_contains_one(m7, m6);
    lemma_contains_one(m8, m6);
    lemma_contains_one(m9, m6);
    assert(rule_errors(stats, rules).contains(m7) <==> (e5.contains(m7) || e6.contains(m7) || e7.contains(m7) || e8.contains(m7) || e9.contains(m7)));
    lemma_contains_one(m5, m7);
    lemma_contains_one(m6, m7);
    lemma_contains_one(m7, m7);
    lemma_contains_one(m8, m7);
    lemma_contains_one(m9, m7);
    assert(rule_errors(stats, rules).contains(m8) <==> (e5.contains(m8) || e6.contains(m8) || e7.contains(m8) || e8.contains(m8) || e9.contains(m8)));
    lemma_contains_one(m5, m8);
    lemma_contains_one(m6, m8);
    lemma_contains_one(m7, m8);
    lemma_contains_one(m8, m8);
    lemma_contains_one(m9, m8);
    assert(rule_errors(stats, rules).contains(m9) <==> (e5.contains(m9) || e6.contains(m9) || e7.contains(m9) || e8.contains(m9) || e9.contains(m9)));
    lemma_contains_one(m5, m9);
    lemma_contains_one(m6, m9);
    lemma_contains_one(m7, m9);
    lemma_contains_one(m8, m9);
    lemma_contains_one(m9, m9);
}

/// A validation reports a missing optional section exactly when it was
/// given rules that ask for that section and the specification lacks it:
/// without such a rule no error mentions the section. This holds for every
/// text.
pub proof fn lemma_section_errors_follow_rules(text: Seq<char>, rules: Option<ValidationRules>)
    ensures
        ({
            let v = validate_text_spec(text, rules);
            &&& v.1.contains("Missing <security> section in spec"@)
                <==> (rules matches Some(r) && r.include_security_section && !v.3.has_security)
            &&& v.1.contains("Missing <testing_strategy> section in spec"@)
                <==> (rules matches Some(r) && r.include_testing_strategy && !v.3.has_testing_strategy)
            &&& v.1.contains("Missing <devops> section in spec"@)
                <==> (rules matches Some(r) && r.include_devops_section && !v.3.has_devops)
            &&& v.1.contains("Missing <accessibility> section in spec"@)
                <==> (rules matches Some(r) && r.include_accessibility && !v.3.has_accessibility)
            &&& v.1.contains("Missing <future_enhancements> section in spec"@)
                <==> (rules matches Some(r) && r.include_future_enhancements && !v.3.has_future_enhancements)
        }),
{
    reveal_strlit("Missing <project_name> element");
    reveal_strlit("Missing <overview> element");
    reveal_strlit("Missing <project_specification> root element");
    reveal_strlit("Missing </project_specification> closing tag");
    reveal_strlit("XML parsing error at position ");
    let m5 = "Missing <security> section in spec"@;
    let m6 = "Missing <testing_strategy> section in spec"@;
    let m7 = "Missing <devops> section in spec"@;
    let m8 = "Missing <accessibility> section in spec"@;
    let m9 = "Missing <future_enhancements> section in spec"@;
    reveal_strlit("Missing <security> section in spec");
    reveal_strlit("Missing <testing_strategy> section in spec");
    reveal_strlit("Missing <devops> section in spec");
    reveal_strlit("Missing <accessibility> section in spec");
    reveal_strlit("Missing <future_enhancements> section in spec");
    let stripped = strip_comments_spec(text);
    let evs = spec_events(text);
    let pos = xml_position_at(text, true, terminal_index(text) + 1);
    let (st, err) = scan_from(evs, 0, scan_init());
    let stats = final_stats(st);
    let e_rules: Seq<Seq<char>> = match rules {
        Some(r) => rule_errors(stats, r),
        None => seq![],
    };
    let p1 = err_open(stripped);
    let p2 = err_close(stripped);
    let p3 = err_parse(err, pos);
    let req = err_required(stats);
    let errs = errors_spec(stripped, err, pos, rules, stats);
    let v = validate_text_spec(text, rules);
    assert(v == (errs.len() == 0, errs, warnings_spec(stats), stats));
    assert(errs == p1 + p2 + p3 + e_rules + req);
    match rules {
        Some(r) => {
            lemma_rule_section_messages(stats, r);
        },
        None => {},
    }
    assert forall|t: Seq<char>| t == m5 || t == m6 || t == m7 || t == m8 || t == m9 implies (errs.contains(t)
        <==> e_rules.contains(t)) by {
        assert(t.len() == 34 || t.len() == 42 || t.len() == 32 || t.len() == 39 || t.len() == 45);
        assert(t[0] == 'M');
        lemma_contains_add(p1 + p2 + p3 + e_rules, req, t);
        lemma_contains_add(p1 + p2 + p3, e_rules, t);
        lemma_contains_add(p1 + p2, p3, t);
        lemma_contains_add(p1, p2, t);
        lemma_contains_one("Missing <project_specification> root element"@, t);
        lemma_contains_one("Missing </project_specification> closing tag"@, t);
        lemma_contains_one("Missing <project_name> element"@, t);
        lemma_contains_one("Missing <overview> element"@, t);
        let e_name: Seq<Seq<char>> = if !stats.has_project_name { seq!["Missing <project_name> element"@] } else { seq![] };
        let e_over: Seq<Seq<char>> = if !stats.has_overview { seq!["Missing <overview> element"@] } else { seq![] };
        assert(req == e_name + e_over);
        lemma_contains_add(e_name, e_over, t);
        match err {
            Some(m) => {
                let q = "XML parsing error at position "@ + decimal(pos as nat) + ": "@ + m;
                assert(q[0] == 'X');
                lemma_contains_one(q, t);
            },
            None => {},
        }
    }
}

/// No character is dropped from text from index `i` that holds no comment
/// opener there or after.
pub proof fn lemma_strip_from_identity(s: Seq<char>, i: int)
    requires
        0 <= i <= s.len(),
        forall|j: int| i <= j < s.len() ==> !matches_at(s, "<!--"@, j),
    ensures
        strip_from(s, i) == s.subrange(i, s.len() as int),
    decreases s.len() - i,
{
    reveal_strlit("<!--");
    if i < s.len() {
        if opens_comment(s, i) {
            assert(s.subrange(i, i + 4) =~= "<!--"@);
            assert(matches_at(s, "<!--"@, i));
        } else {
            lemma_strip_from_identity(s, i + 1);
            assert(seq![s[i]] + s.subrange(i + 1, s.len() as int) =~= s.subrange(i, s.len() as int));
        }
    } else {
        assert(s.subrange(i, s.len() as int) =~= Seq::<char>::empty());
    }
}

/// A text without a comment opener `<!--` is left unchanged by comment
/// stripping.
pub proof fn lemma_strip_without_comments(s: Seq<char>)
    requires
        !contains_spec(s, "<!--"@),
    ensures
        strip_comments_spec(s) == s,
{
    reveal_strlit("<!--");
    assert forall|j: int| 0 <= j < s.len() implies !matches_at(s, "<!--"@, j) by {
        if matches_at(s, "<!--"@, j) {
            lemma_find_from(s, "<!--"@, 0);
        }
    }
    lemma_strip_from_identity(s, 0);
    assert(s.subrange(0, s.len() as int) =~= s);
}

// ---------------------------------------------------------------------------
// Report
// ---------------------------------------------------------------------------

/// The mark for a present (`true`) or missing section.
pub open spec fn icon_spec(b: bool) -> Seq<char> {
    if b { "✓"@ } else { "✗"@ }
}

/// "{label}{icon}".
pub open spec fn flag_line(label: Seq<char>, b: bool) -> Seq<char> {
    label + icon_spec(b)
}

/// "{label}{icon} ({n})".
pub open spec fn count_line(label: Seq<char>, b: bool, n: usize) -> Seq<char> {
    label + icon_spec(b) + " ("@ + decimal(n as nat) + ")"@
}

/// The first lines of the statistics block: presence and counts.
pub open spec fn stats_head_lines(s: SpecStats) -> Seq<Seq<char>> {
    seq![
        "\nSpec Statistics:"@,
        flag_line("   Project Name: "@, s.has_project_name),
        flag_line("   Overview: "@, s.has_overview),
        flag_line("   Tech Stack: "@, s.has_tech_stack),
        count_line("   Features: "@, s.has_features, s.feature_count),
        count_line("   Database: "@, s.has_database, s.database_table_count),
        count_line("   API Endpoints: "@, s.has_api_endpoints, s.endpoint_count),
    ]
}

/// The last lines of the statistics block: steps and optional sections.
pub open spec fn stats_tail_lines(s: SpecStats) -> Seq<Seq<char>> {
    seq![
        count_line("   Implementation Steps: "@, s.implementation_step_count > 0, s.implementation_step_count),
        flag_line("   Security: "@, s.has_security),
        flag_line("   Testing Strategy: "@, s.has_testing_strategy),
        flag_line("   DevOps: "@, s.has_devops),
        flag_line("   Accessibility: "@, s.has_accessibility),
        flag_line("   Future Enhancements: "@, s.has_future_enhancements),
        flag_line("   Success Criteria: "@, s.has_success_criteria),
    ]
}

/// The lines of the statistics block.
pub open spec fn stats_lines(s: SpecStats) -> Seq<Seq<char>> {
    stats_head_lines(s) + stats_tail_lines(s)
}

/// Every message with a prefix.
pub open spec fn prefixed(prefix: Seq<char>, msgs: Seq<Seq<char>>) -> Seq<Seq<char>> {
    msgs.map_values(|m: Seq<char>| prefix + m)
}

/// The lines a validation result prints: its status, its errors and
/// warnings (each block only when non-empty), and its statistics.
pub open spec fn report_lines_spec(v: (bool, Seq<Seq<char>>, Seq<Seq<char>>, SpecStats)) -> Seq<Seq<char>> {
    let status: Seq<Seq<char>> = if v.0 { seq!["✅ Spec validation passed"@] } else { seq!["❌ Spec validation failed"@] };
    let errs: Seq<Seq<char>> = if v.1.len() > 0 { seq!["\nErrors:"@] + prefixed("   ❌ "@, v.1) } else { seq![] };
    let warns: Seq<Seq<char>> = if v.2.len() > 0 { seq!["\nWarnings:"@] + prefixed("   ⚠️  "@, v.2) } else { seq![] };
    status + errs + warns + stats_lines(v.3)
}

/// Appends "{label}{icon}" to the lines.
fn push_flag_line(lines: &mut Vec<String>, label: &str, b: bool)
    ensures
        crate::text::views(final(lines)@) == crate::text::views(old(lines)@).push(flag_line(label@, b)),
{
    let mut l = owned(label);
    push_str(&mut l, bool_icon(b));
    push_string(lines, l);
}

/// Appends "{label}{icon} ({n})" to the lines.
fn push_count_line(lines: &mut Vec<String>, label: &str, b: bool, n: usize)
    ensures
        crate::text::views(final(lines)@) == crate::text::views(old(lines)@).push(count_line(label@, b, n)),
{
    let mut l = owned(label);
    push_str(&mut l, bool_icon(b));
    push_str(&mut l, " (");
    let d = decimal_string(n as u64);
    push_str(&mut l, d.as_str());
    push_str(&mut l, ")");
    push_string(lines, l);
}

/// Appends every message with a prefix.
fn push_prefixed(lines: &mut Vec<String>, prefix: &str, msgs: &Vec<String>)
    ensures
        crate::text::views(final(lines)@) == crate::text::views(old(lines)@) + prefixed(
            prefix@,
            crate::text::views(msgs@),
        ),
{
    let ghost start = crate::text::views(lines@);
    let mut i: usize = 0;
    while i < msgs.len()
        invariant
            i <= msgs@.len(),
            crate::text::views(lines@) == start + prefixed(
                prefix@,
                crate::text::views(msgs@).subrange(0, i as int),
            ),
        decreases msgs.len() - i,
    {
        let mut l = owned(prefix);
        push_str(&mut l, msgs[i].as_str());
        push_string(lines, l);
        i = i + 1;
        assert(prefixed(prefix@, crate::text::views(msgs@).subrange(0, i as int)) =~= prefixed(
            prefix@,
            crate::text::views(msgs@).subrange(0, i - 1),
        ).push(prefix@ + msgs@[i - 1]@));
    }
    assert(crate::text::views(msgs@).subrange(0, msgs@.len() as int) =~= crate::text::views(msgs@));
}

/// Appends the first lines of the statistics block.
fn push_stats_head(lines: &mut Vec<String>, s: SpecStats)
    ensures
        crate::text::views(final(lines)@) == crate::text::views(old(lines)@) + stats_head_lines(s),
{
    let ghost start = crate::text::views(lines@);
    push_message(lines, "\nSpec Statistics:");
    push_flag_line(lines, "   Project Name: ", s.has_project_name);
    push_flag_line(lines, "   Overview: ", s.has_overview);
    push_flag_line(lines, "   Tech Stack: ", s.has_tech_stack);
    let ghost mid = crate::text::views(lines@);
    assert(mid =~= start + stats_head_lines(s).subrange(0, 4));
    push_count_line(lines, "   Features: ", s.has_features, s.feature_count);
    push_count_line(lines, "   Database: ", s.has_database, s.database_table_count);
    push_count_line(lines, "   API Endpoints: ", s.has_api_endpoints, s.endpoint_count);
    assert(crate::text::views(lines@) =~= start + stats_head_lines(s));
}

/// Appends the last lines of the statistics block.
fn push_stats_tail(lines: &mut Vec<String>, s: SpecStats)
    ensures
        crate::text::views(final(lines)@) == crate::text::views(old(lines)@) + stats_tail_lines(s),
{
    let ghost start = crate::text::views(lines@);
    push_count_line(
        lines,
        "   Implementation Steps: ",
        s.implementation_step_count > 0,
        s.implementation_step_count,
    );
    push_flag_line(lines, "   Security: ", s.has_security);
    push_flag_line(lines, "   Testing Strategy: ", s.has_testing_strategy);
    let ghost mid = crate::text::views(lines@);
    assert(mid =~= start + stats_tail_lines(s).subrange(0, 3));
    push_flag_line(lines, "   DevOps: ", s.has_devops);
    push_flag_line(lines, "   Accessibility: ", s.has_accessibility);
    push_flag_line(lines, "   Future Enhancements: ", s.has_future_enhancements);
    push_flag_line(lines, "   Success Criteria: ", s.has_success_criteria);
    assert(crate::text::views(lines@) =~= start + stats_tail_lines(s));
}

/// Appends the statistics block.
fn push_stats_lines(lines: &mut Vec<String>, s: SpecStats)
    ensures
        crate::text::views(final(lines)@) == crate::text::views(old(lines)@) + stats_lines(s),
{
    let ghost start = crate::text::views(lines@);
    push_stats_head(lines, s);
    push_stats_tail(lines, s);
    assert(crate::text::views(lines@) =~= start + stats_lines(s));
}

impl ValidationResult {
    /// The lines that describe this result to a user, in order: status,
    /// errors, warnings and statistics.
    pub fn report_lines(&self) -> (lines: Vec<String>)
        ensures
            crate::text::views(lines@) == report_lines_spec(self@),
    {
        let mut lines: Vec<String> = Vec::new();
        if self.is_valid {
            push_message(&mut lines, "✅ Spec validation passed");
        } else {
            push_message(&mut lines, "❌ Spec validation failed");
        }
        let ghost a0 = crate::text::views(lines@);
        if self.errors.len() > 0 {
            push_message(&mut lines, "\nErrors:");
            push_prefixed(&mut lines, "   ❌ ", &self.errors);
        }
        let ghost a1 = crate::text::views(lines@);
        assert(a1 =~= a0 + (if self.errors@.len() > 0 {
            seq!["\nErrors:"@] + prefixed("   ❌ "@, crate::text::views(self.errors@))
        } else {
            Seq::<Seq<char>>::empty()
        }));
        if self.warnings.len() > 0 {
            push_message(&mut lines, "\nWarnings:");
            push_prefixed(&mut lines, "   ⚠️  ", &self.warnings);
        }
        let ghost a2 = crate::text::views(lines@);
        assert(a2 =~= a1 + (if self.warnings@.len() > 0 {
            seq!["\nWarnings:"@] + prefixed("   ⚠️  "@, crate::text::views(self.warnings@))
        } else {
            Seq::<Seq<char>>::empty()
        }));
        push_stats_lines(&mut lines, self.stats);
        lines
    }
}

// ---------------------------------------------------------------------------
// Diff
// ---------------------------------------------------------------------------

/// Change kinds of a line diff.
pub open spec fn change_equal() -> u8 { 0 }
pub open spec fn change_delete() -> u8 { 1 }
pub open spec fn change_insert() -> u8 { 2 }

/// The changes of a line-by-line diff of `old` against `new`, each as its
/// kind and the line as displayed (ending with a newline).
pub uninterp spec fn line_changes(old: Seq<char>, new: Seq<char>) -> Seq<(u8, Seq<char>)>;

/// `similar::TextDiff::from_lines(old, new).iter_all_changes()`, each change
/// converted to its kind and its display. Claims: the result is a function
/// of the two texts; kinds are the three codes; identical texts give only
/// equal changes (the diff takes a common prefix as equal).
#[verifier::external_body]
fn diff_line_changes(old: &str, new: &str) -> (r: Vec<(u8, String)>)
    ensures
        r@.map_values(|c: (u8, String)| (c.0, c.1@)) == line_changes(old@, new@),
        forall|i: int| 0 <= i < r@.len() ==> #[trigger] r@[i].0 <= 2,
        old@ == new@ ==> forall|i: int| 0 <= i < r@.len() ==> #[trigger] r@[i].0 == 0,
{
    let diff = similar::TextDiff::from_lines(old, new);
    diff.iter_all_changes().map(|c| {
        let kind: u8 = match c.tag() {
            similar::ChangeTag::Equal => 0,
            similar::ChangeTag::Delete => 1,
            similar::ChangeTag::Insert => 2,
        };
        (kind, format!("{}", c))
    }).collect()
}

/// The changed lines of a diff, each marked `-` (deleted) or `+` (inserted).
pub open spec fn changed_text(changes: Seq<(u8, Seq<char>)>) -> Seq<char>
    decreases changes.len(),
{
    if changes.len() == 0 {
        Seq::empty()
    } else {
        let c = changes.last();
        changed_text(changes.drop_last()) + if c.0 == change_delete() {
            seq!['-'] + c.1
        } else if c.0 == change_insert() {
            seq!['+'] + c.1
        } else {
            Seq::empty()
        }
    }
}

/// Whether a diff changes anything.
pub open spec fn has_changes(changes: Seq<(u8, Seq<char>)>) -> bool {
    exists|i: int| 0 <= i < changes.len() && changes[i].0 != change_equal() && (changes[i].0
        == change_delete() || changes[i].0 == change_insert())
}

/// The text that shows a diff: a heading, the changed lines, and a note when
/// nothing changed.
pub open spec fn diff_report_spec(changes: Seq<(u8, Seq<char>)>) -> Seq<char> {
    "\n─── Changes ───\n"@ + changed_text(changes) + if has_changes(changes) {
        Seq::empty()
    } else {
        "   (no changes)\n"@
    }
}

/// The text that shows a diff, from its changes.
pub fn diff_report(changes: &Vec<(u8, String)>) -> (r: String)
    ensures
        r@ == diff_report_spec(changes@.map_values(|c: (u8, String)| (c.0, c.1@))),
{
    let ghost cv = changes@.map_values(|c: (u8, String)| (c.0, c.1@));
    let mut r = owned("\n─── Changes ───\n");
    let ghost head = r@;
    let mut changed = false;
    let mut i: usize = 0;
    while i < changes.len()
        invariant
            i <= changes@.len(),
            cv == changes@.map_values(|c: (u8, String)| (c.0, c.1@)),
            r@ == head + changed_text(cv.subrange(0, i as int)),
            changed == has_changes(cv.subrange(0, i as int)),
        decreases changes.len() - i,
    {
        let kind = changes[i].0;
        let ghost prev = cv.subrange(0, i as int);
        if kind == 1 {
            push_char(&mut r, '-');
            push_str(&mut r, changes[i].1.as_str());
            changed = true;
        } else if kind == 2 {
            push_char(&mut r, '+');
            push_str(&mut r, changes[i].1.as_str());
            changed = true;
        }
        i = i + 1;
        proof {
            let cur = cv.subrange(0, i as int);
            assert(cur.drop_last() =~= prev);
            assert(cur.last() == cv[i - 1]);
            if has_changes(cur) {
                let j = choose|j: int| 0 <= j < cur.len() && cur[j].0 != change_equal() && (cur[j].0
                    == change_delete() || cur[j].0 == change_insert());
                if j < i - 1 {
                    assert(prev[j] == cur[j]);
                }
            }
            if has_changes(prev) {
                let j = choose|j: int| 0 <= j < prev.len() && prev[j].0 != change_equal() && (prev[j].0
                    == change_delete() || prev[j].0 == change_insert());
                assert(cur[j] == prev[j]);
            }
            if kind == 1 || kind == 2 {
                assert(cur[i - 1].0 == kind);
            }
            assert(r@ =~= head + changed_text(cur));
        }
    }
    assert(cv.subrange(0, changes@.len() as int) =~= cv);
    if !changed {
        push_str(&mut r, "   (no changes)\n");
    }
    r
}

/// The text that shows the line changes from one specification to another
/// (what is printed as the diff).
pub fn print_diff(old_spec: &str, new_spec: &str) -> (r: String)
    ensures
        r@ == diff_report_spec(line_changes(old_spec@, new_spec@)),
{
    let changes = diff_line_changes(old_spec, new_spec);
    diff_report(&changes)
}

/// Identical texts show no changes: a diff made of equal changes only is
/// shown as the heading and the note that nothing changed.
pub proof fn lemma_identical_texts_have_no_changes(changes: Seq<(u8, Seq<char>)>)
    requires
        forall|i: int| 0 <= i < changes.len() ==> #[trigger] changes[i].0 == change_equal(),
    ensures
        diff_report_spec(changes) == "\n─── Changes ───\n"@ + "   (no changes)\n"@,
{
    lemma_equal_changes(changes);
    assert(diff_report_spec(changes) =~= "\n─── Changes ───\n"@ + "   (no changes)\n"@);
}

/// Equal changes contribute no changed lines.
proof fn lemma_equal_changes(changes: Seq<(u8, Seq<char>)>)
    requires
        forall|i: int| 0 <= i < changes.len() ==> #[trigger] changes[i].0 == change_equal(),
    ensures
        changed_text(changes) == Seq::<char>::empty(),
        !has_changes(changes),
    decreases changes.len(),
{
    if changes.len() > 0 {
        assert forall|i: int| 0 <= i < changes.drop_last().len() implies #[trigger] changes.drop_last()[i].0
            == change_equal() by {
            assert(changes.drop_last()[i] == changes[i]);
        }
        lemma_equal_changes(changes.drop_last());
        assert(changes[changes.len() - 1].0 == change_equal());
        assert(changed_text(changes) =~= Seq::<char>::empty());
    }
}

} // verus!
