//! Prompt building for spec generation, refinement and repair.
//!
//! Each prompt is a template whose `{{PLACEHOLDER}}` markers are replaced,
//! left to right, by the user's input and by blocks that the generation
//! settings select. Templates may be wrapped in `<template><content>`; a
//! template that does not render is used as written.

use vstd::prelude::*;
use vstd::utf8::{decode_utf8, encode_utf8, is_char_boundary};
use crate::config::{Config, GenerationConfig, GenerationRequirements, is_minimal, requirements_for};
use crate::template_xml::{lemma_plain_text_renders, render_spec, render_template};
use crate::text::{
    concat2, concat3, decimal, decimal_string, is_blank, join_spec, join_strings, owned, push_lit,
    push_owned, push_str, replace_spec, str_blank, str_replace, str_trim_end, trim_end_spec, views, replace_two, replace_two_spec,
    contains_spec, lemma_replace_inserts, lemma_replace_keeps_by_ends, lemma_replace_keeps_placeholder, matches_at,
};

verus! {

/// Prompt for single-pass spec generation.
pub const GENERATOR_PROMPT: &'static str = "You are a senior software architect. Turn the project idea below into a complete, buildable project specification.

## Project Idea

{{IDEA}}
{{TESTING_PREFERENCE}}
## Scope

{{COMPLEXITY_GUIDANCE}}

## Output Format

Answer with one XML document, and nothing else, in this shape:

<project_specification>
<project_name>Short name of the project</project_name>
<overview>What the project does and who uses it</overview>
<technology_stack>Frontend, backend, database and tooling choices</technology_stack>
<core_features>
<feature>Name, description, sub-features, error handling and edge cases</feature>
</core_features>
<database_schema>
<tables>Each table with its columns, types and relationships</tables>
</database_schema>
<api_endpoints_summary>
- METHOD /path - description
</api_endpoints_summary>
<implementation_steps>
<step>A phase with its tasks and how it is verified</step>
</implementation_steps>
<success_criteria>How to know the project is done</success_criteria>
{{SECURITY_SECTION}}
{{TESTING_STRATEGY_SECTION}}
{{DEVOPS_SECTION}}
{{ACCESSIBILITY_SECTION}}
{{FUTURE_ENHANCEMENTS_SECTION}}
</project_specification>
";

/// Prompt for generation with parallel subagents.
pub const SUBAGENT_PROMPT: &'static str = "You coordinate three specialist subagents that together write a project specification.

## Project Idea

{{IDEA}}
{{TESTING_PREFERENCE}}
## Step 1: Blueprint

Write a short blueprint: the project's name, purpose, users and main flows.

## Step 2: Delegate

Give each subagent the idea and this blueprint: {{BLUEPRINT}}

- spec-product: core features.
  {{FEATURE_COUNT_GUIDANCE}}
- spec-architecture: technology stack, database schema and API endpoints.
  {{ARCHITECTURE_COUNT_GUIDANCE}}
- spec-quality: {{QUALITY_TASK}}
  {{QUALITY_COUNT_GUIDANCE}}

## Step 3: Assemble

Merge the answers into one XML document:

<project_specification>
  <project_name>...</project_name>
  <overview>...</overview>
  <technology_stack>...</technology_stack>
  <core_features>...</core_features>
  <database_schema>...</database_schema>
  <api_endpoints>...</api_endpoints>
  <implementation_steps>...</implementation_steps>
  <success_criteria>...</success_criteria>
{{SECURITY_SECTION}}
{{TESTING_STRATEGY_SECTION}}
{{DEVOPS_SECTION}}
{{ACCESSIBILITY_SECTION}}
{{FUTURE_ENHANCEMENTS_SECTION}}
</project_specification>
";

/// Prompt for refining an existing specification.
pub const REFINE_PROMPT: &'static str = "You are refining an existing project specification.

## Current Specification

{{EXISTING_SPEC}}

## Requested Changes

{{REFINEMENT}}

Apply the requested changes and keep everything else as it is. Answer with the complete, updated <project_specification> document and nothing else.
";

/// Prompt for repairing malformed XML output.
pub const FIX_MALFORMED_PROMPT: &'static str = "The specification generated for the idea below is not well-formed XML.

## Project Idea

{{IDEA}}

## Errors

{{ERRORS}}
{{PARTIAL_OUTPUT}}
Generate the complete specification again as one well-formed <project_specification> document. Escape '&' as &amp; and '<' in text as &lt;.
";

// ---------------------------------------------------------------------------
// Specifications
// ---------------------------------------------------------------------------

/// The text a template stands for: its rendering, or the template itself
/// when it does not render.
pub open spec fn template_text(t: Seq<char>) -> Seq<char> {
    match render_spec(t) {
        Ok(r) => r,
        Err(_) => t,
    }
}

/// The summary of the minimum requirements.
pub open spec fn requirements_section_spec(r: GenerationRequirements) -> Seq<char> {
    "## Minimum Scope Requirements\n\n- Minimum features: "@ + decimal(r.min_features as nat)
        + "\n- Minimum database tables: "@ + decimal(r.min_database_tables as nat)
        + "\n- Minimum API endpoints: "@ + decimal(r.min_api_endpoints as nat)
        + "\n- Minimum implementation steps: "@ + decimal(r.min_implementation_steps as nat)
}

/// A section's block: its content without trailing whitespace and a blank
/// line when enabled, nothing otherwise.
pub open spec fn section_block_spec(enabled: bool, content: Seq<char>) -> Seq<char> {
    if enabled {
        trim_end_spec(content) + "\n\n"@
    } else {
        Seq::empty()
    }
}

/// The lines of the example testing-strategy block, before indentation.
pub open spec fn testing_lines() -> Seq<Seq<char>> {
    seq![
        "<testing_strategy>"@,
        "  <unit_tests>Coverage targets and priority areas</unit_tests>"@,
        "  <integration_tests>Integration test approach</integration_tests>"@,
        "  <e2e_tests>"@,
        "   - Critical flows to cover"@,
        "   - **MANDATORY**: Every core feature MUST have a scriptable E2E test"@,
        "   - verification_command MUST invoke E2E tests"@,
        "  </e2e_tests>"@,
        "  <entry_point_verification>"@,
        "   - The main entry point MUST be wired to call all handlers."@,
        "   - verification_command MUST check that the application RUNS."@,
        "  </entry_point_verification>"@,
        "</testing_strategy>"@,
    ]
}

/// Every line with a prefix.
pub open spec fn indent_all(indent: Seq<char>, lines: Seq<Seq<char>>) -> Seq<Seq<char>> {
    lines.map_values(|l: Seq<char>| indent + l)
}

/// The example testing-strategy block, each line indented.
pub open spec fn testing_block_spec(indent: Seq<char>) -> Seq<char> {
    join_spec(indent_all(indent, testing_lines()), "\n"@)
}

/// "{indent}<{tag}>{content}</{tag}>".
pub open spec fn single_line_spec(indent: Seq<char>, tag: Seq<char>, content: Seq<char>) -> Seq<char> {
    indent + "<"@ + tag + ">"@ + content + "</"@ + tag + ">"@
}

/// The optional output sections filled into a prompt.
pub open spec fn apply_sections_spec(prompt: Seq<char>, g: GenerationConfig, indent: Seq<char>) -> Seq<char> {
    let security = section_block_spec(
        g.include_security_section,
        single_line_spec(indent, "security"@, "Security requirements and measures"@),
    );
    let testing = section_block_spec(g.include_testing_strategy, testing_block_spec(indent));
    let devops = section_block_spec(
        g.include_devops_section,
        single_line_spec(indent, "devops"@, "Deployment and operations plan"@),
    );
    let accessibility = section_block_spec(
        g.include_accessibility,
        single_line_spec(indent, "accessibility"@, "Accessibility requirements and testing"@),
    );
    let future = section_block_spec(
        g.include_future_enhancements,
        single_line_spec(indent, "future_enhancements"@, "Potential post-launch features"@),
    );
    let a = replace_spec(prompt, "{{SECURITY_SECTION}}"@, trim_end_spec(security));
    let b = replace_spec(a, "{{TESTING_STRATEGY_SECTION}}"@, trim_end_spec(testing));
    let c = replace_spec(b, "{{DEVOPS_SECTION}}"@, trim_end_spec(devops));
    let d = replace_spec(c, "{{ACCESSIBILITY_SECTION}}"@, trim_end_spec(accessibility));
    replace_spec(d, "{{FUTURE_ENHANCEMENTS_SECTION}}"@, trim_end_spec(future))
}

/// `[item]` when `b`, nothing otherwise.
pub open spec fn when(b: bool, item: Seq<char>) -> Seq<Seq<char>> {
    if b { seq![item] } else { seq![] }
}

/// The sections the quality subagent is asked for.
pub open spec fn quality_sections(g: GenerationConfig) -> Seq<Seq<char>> {
    seq!["implementation steps"@, "success criteria"@] + when(g.include_security_section, "security"@)
        + when(g.include_testing_strategy, "testing strategy"@) + when(
        g.include_devops_section,
        "devops"@,
    ) + when(g.include_accessibility, "accessibility"@) + when(
        g.include_future_enhancements,
        "future enhancements"@,
    )
}

/// "Generate {sections} for: {idea}".
pub open spec fn quality_task_spec(idea: Seq<char>, g: GenerationConfig) -> Seq<char> {
    "Generate "@ + join_spec(quality_sections(g), ", "@) + " for: "@ + idea
}

/// Guidance on the number of features.
pub open spec fn feature_guidance_spec(r: GenerationRequirements) -> Seq<char> {
    "IMPORTANT: Generate at least "@ + decimal(r.min_features as nat)
        + " features depending on project complexity. Each feature must include:\n- Name\n- Detailed description (2-4 sentences)\n- Sub-features (list of specific capabilities)\n- Error handling approach\n- Edge cases to consider"@
}

/// Guidance on the numbers of tables and endpoints.
pub open spec fn architecture_guidance_spec(r: GenerationRequirements) -> Seq<char> {
    "IMPORTANT:\n- Database: Define at least "@ + decimal(r.min_database_tables as nat)
        + " tables with full column specifications, types, constraints, and relationships\n- API Endpoints: Define at least "@
        + decimal(r.min_api_endpoints as nat)
        + " endpoints in structured <endpoint> elements with method, path, and description"@
}

/// Guidance on the number of implementation phases.
pub open spec fn quality_guidance_spec(r: GenerationRequirements) -> Seq<char> {
    "IMPORTANT: Implementation steps should have at least "@ + decimal(
        r.min_implementation_steps as nat,
    ) + " phases with specific tasks and verification criteria."@
}

/// A testing preference that is present and not blank.
pub open spec fn given_pref(p: Option<Seq<char>>) -> bool {
    p matches Some(x) && !is_blank(x)
}

/// The preference paragraph of the generation prompt.
pub open spec fn generation_pref_spec(p: Option<Seq<char>>) -> Seq<char> {
    if given_pref(p) {
        "\n## User Preferences\n\nTesting & QA Framework Preference: "@ + p->0 + "\n"@
    } else {
        Seq::empty()
    }
}

/// The preference line of the subagent prompt.
pub open spec fn subagent_pref_spec(p: Option<Seq<char>>) -> Seq<char> {
    if given_pref(p) {
        "\n**User Preference:** QA/Testing framework should be: "@ + p->0 + "\n"@
    } else {
        Seq::empty()
    }
}

/// Scope guidance for a minimal project.
pub open spec fn minimal_guidance() -> Seq<char> {
    "The target is a minimal, lightweight implementation. Focus only on the absolute core."@
}

/// Scope guidance for a comprehensive project.
pub open spec fn comprehensive_guidance() -> Seq<char> {
    "The target is a comprehensive, production-ready specification with deep detail."@
}

/// The scope guidance for a complexity: minimal or comprehensive.
pub open spec fn scope_guidance(minimal: bool) -> Seq<char> {
    if minimal { minimal_guidance() } else { comprehensive_guidance() }
}

/// An optional string slice as an optional character sequence.
pub open spec fn opt_view(p: Option<&str>) -> Option<Seq<char>> {
    match p {
        Some(x) => Some(x@),
        None => None,
    }
}

/// The single-pass generation prompt.
pub open spec fn generation_prompt_spec(idea: Seq<char>, pref: Option<Seq<char>>, g: GenerationConfig) -> Seq<char> {
    let minimal = is_minimal(g.complexity@);
    let guidance = scope_guidance(minimal);
    let base = template_text(GENERATOR_PROMPT@);
    let a = replace_spec(
        base,
        "## Output Format"@,
        requirements_section_spec(requirements_for(minimal)) + "\n\n## Output Format"@,
    );
    let b = replace_spec(a, "{{IDEA}}"@, idea);
    let c = replace_spec(b, "{{TESTING_PREFERENCE}}"@, generation_pref_spec(pref));
    let d = replace_spec(c, "{{COMPLEXITY_GUIDANCE}}"@, guidance);
    apply_sections_spec(d, g, ""@)
}

/// The subagent generation prompt.
pub open spec fn subagent_prompt_spec(idea: Seq<char>, pref: Option<Seq<char>>, g: GenerationConfig) -> Seq<char> {
    let r = requirements_for(is_minimal(g.complexity@));
    let base = template_text(SUBAGENT_PROMPT@);
    let a = replace_spec(base, "{{IDEA}}"@, idea);
    let b = replace_spec(a, "{{TESTING_PREFERENCE}}"@, subagent_pref_spec(pref));
    let c = replace_spec(b, "{{BLUEPRINT}}"@, "[The blueprint you generated above]"@);
    let d = replace_spec(c, "{{FEATURE_COUNT_GUIDANCE}}"@, feature_guidance_spec(r));
    let e = replace_spec(d, "{{ARCHITECTURE_COUNT_GUIDANCE}}"@, architecture_guidance_spec(r));
    let f = replace_spec(e, "{{QUALITY_TASK}}"@, quality_task_spec(idea, g));
    let h = replace_spec(f, "{{QUALITY_COUNT_GUIDANCE}}"@, quality_guidance_spec(r));
    apply_sections_spec(h, g, "  "@)
}

/// The refinement prompt: the current specification and the requested
/// changes put in place of their placeholders in one pass over the
/// template, so that both are inserted exactly as given.
pub open spec fn refine_prompt_spec(current: Seq<char>, refinement: Seq<char>) -> Seq<char> {
    let base = template_text(REFINE_PROMPT@);
    replace_two_spec(base, "{{EXISTING_SPEC}}"@, current, "{{REFINEMENT}}"@, refinement)
}

/// How many bytes of partial output a fix prompt keeps.
pub open spec fn partial_limit() -> nat {
    10000
}

/// The partial output as shown: its last `partial_limit()` bytes after a
/// truncation note when it is longer than that, the whole of it otherwise.
pub open spec fn shown_partial(o: Seq<char>) -> Seq<char> {
    let b = encode_utf8(o);
    if b.len() > partial_limit() {
        "... (truncated) ...\n"@ + decode_utf8(b.subrange(b.len() - partial_limit(), b.len() as int))
    } else {
        o
    }
}

/// The partial-output paragraph of a fix prompt.
pub open spec fn partial_text_spec(p: Option<Seq<char>>) -> Seq<char> {
    if given_pref(p) {
        "\n## Partial Output (for context)\n\n```\n"@ + shown_partial(p->0) + "\n```\n"@
    } else {
        Seq::empty()
    }
}

/// The fix prompt.
pub open spec fn fix_prompt_spec(idea: Seq<char>, errors: Seq<char>, partial: Option<Seq<char>>) -> Seq<char> {
    let base = template_text(FIX_MALFORMED_PROMPT@);
    let a = replace_spec(replace_spec(base, "{{IDEA}}"@, idea), "{{ERRORS}}"@, errors);
    replace_spec(a, "{{PARTIAL_OUTPUT}}"@, partial_text_spec(partial))
}

/// Partial output can be cut at its last `partial_limit()` bytes: it is
/// short enough, or a character starts there (and, as for any string, its
/// length in bytes fits in `usize`).
pub open spec fn partial_cuttable(p: Option<Seq<char>>) -> bool {
    given_pref(p) ==> {
        let b = encode_utf8(p->0);
        &&& b.len() <= usize::MAX
        &&& b.len() > partial_limit() ==> is_char_boundary(b, b.len() - partial_limit())
    }
}

// ---------------------------------------------------------------------------
// Building blocks
// ---------------------------------------------------------------------------

/// Replaces every occurrence of a non-empty pattern.
fn replace_all(s: String, p: &str, r: &str) -> (out: String)
    requires
        p@.len() > 0,
    ensures
        out@ == replace_spec(s@, p@, r@),
{
    str_replace(s.as_str(), p, r)
}

/// The text a template stands for.
fn template_or_raw(t: &str) -> (r: String)
    ensures
        r@ == template_text(t@),
{
    match render_template(t) {
        Ok(s) => s,
        Err(_) => owned(t),
    }
}

/// The summary of the minimum requirements.
fn build_requirements_section(r: GenerationRequirements) -> (s: String)
    ensures
        s@ == requirements_section_spec(r),
{
    let mut s = owned("## Minimum Scope Requirements\n\n- Minimum features: ");
    push_str(&mut s, decimal_string(r.min_features as u64).as_str());
    push_str(&mut s, "\n- Minimum database tables: ");
    push_str(&mut s, decimal_string(r.min_database_tables as u64).as_str());
    push_str(&mut s, "\n- Minimum API endpoints: ");
    push_str(&mut s, decimal_string(r.min_api_endpoints as u64).as_str());
    push_str(&mut s, "\n- Minimum implementation steps: ");
    push_str(&mut s, decimal_string(r.min_implementation_steps as u64).as_str());
    s
}

/// A section's block when enabled, nothing otherwise.
fn build_section_block(enabled: bool, content: &str) -> (s: String)
    ensures
        s@ == section_block_spec(enabled, content@),
{
    if enabled {
        let mut s = str_trim_end(content);
        push_str(&mut s, "\n\n");
        s
    } else {
        String::new()
    }
}

/// Appends `indent + line`.
fn push_indented(lines: &mut Vec<String>, indent: &str, line: &str)
    ensures
        views(final(lines)@) == views(old(lines)@).push(indent@ + line@),
{
    push_owned(lines, concat2(indent, line));
}

/// The first lines of the testing-strategy block, indented.
fn testing_head(indent: &str) -> (lines: Vec<String>)
    ensures
        views(lines@) == indent_all(indent@, testing_lines()).subrange(0, 7),
{
    let mut lines: Vec<String> = Vec::new();
    push_indented(&mut lines, indent, "<testing_strategy>");
    push_indented(&mut lines, indent, "  <unit_tests>Coverage targets and priority areas</unit_tests>");
    push_indented(&mut lines, indent, "  <integration_tests>Integration test approach</integration_tests>");
    push_indented(&mut lines, indent, "  <e2e_tests>");
    push_indented(&mut lines, indent, "   - Critical flows to cover");
    push_indented(&mut lines, indent, "   - **MANDATORY**: Every core feature MUST have a scriptable E2E test");
    push_indented(&mut lines, indent, "   - verification_command MUST invoke E2E tests");
    assert(views(lines@) =~= indent_all(indent@, testing_lines()).subrange(0, 7));
    lines
}

/// The example testing-strategy block, each line indented.
fn build_testing_strategy_block(indent: &str) -> (s: String)
    ensures
        s@ == testing_block_spec(indent@),
{
    let mut lines = testing_head(indent);
    let ghost head = views(lines@);
    push_indented(&mut lines, indent, "  </e2e_tests>");
    push_indented(&mut lines, indent, "  <entry_point_verification>");
    push_indented(&mut lines, indent, "   - The main entry point MUST be wired to call all handlers.");
    push_indented(&mut lines, indent, "   - verification_command MUST check that the application RUNS.");
    push_indented(&mut lines, indent, "  </entry_point_verification>");
    push_indented(&mut lines, indent, "</testing_strategy>");
    assert(views(lines@) =~= indent_all(indent@, testing_lines()));
    join_strings(&lines, "\n")
}

/// "{indent}<{tag}>{content}</{tag}>".
fn build_single_line_section(indent: &str, tag: &str, content: &str) -> (s: String)
    ensures
        s@ == single_line_spec(indent@, tag@, content@),
{
    let mut s = concat3(indent, "<", tag);
    push_str(&mut s, ">");
    push_str(&mut s, content);
    push_str(&mut s, "</");
    push_str(&mut s, tag);
    push_str(&mut s, ">");
    s
}

/// Replaces a placeholder by a block with its trailing whitespace removed.
fn replace_with_block(prompt: String, placeholder: &str, block: String) -> (out: String)
    requires
        placeholder@.len() > 0,
    ensures
        out@ == replace_spec(prompt@, placeholder@, trim_end_spec(block@)),
{
    let t = str_trim_end(block.as_str());
    replace_all(prompt, placeholder, t.as_str())
}

/// Fills the optional output sections into a prompt.
fn apply_output_sections(prompt: String, config: &Config, indent: &str) -> (out: String)
    ensures
        out@ == apply_sections_spec(prompt@, config.generation, indent@),
{
    let g = &config.generation;
    proof {
        reveal_strlit("{{SECURITY_SECTION}}");
        reveal_strlit("{{TESTING_STRATEGY_SECTION}}");
        reveal_strlit("{{DEVOPS_SECTION}}");
        reveal_strlit("{{ACCESSIBILITY_SECTION}}");
        reveal_strlit("{{FUTURE_ENHANCEMENTS_SECTION}}");
    }
    let security = build_section_block(
        g.include_security_section,
        build_single_line_section(indent, "security", "Security requirements and measures").as_str(),
    );
    let testing = build_section_block(
        g.include_testing_strategy,
        build_testing_strategy_block(indent).as_str(),
    );
    let devops = build_section_block(
        g.include_devops_section,
        build_single_line_section(indent, "devops", "Deployment and operations plan").as_str(),
    );
    let accessibility = build_section_block(
        g.include_accessibility,
        build_single_line_section(indent, "accessibility", "Accessibility requirements and testing").as_str(),
    );
    let future = build_section_block(
        g.include_future_enhancements,
        build_single_line_section(indent, "future_enhancements", "Potential post-launch features").as_str(),
    );
    let a = replace_with_block(prompt, "{{SECURITY_SECTION}}", security);
    let b = replace_with_block(a, "{{TESTING_STRATEGY_SECTION}}", testing);
    let c = replace_with_block(b, "{{DEVOPS_SECTION}}", devops);
    let d = replace_with_block(c, "{{ACCESSIBILITY_SECTION}}", accessibility);
    replace_with_block(d, "{{FUTURE_ENHANCEMENTS_SECTION}}", future)
}

/// The task given to the quality subagent.
fn build_quality_task(idea: &str, config: &Config) -> (s: String)
    ensures
        s@ == quality_task_spec(idea@, config.generation),
{
    let g = &config.generation;
    let mut sections: Vec<String> = Vec::new();
    push_lit(&mut sections, "implementation steps");
    push_lit(&mut sections, "success criteria");
    let ghost a = views(sections@);
    if g.include_security_section {
        push_lit(&mut sections, "security");
    }
    let ghost b = views(sections@);
    assert(b =~= a + when(g.include_security_section, "security"@));
    if g.include_testing_strategy {
        push_lit(&mut sections, "testing strategy");
    }
    let ghost c = views(sections@);
    assert(c =~= b + when(g.include_testing_strategy, "testing strategy"@));
    if g.include_devops_section {
        push_lit(&mut sections, "devops");
    }
    let ghost d = views(sections@);
    assert(d =~= c + when(g.include_devops_section, "devops"@));
    if g.include_accessibility {
        push_lit(&mut sections, "accessibility");
    }
    let ghost e = views(sections@);
    assert(e =~= d + when(g.include_accessibility, "accessibility"@));
    if g.include_future_enhancements {
        push_lit(&mut sections, "future enhancements");
    }
    assert(views(sections@) =~= quality_sections(*g));
    let mut s = owned("Generate ");
    push_str(&mut s, join_strings(&sections, ", ").as_str());
    push_str(&mut s, " for: ");
    push_str(&mut s, idea);
    s
}

/// Guidance on the number of features.
fn build_feature_count_guidance(r: GenerationRequirements) -> (s: String)
    ensures
        s@ == feature_guidance_spec(r),
{
    let mut s = owned("IMPORTANT: Generate at least ");
    push_str(&mut s, decimal_string(r.min_features as u64).as_str());
    push_str(
        &mut s,
        " features depending on project complexity. Each feature must include:\n- Name\n- Detailed description (2-4 sentences)\n- Sub-features (list of specific capabilities)\n- Error handling approach\n- Edge cases to consider",
    );
    s
}

/// Guidance on the numbers of tables and endpoints.
fn build_architecture_count_guidance(r: GenerationRequirements) -> (s: String)
    ensures
        s@ == architecture_guidance_spec(r),
{
    let mut s = owned("IMPORTANT:\n- Database: Define at least ");
    push_str(&mut s, decimal_string(r.min_database_tables as u64).as_str());
    push_str(
        &mut s,
        " tables with full column specifications, types, constraints, and relationships\n- API Endpoints: Define at least ",
    );
    push_str(&mut s, decimal_string(r.min_api_endpoints as u64).as_str());
    push_str(&mut s, " endpoints in structured <endpoint> elements with method, path, and description");
    s
}

/// Guidance on the number of implementation phases.
fn build_quality_count_guidance(r: GenerationRequirements) -> (s: String)
    ensures
        s@ == quality_guidance_spec(r),
{
    let mut s = owned("IMPORTANT: Implementation steps should have at least ");
    push_str(&mut s, decimal_string(r.min_implementation_steps as u64).as_str());
    push_str(&mut s, " phases with specific tasks and verification criteria.");
    s
}

/// Whether an optional text is present and not blank.
fn is_given(p: Option<&str>) -> (b: bool)
    ensures
        b == given_pref(opt_view(p)),
{
    match p {
        Some(x) => !str_blank(x),
        None => false,
    }
}

// ---------------------------------------------------------------------------
// Prompts
// ---------------------------------------------------------------------------

/// Builds the single-pass generation prompt from the idea, an optional
/// testing preference and the generation settings.
pub fn build_generation_prompt(idea: &str, testing_preference: Option<&str>, config: &Config) -> (s: String)
    ensures
        s@ == generation_prompt_spec(idea@, opt_view(testing_preference), config.generation),
{
    proof {
        reveal_strlit("## Output Format");
        reveal_strlit("{{IDEA}}");
        reveal_strlit("{{TESTING_PREFERENCE}}");
        reveal_strlit("{{COMPLEXITY_GUIDANCE}}");
    }
    let pref_text = if is_given(testing_preference) {
        let mut t = owned("\n## User Preferences\n\nTesting & QA Framework Preference: ");
        push_str(&mut t, testing_preference.unwrap());
        push_str(&mut t, "\n");
        t
    } else {
        String::new()
    };
    let minimal = config.generation.is_minimal();
    let guidance = if minimal {
        "The target is a minimal, lightweight implementation. Focus only on the absolute core."
    } else {
        "The target is a comprehensive, production-ready specification with deep detail."
    };
    let requirements = config.generation.requirements();
    let mut with_requirements = build_requirements_section(requirements);
    push_str(&mut with_requirements, "\n\n## Output Format");
    let base = template_or_raw(GENERATOR_PROMPT);
    let a = replace_all(base, "## Output Format", with_requirements.as_str());
    let b = replace_all(a, "{{IDEA}}", idea);
    let c = replace_all(b, "{{TESTING_PREFERENCE}}", pref_text.as_str());
    let d = replace_all(c, "{{COMPLEXITY_GUIDANCE}}", guidance);
    apply_output_sections(d, config, "")
}

/// Builds the subagent generation prompt from the idea, an optional
/// testing preference and the generation settings.
pub fn build_subagent_prompt(idea: &str, testing_preference: Option<&str>, config: &Config) -> (s: String)
    ensures
        s@ == subagent_prompt_spec(idea@, opt_view(testing_preference), config.generation),
{
    proof {
        reveal_strlit("{{IDEA}}");
        reveal_strlit("{{TESTING_PREFERENCE}}");
        reveal_strlit("{{BLUEPRINT}}");
        reveal_strlit("{{FEATURE_COUNT_GUIDANCE}}");
        reveal_strlit("{{ARCHITECTURE_COUNT_GUIDANCE}}");
        reveal_strlit("{{QUALITY_TASK}}");
        reveal_strlit("{{QUALITY_COUNT_GUIDANCE}}");
    }
    let pref_text = if is_given(testing_preference) {
        let mut t = owned("\n**User Preference:** QA/Testing framework should be: ");
        push_str(&mut t, testing_preference.unwrap());
        push_str(&mut t, "\n");
        t
    } else {
        String::new()
    };
    let requirements = config.generation.requirements();
    let base = template_or_raw(SUBAGENT_PROMPT);
    let a = replace_all(base, "{{IDEA}}", idea);
    let b = replace_all(a, "{{TESTING_PREFERENCE}}", pref_text.as_str());
    let c = replace_all(b, "{{BLUEPRINT}}", "[The blueprint you generated above]");
    let d = replace_all(c, "{{FEATURE_COUNT_GUIDANCE}}", build_feature_count_guidance(requirements).as_str());
    let e = replace_all(
        d,
        "{{ARCHITECTURE_COUNT_GUIDANCE}}",
        build_architecture_count_guidance(requirements).as_str(),
    );
    let f = replace_all(e, "{{QUALITY_TASK}}", build_quality_task(idea, config).as_str());
    let h = replace_all(f, "{{QUALITY_COUNT_GUIDANCE}}", build_quality_count_guidance(requirements).as_str());
    apply_output_sections(h, config, "  ")
}

/// Builds the refinement prompt from the current specification and the
/// requested changes.
pub fn build_refine_prompt(current_spec: &str, refinement: &str) -> (s: String)
    ensures
        s@ == refine_prompt_spec(current_spec@, refinement@),
{
    let base = template_or_raw(REFINE_PROMPT);
    replace_two(base.as_str(), "{{EXISTING_SPEC}}", current_spec, "{{REFINEMENT}}", refinement)
}

/// The partial output as shown in a fix prompt.
fn show_partial(output: &str) -> (s: String)
    requires
        encode_utf8(output@).len() <= usize::MAX,
        encode_utf8(output@).len() > partial_limit() ==> is_char_boundary(
            encode_utf8(output@),
            encode_utf8(output@).len() - partial_limit(),
        ),
    ensures
        s@ == shown_partial(output@),
{
    let n = output.len();
    if n > 10000 {
        let (_, tail) = output.split_at(n - 10000);
        proof {
            vstd::utf8::encode_utf8_decode_utf8(tail@);
        }
        let mut s = owned("... (truncated) ...\n");
        push_str(&mut s, tail);
        s
    } else {
        owned(output)
    }
}

/// Builds the prompt that asks to repair malformed output, from the idea,
/// the errors found and optional partial output (its last 10000 bytes are
/// kept when it is longer).
pub fn build_fix_prompt(idea: &str, errors: &str, partial_output: Option<&str>) -> (s: String)
    requires
        partial_cuttable(opt_view(partial_output)),
    ensures
        s@ == fix_prompt_spec(idea@, errors@, opt_view(partial_output)),
{
    proof {
        reveal_strlit("{{IDEA}}");
        reveal_strlit("{{ERRORS}}");
        reveal_strlit("{{PARTIAL_OUTPUT}}");
    }
    let base = template_or_raw(FIX_MALFORMED_PROMPT);
    let a = replace_all(base, "{{IDEA}}", idea);
    let b = replace_all(a, "{{ERRORS}}", errors);
    let partial_text = if is_given(partial_output) {
        let shown = show_partial(partial_output.unwrap());
        let mut t = owned("\n## Partial Output (for context)\n\n```\n");
        push_str(&mut t, shown.as_str());
        push_str(&mut t, "\n```\n");
        t
    } else {
        String::new()
    };
    replace_all(b, "{{PARTIAL_OUTPUT}}", partial_text.as_str())
}

/// The generation prompt carries the scope guidance of the configured
/// complexity, whatever the idea and the testing preference: the minimal
/// guidance for a minimal configuration, the comprehensive one otherwise.
pub proof fn lemma_generation_prompt_guidance(idea: Seq<char>, pref: Option<Seq<char>>, g: GenerationConfig)
    ensures
        contains_spec(generation_prompt_spec(idea, pref, g), scope_guidance(is_minimal(g.complexity@))),
{
    reveal_strlit("You are a senior software architect. Turn the project idea below into a complete, buildable project specification.

## Project Idea

{{IDEA}}
{{TESTING_PREFERENCE}}
## Scope

{{COMPLEXITY_GUIDANCE}}

## Output Format

Answer with one XML document, and nothing else, in this shape:

<project_specification>
<project_name>Short name of the project</project_name>
<overview>What the project does and who uses it</overview>
<technology_stack>Frontend, backend, database and tooling choices</technology_stack>
<core_features>
<feature>Name, description, sub-features, error handling and edge cases</feature>
</core_features>
<database_schema>
<tables>Each table with its columns, types and relationships</tables>
</database_schema>
<api_endpoints_summary>
- METHOD /path - description
</api_endpoints_summary>
<implementation_steps>
<step>A phase with its tasks and how it is verified</step>
</implementation_steps>
<success_criteria>How to know the project is done</success_criteria>
{{SECURITY_SECTION}}
{{TESTING_STRATEGY_SECTION}}
{{DEVOPS_SECTION}}
{{ACCESSIBILITY_SECTION}}
{{FUTURE_ENHANCEMENTS_SECTION}}
</project_specification>
");
    reveal_strlit("{{COMPLEXITY_GUIDANCE}}");
    reveal_strlit("## Output Format");
    reveal_strlit("{{IDEA}}");
    reveal_strlit("{{TESTING_PREFERENCE}}");
    reveal_strlit("{{FUTURE_ENHANCEMENTS_SECTION}}");
    reveal_strlit("The target is a minimal, lightweight implementation. Focus only on the absolute core.");
    reveal_strlit("The target is a comprehensive, production-ready specification with deep detail.");
    let minimal = is_minimal(g.complexity@);
    let guidance = scope_guidance(minimal);
    let marker = "{{COMPLEXITY_GUIDANCE}}"@;
    let with_requirements = requirements_section_spec(requirements_for(minimal)) + "\n\n## Output Format"@;
    lemma_plain_text_renders(GENERATOR_PROMPT@);
    let base = template_text(GENERATOR_PROMPT@);
    assert(base == GENERATOR_PROMPT@);
    assert(matches_at(base, marker, 175));
    lemma_replace_keeps_by_ends(base, "## Output Format"@, with_requirements, marker);
    let a = replace_spec(base, "## Output Format"@, with_requirements);
    lemma_replace_keeps_placeholder(a, "{{IDEA}}"@, idea, marker);
    let b = replace_spec(a, "{{IDEA}}"@, idea);
    lemma_replace_keeps_placeholder(b, "{{TESTING_PREFERENCE}}"@, generation_pref_spec(pref), marker);
    let c = replace_spec(b, "{{TESTING_PREFERENCE}}"@, generation_pref_spec(pref));
    let k = choose|k: int| matches_at(c, marker, k);
    lemma_replace_inserts(c, marker, guidance, 0, k);
    let d = replace_spec(c, marker, guidance);
    lemma_sections_keep(d, g, ""@, guidance);
}

/// The longest of the section placeholders.
pub open spec fn longest_section_marker() -> Seq<char> {
    "{{FUTURE_ENHANCEMENTS_SECTION}}"@
}

/// Filling the output sections keeps any text that holds no brace and is
/// at least as long as the longest section placeholder.
pub proof fn lemma_sections_keep(prompt: Seq<char>, g: GenerationConfig, indent: Seq<char>, x: Seq<char>)
    requires
        contains_spec(prompt, x),
        x.len() >= longest_section_marker().len(),
        forall|t: int| 0 <= t < x.len() ==> x[t] != '{' && x[t] != '}',
    ensures
        contains_spec(apply_sections_spec(prompt, g, indent), x),
{
    reveal_strlit("{{SECURITY_SECTION}}");
    reveal_strlit("{{TESTING_STRATEGY_SECTION}}");
    reveal_strlit("{{DEVOPS_SECTION}}");
    reveal_strlit("{{ACCESSIBILITY_SECTION}}");
    reveal_strlit("{{FUTURE_ENHANCEMENTS_SECTION}}");
    let security = section_block_spec(
        g.include_security_section,
        single_line_spec(indent, "security"@, "Security requirements and measures"@),
    );
    let testing = section_block_spec(g.include_testing_strategy, testing_block_spec(indent));
    let devops = section_block_spec(
        g.include_devops_section,
        single_line_spec(indent, "devops"@, "Deployment and operations plan"@),
    );
    let accessibility = section_block_spec(
        g.include_accessibility,
        single_line_spec(indent, "accessibility"@, "Accessibility requirements and testing"@),
    );
    let future = section_block_spec(
        g.include_future_enhancements,
        single_line_spec(indent, "future_enhancements"@, "Potential post-launch features"@),
    );
    lemma_replace_keeps_by_ends(prompt, "{{SECURITY_SECTION}}"@, trim_end_spec(security), x);
    let a = replace_spec(prompt, "{{SECURITY_SECTION}}"@, trim_end_spec(security));
    lemma_replace_keeps_by_ends(a, "{{TESTING_STRATEGY_SECTION}}"@, trim_end_spec(testing), x);
    let b = replace_spec(a, "{{TESTING_STRATEGY_SECTION}}"@, trim_end_spec(testing));
    lemma_replace_keeps_by_ends(b, "{{DEVOPS_SECTION}}"@, trim_end_spec(devops), x);
    let c = replace_spec(b, "{{DEVOPS_SECTION}}"@, trim_end_spec(devops));
    lemma_replace_keeps_by_ends(c, "{{ACCESSIBILITY_SECTION}}"@, trim_end_spec(accessibility), x);
    let d = replace_spec(c, "{{ACCESSIBILITY_SECTION}}"@, trim_end_spec(accessibility));
    lemma_replace_keeps_by_ends(d, "{{FUTURE_ENHANCEMENTS_SECTION}}"@, trim_end_spec(future), x);
}

} // verus!
