//! Scaffolding: the directories and files a project is given.
//!
//! The library computes a plan, an ordered list of steps with the exact
//! paths and contents; the program around it carries the steps out. Paths
//! are strings with `/` as separator, and a path is absolute when it starts
//! with `/`.

pub mod assets;

use vstd::prelude::*;
use crate::config::{Config, is_minimal, requirements_for};
use crate::error::ForgerError;
use crate::spec::{AppSpec, spec_text};
use crate::text::{
    bool_string, bool_text, concat2, eq_ignore_case, str_eq_ignore_case, decimal, decimal_string, ends_with_spec, is_blank, join_spec,
    join_strings, owned, push_lit, push_owned, push_str, replace_owned, replace_spec, str_blank,
    str_trim, trim_spec, views,
};
use crate::theming::boxes::{repeat_char, repeat_str};
use crate::validation::{SpecStats, ValidationRules, validate_spec_with_config, validate_text_spec};
use assets::{
    AGENTS_MD_TEMPLATE, DEFAULT_APP_SPEC, SECURITY_ALLOWLIST, USER_CONFIG_TEMPLATE, auto_continue_template,
    auto_enhance_template, auto_init_template, core_database, core_identity, core_mcp_guide,
    core_security, core_signaling, rendered, spec_architecture_agent, spec_product_agent,
    spec_quality_agent, AUTO_CONTINUE_TEMPLATE, AUTO_ENHANCE_TEMPLATE, AUTO_INIT_TEMPLATE,
    CORE_DATABASE, CORE_IDENTITY, CORE_MCP_GUIDE, CORE_SECURITY, CORE_SIGNALING,
    SPEC_ARCHITECTURE_AGENT, SPEC_PRODUCT_AGENT, SPEC_QUALITY_AGENT,
};

verus! {

// ---------------------------------------------------------------------------
// Include directives
// ---------------------------------------------------------------------------

/// "{{INCLUDE path}}".
pub open spec fn directive(path: Seq<char>) -> Seq<char> {
    "{{INCLUDE "@ + path + "}}"@
}

/// The template with every include directive replaced by its module.
pub open spec fn include_all(t: Seq<char>, id: Seq<char>, sec: Seq<char>, sig: Seq<char>, db: Seq<char>, mcp: Seq<char>) -> Seq<char> {
    let a = replace_spec(t, directive("core/identity.xml"@), id);
    let b = replace_spec(a, directive("core/security.xml"@), sec);
    let c = replace_spec(b, directive("core/signaling.xml"@), sig);
    let d = replace_spec(c, directive("core/database.xml"@), db);
    replace_spec(d, directive("core/mcp_guide.xml"@), mcp)
}

/// What resolving the include directives of a template gives: the first
/// core module that does not render gives its error.
pub open spec fn resolve_includes_spec(t: Seq<char>) -> Result<Seq<char>, Seq<char>> {
    match rendered(CORE_IDENTITY@) {
        Err(m) => Err(m),
        Ok(id) => match rendered(CORE_SECURITY@) {
            Err(m) => Err(m),
            Ok(sec) => match rendered(CORE_SIGNALING@) {
                Err(m) => Err(m),
                Ok(sig) => match rendered(CORE_DATABASE@) {
                    Err(m) => Err(m),
                    Ok(db) => match rendered(CORE_MCP_GUIDE@) {
                        Err(m) => Err(m),
                        Ok(mcp) => Ok(include_all(t, id, sec, sig, db, mcp)),
                    },
                },
            },
        },
    }
}

/// Replaces one include directive by a module's text.
fn include_one(t: String, path: &str, content: &String) -> (r: String)
    ensures
        r@ == replace_spec(t@, directive(path@), content@),
{
    let mut d = owned("{{INCLUDE ");
    push_str(&mut d, path);
    push_str(&mut d, "}}");
    proof {
        reveal_strlit("{{INCLUDE ");
        assert(d@.len() > 0);
    }
    replace_owned(t, d.as_str(), content.as_str())
}

/// Resolves `{{INCLUDE path}}` directives with the core modules.
pub fn resolve_includes(template: &str) -> (r: Result<String, ForgerError>)
    ensures
        match (r, resolve_includes_spec(template@)) {
            (Ok(s), Ok(t)) => s@ == t,
            (Err(e), Err(m)) => e.message@ == m,
            _ => false,
        },
{
    let id = match core_identity() {
        Ok(s) => s,
        Err(e) => return Err(e),
    };
    let sec = match core_security() {
        Ok(s) => s,
        Err(e) => return Err(e),
    };
    let sig = match core_signaling() {
        Ok(s) => s,
        Err(e) => return Err(e),
    };
    let db = match core_database() {
        Ok(s) => s,
        Err(e) => return Err(e),
    };
    let mcp = match core_mcp_guide() {
        Ok(s) => s,
        Err(e) => return Err(e),
    };
    let a = include_one(owned(template), "core/identity.xml", &id);
    let b = include_one(a, "core/security.xml", &sec);
    let c = include_one(b, "core/signaling.xml", &sig);
    let d = include_one(c, "core/database.xml", &db);
    Ok(include_one(d, "core/mcp_guide.xml", &mcp))
}

// ---------------------------------------------------------------------------
// Paths
// ---------------------------------------------------------------------------

/// A path is absolute when it starts with `/`.
pub open spec fn is_absolute(p: Seq<char>) -> bool {
    p.len() > 0 && p[0] == '/'
}

/// `dir` joined with `p`: `p` itself when absolute or when `dir` is empty,
/// otherwise the two with one separator between them.
pub open spec fn join_path(dir: Seq<char>, p: Seq<char>) -> Seq<char> {
    if is_absolute(p) || dir.len() == 0 {
        p
    } else if dir.last() == '/' {
        dir + p
    } else {
        dir + "/"@ + p
    }
}

/// Where a configured path lands: the output directory when the setting
/// is blank, the setting itself when absolute, otherwise the setting
/// under the output directory.
pub open spec fn scaffold_path_spec(output_dir: Seq<char>, setting: Seq<char>) -> Seq<char> {
    let t = trim_spec(setting);
    if t.len() == 0 {
        output_dir
    } else if is_absolute(t) {
        t
    } else {
        join_path(output_dir, t)
    }
}

/// A gitignore entry for a configured directory: nothing for a blank or
/// absolute path; otherwise the trimmed path with `\` turned into `/` and
/// ending with `/`.
pub open spec fn gitignore_entry_spec(p: Seq<char>) -> Seq<char> {
    let t = trim_spec(p);
    if t.len() == 0 || is_absolute(t) {
        Seq::empty()
    } else {
        let n = replace_spec(t, "\\"@, "/"@);
        if ends_with_spec(n, "/"@) { n } else { n + "/"@ }
    }
}

/// Whether a string starts with `/`.
fn str_is_absolute(s: &str) -> (b: bool)
    ensures
        b == is_absolute(s@),
{
    let v = crate::text::to_chars(s);
    v.len() > 0 && v[0] == '/'
}

/// Joins a directory and a path.
pub fn join_path_str(dir: &str, p: &str) -> (r: String)
    ensures
        r@ == join_path(dir@, p@),
{
    let d = crate::text::to_chars(dir);
    if str_is_absolute(p) || d.len() == 0 {
        owned(p)
    } else if d[d.len() - 1] == '/' {
        concat2(dir, p)
    } else {
        crate::text::concat3(dir, "/", p)
    }
}

/// Resolves a configured path against the output directory.
pub fn resolve_scaffold_path(output_dir: &str, path_config: &str) -> (r: String)
    ensures
        r@ == scaffold_path_spec(output_dir@, path_config@),
{
    let t = str_trim(path_config);
    if t.as_str().is_empty() {
        owned(output_dir)
    } else if str_is_absolute(t.as_str()) {
        t
    } else {
        join_path_str(output_dir, t.as_str())
    }
}

/// The gitignore entry for a configured directory.
pub fn normalize_gitignore_path(path: &str) -> (r: String)
    ensures
        r@ == gitignore_entry_spec(path@),
{
    let t = str_trim(path);
    if t.as_str().is_empty() || str_is_absolute(t.as_str()) {
        return String::new();
    }
    proof {
        reveal_strlit("\\");
        reveal_strlit("/");
    }
    let mut n = replace_owned(t, "\\", "/");
    let ends = crate::text::str_ends_with(n.as_str(), "/");
    if !ends {
        push_str(&mut n, "/");
    }
    n
}

// ---------------------------------------------------------------------------
// Generated files
// ---------------------------------------------------------------------------

/// The lines of the generated `.gitignore`.
pub open spec fn gitignore_entries(c: Config) -> Seq<Seq<char>> {
    let log_dir = gitignore_entry_spec(c.paths.log_dir@);
    seq![
        "# MCP & Tool caches (do not commit)"@,
        gitignore_entry_spec(c.alternative_approaches.cache_dir@),
        gitignore_entry_spec(c.paths.vs_cache_dir@),
        ""@,
        "# OpenCode Forger"@,
        "progress.db*"@,
        "opencode-debug*.log"@,
        gitignore_entry_spec(c.conductor.context_dir@),
    ] + (if log_dir.len() > 0 { seq![log_dir] } else { seq![] }) + seq![""@]
}

/// The generated `.gitignore`.
pub open spec fn gitignore_spec(c: Config) -> Seq<char> {
    join_spec(gitignore_entries(c), "\n"@)
}

/// Generates the `.gitignore` of a scaffolded project.
pub fn generate_gitignore(config: &Config) -> (r: String)
    ensures
        r@ == gitignore_spec(*config),
{
    let mut entries: Vec<String> = Vec::new();
    push_lit(&mut entries, "# MCP & Tool caches (do not commit)");
    push_owned(&mut entries, normalize_gitignore_path(config.alternative_approaches.cache_dir.as_str()));
    push_owned(&mut entries, normalize_gitignore_path(config.paths.vs_cache_dir.as_str()));
    push_lit(&mut entries, "");
    let ghost a = views(entries@);
    push_lit(&mut entries, "# OpenCode Forger");
    push_lit(&mut entries, "progress.db*");
    push_lit(&mut entries, "opencode-debug*.log");
    push_owned(&mut entries, normalize_gitignore_path(config.conductor.context_dir.as_str()));
    let ghost b = views(entries@);
    assert(b =~= gitignore_entries(*config).subrange(0, 8));
    let log_dir = normalize_gitignore_path(config.paths.log_dir.as_str());
    if !log_dir.as_str().is_empty() {
        push_owned(&mut entries, log_dir);
    }
    push_lit(&mut entries, "");
    assert(views(entries@) =~= gitignore_entries(*config));
    join_strings(&entries, "\n")
}

/// Whether the required tools name the Chrome DevTools server.
pub open spec fn wants_chrome_devtools(tools: Seq<Seq<char>>) -> bool {
    exists|i: int| 0 <= i < tools.len() && eq_ignore_case(#[trigger] tools[i], "chrome-devtools"@)
}

/// The specification path named in `opencode.json`.
pub open spec fn json_spec_path(c: Config) -> Seq<char> {
    if is_blank(c.paths.app_spec_file@) { ".forger/app_brief.md"@ } else { c.paths.app_spec_file@ }
}

/// The text of `opencode.json` before the specification path.
pub open spec fn json_head() -> Seq<char> {
    "{\n  \"$schema\": \"https://opencode.ai/config.json\",\n  \"instructions\": [\n    \"forger.toml\",\n    \""@
}

/// The text of `opencode.json` from the specification path to the first
/// MCP switch.
pub open spec fn json_middle() -> Seq<char> {
    "\"\n  ],\n  \"provider\": {\n    \"google\": {\n      \"options\": {\n        \"thinkingLevel\": \"high\"\n      }\n    },\n    \"anthropic\": {\n      \"options\": {\n        \"thinking\": {\n          \"type\": \"enabled\",\n          \"budget_tokens\": 16000\n        }\n      }\n    },\n    \"deepseek\": {\n      \"options\": {\n        \"thinking\": {\n          \"type\": \"enabled\"\n        }\n      }\n    }\n  },\n  \"mcp\": {\n    \"sequential-thinking\": {\n      \"type\": \"local\",\n      \"command\": [\"npx\", \"-y\", \"@modelcontextprotocol/server-sequential-thinking\"],\n      \"enabled\": "@
}

/// The text of `opencode.json` between the two MCP switches.
pub open spec fn json_between() -> Seq<char> {
    "\n    },\n    \"chrome-devtools\": {\n      \"type\": \"local\",\n      \"command\": [\"npx\", \"-y\", \"chrome-devtools-mcp@latest\"],\n      \"enabled\": "@
}

/// The text of `opencode.json` after the second MCP switch.
pub open spec fn json_tail() -> Seq<char> {
    "\n    }\n  },\n  \"permission\": {\n  \"*\": \"allow\",\n    \"bash\": \"allow\",\n    \"edit\": \"allow\"\n  }\n}\n"@
}

/// The generated `opencode.json`.
pub open spec fn opencode_json_spec(c: Config) -> Seq<char> {
    json_head() + json_spec_path(c) + json_middle() + bool_text(c.mcp.use_sequential_thinking)
        + json_between() + bool_text(wants_chrome_devtools(views(c.mcp.required_tools@))) + json_tail()
}

/// Whether any required tool names the Chrome DevTools server.
fn any_chrome_devtools(tools: &Vec<String>) -> (r: bool)
    ensures
        r == wants_chrome_devtools(views(tools@)),
{
    let mut i: usize = 0;
    while i < tools.len()
        invariant
            i <= tools@.len(),
            forall|k: int| 0 <= k < i ==> !eq_ignore_case(#[trigger] views(tools@)[k], "chrome-devtools"@),
        decreases tools.len() - i,
    {
        if str_eq_ignore_case(tools[i].as_str(), "chrome-devtools") {
            assert(eq_ignore_case(views(tools@)[i as int], "chrome-devtools"@));
            return true;
        }
        i = i + 1;
    }
    false
}

/// Generates `opencode.json` with the default model and MCP settings.
pub fn generate_opencode_json(config: &Config) -> (r: String)
    ensures
        r@ == opencode_json_spec(*config),
{
    let path = if str_blank(config.paths.app_spec_file.as_str()) {
        owned(".forger/app_brief.md")
    } else {
        owned(config.paths.app_spec_file.as_str())
    };
    let mut r = owned(
        "{\n  \"$schema\": \"https://opencode.ai/config.json\",\n  \"instructions\": [\n    \"forger.toml\",\n    \"",
    );
    push_str(&mut r, path.as_str());
    push_str(
        &mut r,
        "\"\n  ],\n  \"provider\": {\n    \"google\": {\n      \"options\": {\n        \"thinkingLevel\": \"high\"\n      }\n    },\n    \"anthropic\": {\n      \"options\": {\n        \"thinking\": {\n          \"type\": \"enabled\",\n          \"budget_tokens\": 16000\n        }\n      }\n    },\n    \"deepseek\": {\n      \"options\": {\n        \"thinking\": {\n          \"type\": \"enabled\"\n        }\n      }\n    }\n  },\n  \"mcp\": {\n    \"sequential-thinking\": {\n      \"type\": \"local\",\n      \"command\": [\"npx\", \"-y\", \"@modelcontextprotocol/server-sequential-thinking\"],\n      \"enabled\": ",
    );
    push_str(&mut r, bool_string(config.mcp.use_sequential_thinking).as_str());
    push_str(
        &mut r,
        "\n    },\n    \"chrome-devtools\": {\n      \"type\": \"local\",\n      \"command\": [\"npx\", \"-y\", \"chrome-devtools-mcp@latest\"],\n      \"enabled\": ",
    );
    push_str(&mut r, bool_string(any_chrome_devtools(&config.mcp.required_tools)).as_str());
    push_str(
        &mut r,
        "\n    }\n  },\n  \"permission\": {\n  \"*\": \"allow\",\n    \"bash\": \"allow\",\n    \"edit\": \"allow\"\n  }\n}\n",
    );
    r
}

// ---------------------------------------------------------------------------
// Command texts
// ---------------------------------------------------------------------------

/// "Required" or "Optional".
pub open spec fn requirement_word(b: bool) -> Seq<char> {
    if b { "Required"@ } else { "Optional"@ }
}

/// The `auto-init` command with its placeholders filled.
pub open spec fn fill_auto_init(t: Seq<char>, stats: SpecStats, c: Config) -> Seq<char> {
    let r = requirements_for(is_minimal(c.generation.complexity@));
    let a = replace_spec(t, "{{SPEC_FEATURE_COUNT}}"@, decimal(stats.feature_count as nat));
    let b = replace_spec(a, "{{SPEC_ENDPOINT_COUNT}}"@, decimal(stats.endpoint_count as nat));
    let d = replace_spec(b, "{{APP_SPEC_PATH}}"@, c.paths.app_spec_file@);
    let e = replace_spec(d, "{{FEATURE_CATEGORY_LIST}}"@, join_spec(views(c.features.categories@), ", "@));
    let f = replace_spec(e, "{{PRIORITY_LEVEL_LIST}}"@, join_spec(views(c.features.priorities@), ", "@));
    let g = replace_spec(
        f,
        "{{REQUIRE_VERIFICATION_COMMAND}}"@,
        requirement_word(c.features.require_verification_command),
    );
    let h = replace_spec(g, "{{NARROW_TEST_MIN_STEPS}}"@, decimal(c.features.narrow_test_min_steps as nat));
    let i = replace_spec(h, "{{NARROW_TEST_MAX_STEPS}}"@, decimal(c.features.narrow_test_max_steps as nat));
    let j = replace_spec(
        i,
        "{{COMPREHENSIVE_TEST_MIN_STEPS}}"@,
        decimal(c.features.comprehensive_test_min_steps as nat),
    );
    let k = replace_spec(j, "{{MIN_FEATURES_REQUIRED}}"@, decimal(r.min_features as nat));
    let l = replace_spec(k, "{{MIN_TABLES_REQUIRED}}"@, decimal(r.min_database_tables as nat));
    let m = replace_spec(l, "{{MIN_ENDPOINTS_REQUIRED}}"@, decimal(r.min_api_endpoints as nat));
    replace_spec(m, "{{MIN_IMPLEMENTATION_STEPS_REQUIRED}}"@, decimal(r.min_implementation_steps as nat))
}

/// The `auto-continue` command with its placeholders filled.
pub open spec fn fill_auto_continue(t: Seq<char>, c: Config) -> Seq<char> {
    let a = replace_spec(t, "{{APP_SPEC_PATH}}"@, c.paths.app_spec_file@);
    replace_spec(a, "{{REGRESSION_SAMPLE_SIZE}}"@, decimal(c.agent.verification_sample_size as nat))
}

/// A rendered command template with its includes resolved.
pub open spec fn command_with_includes(t: Seq<char>) -> Result<Seq<char>, Seq<char>> {
    match rendered(t) {
        Err(m) => Err(m),
        Ok(r) => resolve_includes_spec(r),
    }
}

/// The texts written under `.opencode`: the three commands and the three
/// specification subagents, in that order; the first that fails gives its
/// error.
pub open spec fn opencode_texts_spec(stats: SpecStats, c: Config) -> Result<Seq<Seq<char>>, Seq<char>> {
    match command_with_includes(AUTO_INIT_TEMPLATE@) {
        Err(m) => Err(m),
        Ok(init) => match command_with_includes(AUTO_CONTINUE_TEMPLATE@) {
            Err(m) => Err(m),
            Ok(cont) => match rendered(AUTO_ENHANCE_TEMPLATE@) {
                Err(m) => Err(m),
                Ok(enh) => match rendered(SPEC_PRODUCT_AGENT@) {
                    Err(m) => Err(m),
                    Ok(p) => match rendered(SPEC_ARCHITECTURE_AGENT@) {
                        Err(m) => Err(m),
                        Ok(a) => match rendered(SPEC_QUALITY_AGENT@) {
                            Err(m) => Err(m),
                            Ok(q) => Ok(
                                seq![
                                    fill_auto_init(init, stats, c),
                                    fill_auto_continue(cont, c),
                                    replace_spec(enh, "{{APP_SPEC_PATH}}"@, c.paths.app_spec_file@),
                                    p,
                                    a,
                                    q,
                                ],
                            ),
                        },
                    },
                },
            },
        },
    }
}

/// A rendered command with its includes resolved.
fn command_text(rendered_template: Result<String, ForgerError>) -> (r: Result<String, ForgerError>)
    ensures
        match (r, rendered_template) {
            (Ok(s), Ok(t)) => match resolve_includes_spec(t@) {
                Ok(u) => s@ == u,
                Err(_) => false,
            },
            (Err(e), Ok(t)) => resolve_includes_spec(t@) == Err::<Seq<char>, Seq<char>>(e.message@),
            (Err(e), Err(e0)) => e.message@ == e0.message@,
            _ => false,
        },
{
    match rendered_template {
        Ok(t) => resolve_includes(t.as_str()),
        Err(e) => Err(e),
    }
}

/// Fills the placeholders of the `auto-init` command.
fn fill_init(t: String, stats: SpecStats, config: &Config) -> (r: String)
    ensures
        r@ == fill_auto_init(t@, stats, *config),
{
    proof {
        reveal_strlit("{{SPEC_FEATURE_COUNT}}");
        reveal_strlit("{{SPEC_ENDPOINT_COUNT}}");
        reveal_strlit("{{APP_SPEC_PATH}}");
        reveal_strlit("{{FEATURE_CATEGORY_LIST}}");
        reveal_strlit("{{PRIORITY_LEVEL_LIST}}");
        reveal_strlit("{{REQUIRE_VERIFICATION_COMMAND}}");
        reveal_strlit("{{NARROW_TEST_MIN_STEPS}}");
        reveal_strlit("{{NARROW_TEST_MAX_STEPS}}");
        reveal_strlit("{{COMPREHENSIVE_TEST_MIN_STEPS}}");
        reveal_strlit("{{MIN_FEATURES_REQUIRED}}");
        reveal_strlit("{{MIN_TABLES_REQUIRED}}");
        reveal_strlit("{{MIN_ENDPOINTS_REQUIRED}}");
        reveal_strlit("{{MIN_IMPLEMENTATION_STEPS_REQUIRED}}");
    }
    let r = config.generation.requirements();
    let f = &config.features;
    let a = replace_owned(t, "{{SPEC_FEATURE_COUNT}}", decimal_string(stats.feature_count as u64).as_str());
    let b = replace_owned(a, "{{SPEC_ENDPOINT_COUNT}}", decimal_string(stats.endpoint_count as u64).as_str());
    let d = replace_owned(b, "{{APP_SPEC_PATH}}", config.paths.app_spec_file.as_str());
    let e = replace_owned(d, "{{FEATURE_CATEGORY_LIST}}", join_strings(&f.categories, ", ").as_str());
    let g0 = replace_owned(e, "{{PRIORITY_LEVEL_LIST}}", join_strings(&f.priorities, ", ").as_str());
    let word = if f.require_verification_command { "Required" } else { "Optional" };
    let g = replace_owned(g0, "{{REQUIRE_VERIFICATION_COMMAND}}", word);
    let h = replace_owned(g, "{{NARROW_TEST_MIN_STEPS}}", decimal_string(f.narrow_test_min_steps as u64).as_str());
    let i = replace_owned(h, "{{NARROW_TEST_MAX_STEPS}}", decimal_string(f.narrow_test_max_steps as u64).as_str());
    let j = replace_owned(
        i,
        "{{COMPREHENSIVE_TEST_MIN_STEPS}}",
        decimal_string(f.comprehensive_test_min_steps as u64).as_str(),
    );
    let k = replace_owned(j, "{{MIN_FEATURES_REQUIRED}}", decimal_string(r.min_features as u64).as_str());
    let l = replace_owned(k, "{{MIN_TABLES_REQUIRED}}", decimal_string(r.min_database_tables as u64).as_str());
    let m = replace_owned(l, "{{MIN_ENDPOINTS_REQUIRED}}", decimal_string(r.min_api_endpoints as u64).as_str());
    replace_owned(
        m,
        "{{MIN_IMPLEMENTATION_STEPS_REQUIRED}}",
        decimal_string(r.min_implementation_steps as u64).as_str(),
    )
}

/// The texts written under `.opencode`.
fn opencode_texts(stats: SpecStats, config: &Config) -> (r: Result<Vec<String>, ForgerError>)
    ensures
        match (r, opencode_texts_spec(stats, *config)) {
            (Ok(v), Ok(t)) => views(v@) == t,
            (Err(e), Err(m)) => e.message@ == m,
            _ => false,
        },
{
    proof {
        reveal_strlit("{{APP_SPEC_PATH}}");
        reveal_strlit("{{REGRESSION_SAMPLE_SIZE}}");
    }
    let init = match command_text(auto_init_template()) {
        Ok(s) => s,
        Err(e) => return Err(e),
    };
    let cont = match command_text(auto_continue_template()) {
        Ok(s) => s,
        Err(e) => return Err(e),
    };
    let enh = match auto_enhance_template() {
        Ok(s) => s,
        Err(e) => return Err(e),
    };
    let p = match spec_product_agent() {
        Ok(s) => s,
        Err(e) => return Err(e),
    };
    let a = match spec_architecture_agent() {
        Ok(s) => s,
        Err(e) => return Err(e),
    };
    let q = match spec_quality_agent() {
        Ok(s) => s,
        Err(e) => return Err(e),
    };
    let mut v: Vec<String> = Vec::new();
    push_owned(&mut v, fill_init(init, stats, config));
    let c1 = replace_owned(cont, "{{APP_SPEC_PATH}}", config.paths.app_spec_file.as_str());
    push_owned(
        &mut v,
        replace_owned(
            c1,
            "{{REGRESSION_SAMPLE_SIZE}}",
            decimal_string(config.agent.verification_sample_size as u64).as_str(),
        ),
    );
    push_owned(&mut v, replace_owned(enh, "{{APP_SPEC_PATH}}", config.paths.app_spec_file.as_str()));
    push_owned(&mut v, p);
    push_owned(&mut v, a);
    push_owned(&mut v, q);
    proof {
        match opencode_texts_spec(stats, *config) {
            Ok(t) => {
                assert(views(v@) =~= t);
            },
            Err(_) => {},
        }
    }
    Ok(v)
}

// ---------------------------------------------------------------------------
// The plan
// ---------------------------------------------------------------------------

/// What a scaffolding step does.
#[derive(Debug, Clone, Copy, PartialEq, Eq, Structural)]
pub enum StepKind {
    /// Create a directory and its parents.
    CreateDir,
    /// Write a file (creating its parent directory), replacing it.
    WriteFile,
    /// Write a file only when it does not exist yet.
    WriteIfAbsent,
    /// Create (or open) the progress database.
    OpenDatabase,
    /// Initialize a git repository when the directory holds none.
    GitInit,
}

/// One step of a scaffolding plan, with the message shown once it is done
/// and the one shown when it is skipped because its target exists.
#[derive(Debug, Clone)]
pub struct ScaffoldStep {
    pub kind: StepKind,
    pub path: String,
    pub content: String,
    pub message: String,
    pub existing_message: String,
}

/// A step as plain values: kind, path, content, message, message when skipped.
pub open spec fn step_view(s: ScaffoldStep) -> (StepKind, Seq<char>, Seq<char>, Seq<char>, Seq<char>) {
    (s.kind, s.path@, s.content@, s.message@, s.existing_message@)
}

/// The steps of a plan as plain values.
pub open spec fn steps_view(v: Seq<ScaffoldStep>) -> Seq<(StepKind, Seq<char>, Seq<char>, Seq<char>, Seq<char>)> {
    v.map_values(|s: ScaffoldStep| step_view(s))
}

/// A step as plain values.
pub open spec fn step(kind: StepKind, path: Seq<char>, content: Seq<char>, message: Seq<char>, existing: Seq<char>) -> (
    StepKind,
    Seq<char>,
    Seq<char>,
    Seq<char>,
    Seq<char>,
) {
    (kind, path, content, message, existing)
}

/// The statistics scaffolding reads from a specification.
pub open spec fn scaffold_stats(spec_content: Seq<char>, c: Config) -> SpecStats {
    validate_text_spec(
        spec_content,
        Some(
            ValidationRules {
                requirements: requirements_for(is_minimal(c.generation.complexity@)),
                include_security_section: c.generation.include_security_section,
                include_testing_strategy: c.generation.include_testing_strategy,
                include_devops_section: c.generation.include_devops_section,
                include_accessibility: c.generation.include_accessibility,
                include_future_enhancements: c.generation.include_future_enhancements,
            },
        ),
    ).3
}

/// The first steps: directories, the specification, and the commands.
pub open spec fn plan_head(out: Seq<char>, spec_content: Seq<char>, c: Config, texts: Seq<Seq<char>>) -> Seq<
    (StepKind, Seq<char>, Seq<char>, Seq<char>, Seq<char>),
> {
    let opencode = join_path(out, ".opencode"@);
    let command = join_path(opencode, "command"@);
    let agent = join_path(opencode, "agent"@);
    let spec_path = scaffold_path_spec(out, c.paths.app_spec_file@);
    let on = c.scaffolding.create_opencode_dir;
    seq![step(StepKind::CreateDir, join_path(out, ".forger"@), Seq::empty(), Seq::empty(), Seq::empty())] + (if on {
        seq![
            step(StepKind::CreateDir, command, Seq::empty(), Seq::empty(), Seq::empty()),
            step(StepKind::CreateDir, agent, Seq::empty(), Seq::empty(), Seq::empty()),
        ]
    } else {
        seq![]
    }) + seq![step(StepKind::WriteFile, spec_path, spec_content, "   📄 Created "@ + spec_path, Seq::empty())] + (if on {
        seq![
            step(StepKind::WriteFile, join_path(command, "auto-init.md"@), texts[0], "   📄 Created .opencode/command/auto-init.md"@, Seq::empty()),
            step(StepKind::WriteFile, join_path(command, "auto-continue.md"@), texts[1], "   📄 Created .opencode/command/auto-continue.md"@, Seq::empty()),
            step(StepKind::WriteFile, join_path(command, "auto-enhance.md"@), texts[2], "   📄 Created .opencode/command/auto-enhance.md"@, Seq::empty()),
        ]
    } else {
        seq![]
    })
}

/// The middle steps: allowlist, database, configuration and subagents.
pub open spec fn plan_middle(out: Seq<char>, c: Config, texts: Seq<Seq<char>>) -> Seq<
    (StepKind, Seq<char>, Seq<char>, Seq<char>, Seq<char>),
> {
    let agent = join_path(join_path(out, ".opencode"@), "agent"@);
    let allowlist = scaffold_path_spec(out, c.security.allowlist_file@);
    let db = scaffold_path_spec(out, c.paths.database_file@);
    seq![
        step(StepKind::WriteFile, allowlist, SECURITY_ALLOWLIST@, "   📄 Created "@ + allowlist, Seq::empty()),
        step(StepKind::OpenDatabase, db, Seq::empty(), "   🗃️  Created "@ + db, Seq::empty()),
        step(
            StepKind::WriteIfAbsent,
            join_path(out, "forger.toml"@),
            USER_CONFIG_TEMPLATE@,
            "   ⚙️  Created forger.toml"@,
            "   ⚙️  Using existing forger.toml"@,
        ),
    ] + (if c.scaffolding.create_opencode_dir {
        seq![
            step(StepKind::WriteFile, join_path(agent, "spec-product.md"@), texts[3], "   🤖 Created .opencode/agent/spec-product.md"@, Seq::empty()),
            step(StepKind::WriteFile, join_path(agent, "spec-architecture.md"@), texts[4], "   🤖 Created .opencode/agent/spec-architecture.md"@, Seq::empty()),
            step(StepKind::WriteFile, join_path(agent, "spec-quality.md"@), texts[5], "   🤖 Created .opencode/agent/spec-quality.md"@, Seq::empty()),
        ]
    } else {
        seq![]
    })
}

/// The last steps: ignore file, OpenCode settings, scripts, git, AGENTS.md.
pub open spec fn plan_tail(out: Seq<char>, c: Config) -> Seq<(StepKind, Seq<char>, Seq<char>, Seq<char>, Seq<char>)> {
    let scripts = join_path(out, "scripts"@);
    seq![
        step(StepKind::WriteIfAbsent, join_path(out, ".gitignore"@), gitignore_spec(c), "   📝 Created .gitignore"@, Seq::empty()),
        step(StepKind::WriteFile, join_path(out, "opencode.json"@), opencode_json_spec(c), "   ⚙️  Created opencode.json"@, Seq::empty()),
    ] + (if c.scaffolding.create_scripts_dir {
        seq![step(StepKind::CreateDir, scripts, Seq::empty(), "   📁 Created "@ + scripts, Seq::empty())]
    } else {
        seq![]
    }) + (if c.scaffolding.git_init {
        seq![step(StepKind::GitInit, join_path(out, ".git"@), Seq::empty(), "   🌱 Initialized git repository"@, Seq::empty())]
    } else {
        seq![]
    }) + seq![step(StepKind::WriteIfAbsent, join_path(out, "AGENTS.md"@), AGENTS_MD_TEMPLATE@, "   📝 Created AGENTS.md"@, Seq::empty())]
}

/// The plan for scaffolding `out` with a specification's text: the steps in
/// order, or the error of the first template that does not render.
pub open spec fn plan_spec(out: Seq<char>, spec_content: Seq<char>, c: Config) -> Result<
    Seq<(StepKind, Seq<char>, Seq<char>, Seq<char>, Seq<char>)>,
    Seq<char>,
> {
    let texts = if c.scaffolding.create_opencode_dir {
        opencode_texts_spec(scaffold_stats(spec_content, c), c)
    } else {
        Ok(seq![])
    };
    match texts {
        Err(m) => Err(m),
        Ok(t) => Ok(plan_head(out, spec_content, c, t) + plan_middle(out, c, t) + plan_tail(out, c)),
    }
}

/// A plan writes the specification's text, unchanged, to the configured
/// specification path (the one its opencode.json points the agents to), and
/// always writes the configuration for OpenCode and AGENTS.md.
pub proof fn lemma_plan_writes_spec(out: Seq<char>, spec_content: Seq<char>, c: Config)
    requires
        plan_spec(out, spec_content, c) is Ok,
    ensures
        ({
            let p = plan_spec(out, spec_content, c)->Ok_0;
            let spec_path = scaffold_path_spec(out, c.paths.app_spec_file@);
            &&& exists|i: int| 0 <= i < p.len() && (#[trigger] p[i]).0 == StepKind::WriteFile && p[i].1 == spec_path
                && p[i].2 == spec_content
            &&& exists|i: int| 0 <= i < p.len() && (#[trigger] p[i]).0 == StepKind::WriteFile && p[i].1 == join_path(
                out,
                "opencode.json"@,
            ) && p[i].2 == opencode_json_spec(c)
            &&& p.last().0 == StepKind::WriteIfAbsent && p.last().1 == join_path(out, "AGENTS.md"@)
        }),
{
    let texts = if c.scaffolding.create_opencode_dir {
        opencode_texts_spec(scaffold_stats(spec_content, c), c)
    } else {
        Ok(seq![])
    };
    let t = texts->Ok_0;
    let head = plan_head(out, spec_content, c, t);
    let middle = plan_middle(out, c, t);
    let tail = plan_tail(out, c);
    let p = head + middle + tail;
    assert(plan_spec(out, spec_content, c)->Ok_0 == p);
    let k: int = if c.scaffolding.create_opencode_dir { 3 } else { 1 };
    assert(head[k].2 == spec_content);
    assert(p[k] == head[k]);
    let j: int = (head.len() + middle.len() + 1) as int;
    assert(tail[1].1 == join_path(out, "opencode.json"@));
    assert(p[j] == tail[1]);
    assert(p.last() == tail.last());
}

/// With the OpenCode directory on, a plan writes each command file under
/// `.opencode/command` with its own template: `auto-init.md` and
/// `auto-continue.md` get their rendered templates, includes resolved and
/// placeholders filled from the configuration, and `auto-enhance.md` its
/// rendered template with the specification path filled in.
pub proof fn lemma_plan_writes_commands(out: Seq<char>, spec_content: Seq<char>, c: Config)
    requires
        plan_spec(out, spec_content, c) is Ok,
        c.scaffolding.create_opencode_dir,
    ensures
        ({
            let p = plan_spec(out, spec_content, c)->Ok_0;
            let command = join_path(join_path(out, ".opencode"@), "command"@);
            let stats = scaffold_stats(spec_content, c);
            &&& command_with_includes(AUTO_INIT_TEMPLATE@) is Ok
            &&& command_with_includes(AUTO_CONTINUE_TEMPLATE@) is Ok
            &&& rendered(AUTO_ENHANCE_TEMPLATE@) is Ok
            &&& exists|i: int| 0 <= i < p.len() && (#[trigger] p[i]).0 == StepKind::WriteFile
                && p[i].1 == join_path(command, "auto-init.md"@)
                && p[i].2 == fill_auto_init(command_with_includes(AUTO_INIT_TEMPLATE@)->Ok_0, stats, c)
            &&& exists|i: int| 0 <= i < p.len() && (#[trigger] p[i]).0 == StepKind::WriteFile
                && p[i].1 == join_path(command, "auto-continue.md"@)
                && p[i].2 == fill_auto_continue(command_with_includes(AUTO_CONTINUE_TEMPLATE@)->Ok_0, c)
            &&& exists|i: int| 0 <= i < p.len() && (#[trigger] p[i]).0 == StepKind::WriteFile
                && p[i].1 == join_path(command, "auto-enhance.md"@)
                && p[i].2 == replace_spec(rendered(AUTO_ENHANCE_TEMPLATE@)->Ok_0, "{{APP_SPEC_PATH}}"@, c.paths.app_spec_file@)
        }),
{
    let stats = scaffold_stats(spec_content, c);
    let texts = opencode_texts_spec(stats, c);
    let t = texts->Ok_0;
    let head = plan_head(out, spec_content, c, t);
    let middle = plan_middle(out, c, t);
    let tail = plan_tail(out, c);
    let p = head + middle + tail;
    assert(plan_spec(out, spec_content, c)->Ok_0 == p);
    assert(p[4] == head[4]);
    assert(p[5] == head[5]);
    assert(p[6] == head[6]);
}

/// Appends a step.
fn push_step(steps: &mut Vec<ScaffoldStep>, kind: StepKind, path: String, content: String, message: String, existing: String)
    ensures
        steps_view(final(steps)@) == steps_view(old(steps)@).push(step(kind, path@, content@, message@, existing@)),
{
    let s = ScaffoldStep { kind, path, content, message, existing_message: existing };
    let ghost v = step_view(s);
    steps.push(s);
    proof {
        assert(steps_view(steps@) =~= steps_view(old(steps)@).push(v));
    }
}

/// Appends the first steps.
fn push_head(steps: &mut Vec<ScaffoldStep>, out: &str, spec_content: &str, config: &Config, texts: &Vec<String>)
    requires
        config.scaffolding.create_opencode_dir ==> texts@.len() == 6,
    ensures
        steps_view(final(steps)@) == steps_view(old(steps)@) + plan_head(out@, spec_content@, *config, views(texts@)),
{
    let ghost start = steps_view(steps@);
    let opencode = join_path_str(out, ".opencode");
    let command = join_path_str(opencode.as_str(), "command");
    let agent = join_path_str(opencode.as_str(), "agent");
    let spec_path = resolve_scaffold_path(out, config.paths.app_spec_file.as_str());
    let on = config.scaffolding.create_opencode_dir;
    push_step(steps, StepKind::CreateDir, join_path_str(out, ".forger"), String::new(), String::new(), String::new());
    if on {
        push_step(steps, StepKind::CreateDir, command.clone(), String::new(), String::new(), String::new());
        push_step(steps, StepKind::CreateDir, agent, String::new(), String::new(), String::new());
    }
    let msg = concat2("   📄 Created ", spec_path.as_str());
    push_step(steps, StepKind::WriteFile, spec_path, owned(spec_content), msg, String::new());
    let ghost mid = steps_view(steps@);
    if on {
        push_step(
            steps,
            StepKind::WriteFile,
            join_path_str(command.as_str(), "auto-init.md"),
            texts[0].clone(),
            owned("   📄 Created .opencode/command/auto-init.md"),
            String::new(),
        );
        push_step(
            steps,
            StepKind::WriteFile,
            join_path_str(command.as_str(), "auto-continue.md"),
            texts[1].clone(),
            owned("   📄 Created .opencode/command/auto-continue.md"),
            String::new(),
        );
        push_step(
            steps,
            StepKind::WriteFile,
            join_path_str(command.as_str(), "auto-enhance.md"),
            texts[2].clone(),
            owned("   📄 Created .opencode/command/auto-enhance.md"),
            String::new(),
        );
    }
    assert(steps_view(steps@) =~= start + plan_head(out@, spec_content@, *config, views(texts@)));
}

/// Appends the middle steps.
fn push_middle(steps: &mut Vec<ScaffoldStep>, out: &str, config: &Config, texts: &Vec<String>)
    requires
        config.scaffolding.create_opencode_dir ==> texts@.len() == 6,
    ensures
        steps_view(final(steps)@) == steps_view(old(steps)@) + plan_middle(out@, *config, views(texts@)),
{
    let ghost start = steps_view(steps@);
    let opencode = join_path_str(out, ".opencode");
    let agent = join_path_str(opencode.as_str(), "agent");
    let allowlist = resolve_scaffold_path(out, config.security.allowlist_file.as_str());
    let db = resolve_scaffold_path(out, config.paths.database_file.as_str());
    let m1 = concat2("   📄 Created ", allowlist.as_str());
    push_step(steps, StepKind::WriteFile, allowlist, owned(SECURITY_ALLOWLIST), m1, String::new());
    let m2 = concat2("   🗃️  Created ", db.as_str());
    push_step(steps, StepKind::OpenDatabase, db, String::new(), m2, String::new());
    push_step(
        steps,
        StepKind::WriteIfAbsent,
        join_path_str(out, "forger.toml"),
        owned(USER_CONFIG_TEMPLATE),
        owned("   ⚙️  Created forger.toml"),
        owned("   ⚙️  Using existing forger.toml"),
    );
    let ghost mid = steps_view(steps@);
    if config.scaffolding.create_opencode_dir {
        push_step(
            steps,
            StepKind::WriteFile,
            join_path_str(agent.as_str(), "spec-product.md"),
            texts[3].clone(),
            owned("   🤖 Created .opencode/agent/spec-product.md"),
            String::new(),
        );
        push_step(
            steps,
            StepKind::WriteFile,
            join_path_str(agent.as_str(), "spec-architecture.md"),
            texts[4].clone(),
            owned("   🤖 Created .opencode/agent/spec-architecture.md"),
            String::new(),
        );
        push_step(
            steps,
            StepKind::WriteFile,
            join_path_str(agent.as_str(), "spec-quality.md"),
            texts[5].clone(),
            owned("   🤖 Created .opencode/agent/spec-quality.md"),
            String::new(),
        );
    }
    assert(steps_view(steps@) =~= start + plan_middle(out@, *config, views(texts@)));
}

/// Appends the last steps.
fn push_tail(steps: &mut Vec<ScaffoldStep>, out: &str, config: &Config)
    ensures
        steps_view(final(steps)@) == steps_view(old(steps)@) + plan_tail(out@, *config),
{
    let ghost start = steps_view(steps@);
    push_step(
        steps,
        StepKind::WriteIfAbsent,
        join_path_str(out, ".gitignore"),
        generate_gitignore(config),
        owned("   📝 Created .gitignore"),
        String::new(),
    );
    push_step(
        steps,
        StepKind::WriteFile,
        join_path_str(out, "opencode.json"),
        generate_opencode_json(config),
        owned("   ⚙️  Created opencode.json"),
        String::new(),
    );
    let ghost a = steps_view(steps@);
    if config.scaffolding.create_scripts_dir {
        let scripts = join_path_str(out, "scripts");
        let m = concat2("   📁 Created ", scripts.as_str());
        push_step(steps, StepKind::CreateDir, scripts, String::new(), m, String::new());
    }
    let ghost b = steps_view(steps@);
    if config.scaffolding.git_init {
        push_step(
            steps,
            StepKind::GitInit,
            join_path_str(out, ".git"),
            String::new(),
            owned("   🌱 Initialized git repository"),
            String::new(),
        );
    }
    push_step(
        steps,
        StepKind::WriteIfAbsent,
        join_path_str(out, "AGENTS.md"),
        owned(AGENTS_MD_TEMPLATE),
        owned("   📝 Created AGENTS.md"),
        String::new(),
    );
    assert(steps_view(steps@) =~= start + plan_tail(out@, *config));
}

/// The plan for scaffolding a directory with a specification's text.
pub fn scaffold_with_spec_text(output_dir: &str, spec_content: &str, config: &Config) -> (r: Result<Vec<ScaffoldStep>, ForgerError>)
    ensures
        match (r, plan_spec(output_dir@, spec_content@, *config)) {
            (Ok(v), Ok(p)) => steps_view(v@) == p,
            (Err(e), Err(m)) => e.message@ == m,
            _ => false,
        },
{
    let texts = if config.scaffolding.create_opencode_dir {
        let stats = match validate_spec_with_config(spec_content, config) {
            Ok(v) => v.stats,
            Err(e) => return Err(e),
        };
        match opencode_texts(stats, config) {
            Ok(t) => t,
            Err(e) => return Err(e),
        }
    } else {
        Vec::new()
    };
    proof {
        if config.scaffolding.create_opencode_dir {
            assert(views(texts@).len() == 6);
        }
    }
    let mut steps: Vec<ScaffoldStep> = Vec::new();
    push_head(&mut steps, output_dir, spec_content, config, &texts);
    push_middle(&mut steps, output_dir, config, &texts);
    push_tail(&mut steps, output_dir, config);
    proof {
        assert(steps_view(steps@) =~= plan_head(output_dir@, spec_content@, *config, views(texts@))
            + plan_middle(output_dir@, *config, views(texts@)) + plan_tail(output_dir@, *config));
        if !config.scaffolding.create_opencode_dir {
            assert(views(texts@) =~= Seq::<Seq<char>>::empty());
        }
    }
    Ok(steps)
}

/// The plan for scaffolding a directory with the default specification.
pub fn scaffold_default(output_dir: &str, config: &Config) -> (r: Result<Vec<ScaffoldStep>, ForgerError>)
    ensures
        match (r, plan_spec(output_dir@, DEFAULT_APP_SPEC@, *config)) {
            (Ok(v), Ok(p)) => steps_view(v@) == p,
            (Err(e), Err(m)) => e.message@ == m,
            _ => false,
        },
{
    scaffold_with_spec_text(output_dir, DEFAULT_APP_SPEC, config)
}

/// The plan for scaffolding a directory with the text of a specification
/// file (read by the caller).
pub fn scaffold_custom(output_dir: &str, spec_content: &str, config: &Config) -> (r: Result<Vec<ScaffoldStep>, ForgerError>)
    ensures
        match (r, plan_spec(output_dir@, spec_content@, *config)) {
            (Ok(v), Ok(p)) => steps_view(v@) == p,
            (Err(e), Err(m)) => e.message@ == m,
            _ => false,
        },
{
    scaffold_with_spec_text(output_dir, spec_content, config)
}

/// The plan for scaffolding a directory with a specification's text form.
pub fn scaffold_from_spec(output_dir: &str, spec: &AppSpec, config: &Config) -> (r: Result<Vec<ScaffoldStep>, ForgerError>)
    ensures
        match (r, plan_spec(output_dir@, spec_text(*spec), *config)) {
            (Ok(v), Ok(p)) => steps_view(v@) == p,
            (Err(e), Err(m)) => e.message@ == m,
            _ => false,
        },
{
    let text = spec.to_spec_text();
    scaffold_with_spec_text(output_dir, text.as_str(), config)
}

// ---------------------------------------------------------------------------
// Dry run
// ---------------------------------------------------------------------------

/// The lines a dry run prints: the directories and files that scaffolding
/// `out` would create under the configuration.
pub open spec fn preview_spec(out: Seq<char>, c: Config) -> Seq<Seq<char>> {
    let opencode = join_path(out, ".opencode"@);
    let command = join_path(opencode, "command"@);
    let on = c.scaffolding.create_opencode_dir;
    seq![
        "\n📋 Preview: Files that would be created"@,
        repeat_char('─', 50),
        "\nDirectories:"@,
        "   📁 "@ + join_path(out, ".forger"@),
    ] + (if on { seq!["   📁 "@ + opencode, "   📁 "@ + command] } else { seq![] }) + (if c.scaffolding.create_scripts_dir {
        seq!["   📁 "@ + join_path(out, "scripts"@)]
    } else {
        seq![]
    }) + seq!["\nFiles:"@, "   📄 "@ + scaffold_path_spec(out, c.paths.app_spec_file@)] + (if on {
        seq![
            "   📄 "@ + join_path(command, "auto-init.md"@),
            "   📄 "@ + join_path(command, "auto-continue.md"@),
            "   📄 "@ + join_path(command, "auto-enhance.md"@),
        ]
    } else {
        seq![]
    }) + seq![
        "   📄 "@ + scaffold_path_spec(out, c.security.allowlist_file@),
        "   🗃️  "@ + scaffold_path_spec(out, c.paths.database_file@),
        "   ⚙️  "@ + join_path(out, "forger.toml"@),
        "   ⚙️  "@ + join_path(out, "opencode.json"@),
        "   📝 "@ + join_path(out, "AGENTS.md"@),
        "\n"@ + repeat_char('─', 50),
        "Run without --dry-run to create these files."@,
    ]
}

/// Appends `label` followed by `path`.
fn push_labelled(lines: &mut Vec<String>, label: &str, path: String)
    ensures
        views(final(lines)@) == views(old(lines)@).push(label@ + path@),
{
    let ghost before = views(lines@);
    let mut s = owned(label);
    push_str(&mut s, path.as_str());
    lines.push(s);
    assert(views(lines@) =~= before.push(label@ + path@));
}

/// What a dry run lists for `output_dir`, one entry per printed line.
pub fn preview_scaffold(output_dir: &str, config: &Config) -> (lines: Vec<String>)
    ensures
        views(lines@) == preview_spec(output_dir@, *config),
{
    let out = output_dir;
    let opencode = join_path_str(out, ".opencode");
    let command = join_path_str(opencode.as_str(), "command");
    let on = config.scaffolding.create_opencode_dir;
    let mut lines: Vec<String> = Vec::new();
    push_lit(&mut lines, "\n📋 Preview: Files that would be created");
    push_owned(&mut lines, repeat_str('─', 50));
    push_lit(&mut lines, "\nDirectories:");
    push_labelled(&mut lines, "   📁 ", join_path_str(out, ".forger"));
    let ghost a = views(lines@);
    if on {
        push_labelled(&mut lines, "   📁 ", owned(opencode.as_str()));
        push_labelled(&mut lines, "   📁 ", owned(command.as_str()));
    }
    if config.scaffolding.create_scripts_dir {
        push_labelled(&mut lines, "   📁 ", join_path_str(out, "scripts"));
    }
    push_lit(&mut lines, "\nFiles:");
    push_labelled(&mut lines, "   📄 ", resolve_scaffold_path(out, config.paths.app_spec_file.as_str()));
    let ghost b = views(lines@);
    if on {
        push_labelled(&mut lines, "   📄 ", join_path_str(command.as_str(), "auto-init.md"));
        push_labelled(&mut lines, "   📄 ", join_path_str(command.as_str(), "auto-continue.md"));
        push_labelled(&mut lines, "   📄 ", join_path_str(command.as_str(), "auto-enhance.md"));
    }
    let ghost c = views(lines@);
    push_labelled(&mut lines, "   📄 ", resolve_scaffold_path(out, config.security.allowlist_file.as_str()));
    push_labelled(&mut lines, "   🗃️  ", resolve_scaffold_path(out, config.paths.database_file.as_str()));
    push_labelled(&mut lines, "   ⚙️  ", join_path_str(out, "forger.toml"));
    push_labelled(&mut lines, "   ⚙️  ", join_path_str(out, "opencode.json"));
    push_labelled(&mut lines, "   📝 ", join_path_str(out, "AGENTS.md"));
    push_labelled(&mut lines, "\n", repeat_str('─', 50));
    push_lit(&mut lines, "Run without --dry-run to create these files.");
    proof {
        let p = preview_spec(output_dir@, *config);
        assert(views(lines@) =~= p);
    }
    lines
}

} // verus!
