//! The configuration editor: its sections and fields, the value an edit
//! starts from, how a finished edit changes the configuration, and how the
//! editor reacts to keys. MCP tools known to the machine are passed in.

use vstd::prelude::*;
use super::keys::{Key, is_down, is_left, is_right, is_up, key_down, key_left, key_right, key_up};
use crate::config::Config;
use crate::text::{
    bool_string, bool_text, decimal, decimal_string, eq_ignore_case, owned, parse_u64, parse_u64_spec,
    push_char, push_owned, str_eq_ignore_case, views,
};

verus! {

/// The editor's sections, in order.
pub open spec fn section_names() -> Seq<Seq<char>> {
    seq![
        "Models"@, "Autonomous"@, "Agent"@, "Recovery"@, "MCP"@, "Generation"@, "Security"@, "UI"@,
        "Notifications"@, "Conductor"@, "Paths"@,
    ]
}

/// How many sections the editor has.
pub open spec fn section_count() -> usize {
    11
}

/// The editor's section names.
pub fn sections() -> (v: Vec<String>)
    ensures
        views(v@) == section_names(),
{
    let mut v: Vec<String> = Vec::new();
    push_owned(&mut v, owned("Models"));
    push_owned(&mut v, owned("Autonomous"));
    push_owned(&mut v, owned("Agent"));
    push_owned(&mut v, owned("Recovery"));
    push_owned(&mut v, owned("MCP"));
    push_owned(&mut v, owned("Generation"));
    push_owned(&mut v, owned("Security"));
    push_owned(&mut v, owned("UI"));
    push_owned(&mut v, owned("Notifications"));
    push_owned(&mut v, owned("Conductor"));
    push_owned(&mut v, owned("Paths"));
    assert(views(v@) =~= section_names());
    v
}

/// A number as shown.
pub open spec fn num(n: u32) -> Seq<char> {
    decimal(n as nat)
}

/// A row of the MCP section for a known tool: the tool and whether it is
/// required.
pub open spec fn tool_rows(required: Seq<Seq<char>>, tools: Seq<Seq<char>>) -> Seq<(Seq<char>, Seq<char>)> {
    tools.map_values(|t: Seq<char>| (t, bool_text(required.contains(t))))
}

/// The labelled values a section shows.
pub open spec fn fields_spec(c: Config, section: nat, tools: Seq<Seq<char>>) -> Seq<(Seq<char>, Seq<char>)> {
    if section == 0 {
        seq![
            ("Autonomous Model"@, c.models.autonomous@),
            ("Default/Spec Model"@, c.models.default@),
            ("Reasoning Model"@, c.models.reasoning@),
            ("Enhancement Model"@, c.models.enhancement@),
            ("Fixer Model"@, c.models.fixer@),
        ]
    } else if section == 1 {
        seq![
            ("Max Iterations"@, num(c.autonomous.max_iterations)),
            ("Delay (sec)"@, num(c.autonomous.delay_between_sessions)),
            ("Timeout (min)"@, num(c.autonomous.session_timeout_minutes)),
            ("Auto Commit"@, bool_text(c.autonomous.auto_commit)),
            ("Log Level"@, c.autonomous.log_level@),
        ]
    } else if section == 2 {
        seq![
            ("Max Retries"@, num(c.agent.max_retry_attempts)),
            ("Max Research"@, num(c.agent.max_research_attempts)),
            ("Single Focus"@, bool_text(c.agent.single_feature_focus)),
        ]
    } else if section == 3 {
        seq![
            ("Enabled"@, bool_text(c.alternative_approaches.enabled)),
            ("Approaches"@, num(c.alternative_approaches.num_approaches)),
            ("Retry Threshold"@, num(c.alternative_approaches.retry_threshold)),
            ("Cache Results"@, bool_text(c.alternative_approaches.cache_results)),
            ("Cache Dir"@, c.alternative_approaches.cache_dir@),
        ]
    } else if section == 4 {
        seq![
            ("OsGrep"@, bool_text(c.mcp.prefer_osgrep)),
            ("Sequential"@, bool_text(c.mcp.use_sequential_thinking)),
        ] + tool_rows(views(c.mcp.required_tools@), tools)
    } else if section == 5 {
        seq![
            ("Complexity"@, c.generation.complexity@),
            ("Subagents"@, bool_text(c.generation.enable_subagents)),
        ]
    } else if section == 6 {
        seq![
            ("Allowlist File"@, c.security.allowlist_file@),
            ("Strict"@, bool_text(c.security.enforce_allowlist)),
        ]
    } else if section == 7 {
        seq![
            ("Spec Preview Lines"@, num(c.ui.spec_preview_lines)),
            ("Verbose"@, bool_text(c.ui.verbose)),
        ]
    } else if section == 8 {
        seq![
            ("Webhook Enabled"@, bool_text(c.notifications.webhook_enabled)),
            ("Webhook URL"@, match c.notifications.webhook_url { Some(u) => u@, None => Seq::empty() }),
        ]
    } else if section == 9 {
        seq![
            ("Context Dir"@, c.conductor.context_dir@),
            ("Tracks Dir"@, c.conductor.tracks_dir@),
            ("Auto Setup"@, bool_text(c.conductor.auto_setup)),
            ("Planning Mode"@, c.conductor.planning_mode@),
            ("Checkpoint Freq"@, num(c.conductor.checkpoint_frequency)),
        ]
    } else if section == 10 {
        seq![
            ("Log Dir"@, c.paths.log_dir@),
            ("VS Cache Dir"@, c.paths.vs_cache_dir@),
            ("Database File"@, c.paths.database_file@),
            ("App Spec File"@, c.paths.app_spec_file@),
        ]
    } else {
        seq![("Placeholder"@, "Value"@)]
    }
}

/// Appends a labelled value.
fn push_field(v: &mut Vec<(String, String)>, label: &str, value: String)
    ensures
        field_views(final(v)@) == field_views(old(v)@).push((label@, value@)),
{
    let ghost val = value@;
    v.push((owned(label), value));
    assert(field_views(v@) =~= field_views(old(v)@).push((label@, val)));
}

/// Labelled values as plain values.
pub open spec fn field_views(v: Seq<(String, String)>) -> Seq<(Seq<char>, Seq<char>)> {
    v.map_values(|f: (String, String)| (f.0@, f.1@))
}

/// Whether a list of strings holds one with the given characters.
fn contains_str(list: &Vec<String>, s: &str) -> (b: bool)
    ensures
        b == views(list@).contains(s@),
{
    let mut i: usize = 0;
    while i < list.len()
        invariant
            i <= list@.len(),
            forall|k: int| 0 <= k < i ==> #[trigger] views(list@)[k] != s@,
        decreases list.len() - i,
    {
        if crate::template_xml::chars_eq(
            crate::text::to_chars(list[i].as_str()).as_slice(),
            crate::text::to_chars(s).as_slice(),
        ) {
            assert(views(list@)[i as int] == s@);
            return true;
        }
        i = i + 1;
    }
    false
}

/// The labelled values of the models, autonomous, agent and recovery
/// sections.
fn fields_first(c: &Config, section: usize) -> (v: Vec<(String, String)>)
    requires
        section <= 3,
    ensures
        field_views(v@) == fields_spec(*c, section as nat, seq![]),
{
    let mut v: Vec<(String, String)> = Vec::new();
    if section == 0 {
        push_field(&mut v, "Autonomous Model", c.models.autonomous.clone());
        push_field(&mut v, "Default/Spec Model", c.models.default.clone());
        push_field(&mut v, "Reasoning Model", c.models.reasoning.clone());
        push_field(&mut v, "Enhancement Model", c.models.enhancement.clone());
        push_field(&mut v, "Fixer Model", c.models.fixer.clone());
    } else if section == 1 {
        push_field(&mut v, "Max Iterations", decimal_string(c.autonomous.max_iterations as u64));
        push_field(&mut v, "Delay (sec)", decimal_string(c.autonomous.delay_between_sessions as u64));
        push_field(&mut v, "Timeout (min)", decimal_string(c.autonomous.session_timeout_minutes as u64));
        push_field(&mut v, "Auto Commit", bool_string(c.autonomous.auto_commit));
        push_field(&mut v, "Log Level", c.autonomous.log_level.clone());
    } else if section == 2 {
        push_field(&mut v, "Max Retries", decimal_string(c.agent.max_retry_attempts as u64));
        push_field(&mut v, "Max Research", decimal_string(c.agent.max_research_attempts as u64));
        push_field(&mut v, "Single Focus", bool_string(c.agent.single_feature_focus));
    } else {
        push_field(&mut v, "Enabled", bool_string(c.alternative_approaches.enabled));
        push_field(&mut v, "Approaches", decimal_string(c.alternative_approaches.num_approaches as u64));
        push_field(&mut v, "Retry Threshold", decimal_string(c.alternative_approaches.retry_threshold as u64));
        push_field(&mut v, "Cache Results", bool_string(c.alternative_approaches.cache_results));
        push_field(&mut v, "Cache Dir", c.alternative_approaches.cache_dir.clone());
    }
    assert(field_views(v@) =~= fields_spec(*c, section as nat, seq![]));
    v
}

/// The labelled values of the sections after the MCP section.
fn fields_last(c: &Config, section: usize) -> (v: Vec<(String, String)>)
    requires
        section >= 5,
    ensures
        field_views(v@) == fields_spec(*c, section as nat, seq![]),
{
    let mut v: Vec<(String, String)> = Vec::new();
    if section == 5 {
        push_field(&mut v, "Complexity", c.generation.complexity.clone());
        push_field(&mut v, "Subagents", bool_string(c.generation.enable_subagents));
    } else if section == 6 {
        push_field(&mut v, "Allowlist File", c.security.allowlist_file.clone());
        push_field(&mut v, "Strict", bool_string(c.security.enforce_allowlist));
    } else if section == 7 {
        push_field(&mut v, "Spec Preview Lines", decimal_string(c.ui.spec_preview_lines as u64));
        push_field(&mut v, "Verbose", bool_string(c.ui.verbose));
    } else if section == 8 {
        push_field(&mut v, "Webhook Enabled", bool_string(c.notifications.webhook_enabled));
        let url = match &c.notifications.webhook_url {
            Some(u) => u.clone(),
            None => String::new(),
        };
        push_field(&mut v, "Webhook URL", url);
    } else if section == 9 {
        push_field(&mut v, "Context Dir", c.conductor.context_dir.clone());
        push_field(&mut v, "Tracks Dir", c.conductor.tracks_dir.clone());
        push_field(&mut v, "Auto Setup", bool_string(c.conductor.auto_setup));
        push_field(&mut v, "Planning Mode", c.conductor.planning_mode.clone());
        push_field(&mut v, "Checkpoint Freq", decimal_string(c.conductor.checkpoint_frequency as u64));
    } else if section == 10 {
        push_field(&mut v, "Log Dir", c.paths.log_dir.clone());
        push_field(&mut v, "VS Cache Dir", c.paths.vs_cache_dir.clone());
        push_field(&mut v, "Database File", c.paths.database_file.clone());
        push_field(&mut v, "App Spec File", c.paths.app_spec_file.clone());
    } else {
        push_field(&mut v, "Placeholder", owned("Value"));
    }
    assert(field_views(v@) =~= fields_spec(*c, section as nat, seq![]));
    v
}

/// The labelled values a section shows, with the machine's MCP tools.
pub fn config_fields(c: &Config, section: usize, tools: &Vec<String>) -> (v: Vec<(String, String)>)
    ensures
        field_views(v@) == fields_spec(*c, section as nat, views(tools@)),
{
    if section <= 3 {
        return fields_first(c, section);
    }
    if section >= 5 {
        return fields_last(c, section);
    }
    let mut v: Vec<(String, String)> = Vec::new();
    push_field(&mut v, "OsGrep", bool_string(c.mcp.prefer_osgrep));
    push_field(&mut v, "Sequential", bool_string(c.mcp.use_sequential_thinking));
    let ghost head = field_views(v@);
    let ghost req = views(c.mcp.required_tools@);
    let mut i: usize = 0;
    while i < tools.len()
        invariant
            i <= tools@.len(),
            req == views(c.mcp.required_tools@),
            field_views(v@) == head + tool_rows(req, views(tools@).subrange(0, i as int)),
        decreases tools.len() - i,
    {
        let enabled = contains_str(&c.mcp.required_tools, tools[i].as_str());
        push_field(&mut v, tools[i].as_str(), bool_string(enabled));
        i = i + 1;
        assert(field_views(v@) =~= head + tool_rows(req, views(tools@).subrange(0, i as int)));
    }
    assert(views(tools@).subrange(0, tools@.len() as int) =~= views(tools@));
    assert(field_views(v@) =~= fields_spec(*c, section as nat, views(tools@)));
    v
}

/// The value an edit of a field starts from. (This lookup has its own
/// table of sections, which past the recovery section does not follow the
/// fields shown.)
pub open spec fn edit_start_spec(c: Config, section: nat, field: nat) -> Seq<char> {
    if section == 0 {
        if field == 0 { c.models.autonomous@ } else if field == 1 { c.models.default@ } else if field == 2 {
            c.models.reasoning@
        } else if field == 3 { c.models.enhancement@ } else if field == 4 { c.models.fixer@ } else { Seq::empty() }
    } else if section == 1 {
        if field == 0 { num(c.autonomous.max_iterations) } else if field == 1 {
            num(c.autonomous.delay_between_sessions)
        } else if field == 2 { num(c.autonomous.session_timeout_minutes) } else if field == 3 {
            bool_text(c.autonomous.auto_commit)
        } else if field == 4 { c.autonomous.log_level@ } else { Seq::empty() }
    } else if section == 2 {
        if field == 0 { num(c.agent.max_retry_attempts) } else if field == 1 { num(c.agent.max_research_attempts) } else if field == 2 {
            bool_text(c.agent.single_feature_focus)
        } else { Seq::empty() }
    } else if section == 3 {
        if field == 0 { bool_text(c.alternative_approaches.enabled) } else if field == 1 {
            num(c.alternative_approaches.num_approaches)
        } else if field == 2 { num(c.alternative_approaches.retry_threshold) } else { Seq::empty() }
    } else if section == 4 {
        if field == 0 { bool_text(c.mcp.prefer_osgrep) } else if field == 1 { bool_text(c.mcp.use_sequential_thinking) } else {
            Seq::empty()
        }
    } else if section == 5 {
        if field == 0 { c.generation.complexity@ } else if field == 1 { bool_text(c.generation.include_accessibility) } else if field == 2 {
            bool_text(c.generation.include_security_section)
        } else if field == 3 { bool_text(c.generation.include_testing_strategy) } else { Seq::empty() }
    } else if section == 6 {
        if field == 0 { c.security.allowlist_file@ } else if field == 1 { bool_text(c.security.enforce_allowlist) } else {
            Seq::empty()
        }
    } else if section == 7 {
        if field == 0 { num(c.ui.spec_preview_lines) } else if field == 1 { bool_text(c.ui.colored_output) } else if field == 2 {
            bool_text(c.ui.show_progress)
        } else { Seq::empty() }
    } else if section == 8 {
        if field == 0 { bool_text(c.features.require_verification_command) } else if field == 1 {
            num(c.features.narrow_test_min_steps)
        } else if field == 2 { num(c.features.narrow_test_max_steps) } else if field == 3 {
            num(c.features.comprehensive_test_min_steps)
        } else { Seq::empty() }
    } else if section == 9 {
        if field == 0 { bool_text(c.scaffolding.git_init) } else if field == 1 { c.scaffolding.output_dir@ } else if field == 2 {
            bool_text(c.scaffolding.create_opencode_dir)
        } else if field == 3 { bool_text(c.scaffolding.create_scripts_dir) } else { Seq::empty() }
    } else if section == 10 {
        if field == 0 { bool_text(c.notifications.webhook_enabled) } else if field == 1 {
            match c.notifications.webhook_url { Some(u) => u@, None => Seq::empty() }
        } else { Seq::empty() }
    } else {
        Seq::empty()
    }
}

/// The value an edit of the selected field starts from.
pub fn edit_start_value(c: &Config, section: usize, field: usize) -> (s: String)
    ensures
        s@ == edit_start_spec(*c, section as nat, field as nat),
{
    if section == 0 {
        if field == 0 { c.models.autonomous.clone() } else if field == 1 { c.models.default.clone() } else if field == 2 {
            c.models.reasoning.clone()
        } else if field == 3 { c.models.enhancement.clone() } else if field == 4 { c.models.fixer.clone() } else { String::new() }
    } else if section == 1 {
        if field == 0 { decimal_string(c.autonomous.max_iterations as u64) } else if field == 1 {
            decimal_string(c.autonomous.delay_between_sessions as u64)
        } else if field == 2 { decimal_string(c.autonomous.session_timeout_minutes as u64) } else if field == 3 {
            bool_string(c.autonomous.auto_commit)
        } else if field == 4 { c.autonomous.log_level.clone() } else { String::new() }
    } else if section == 2 {
        if field == 0 { decimal_string(c.agent.max_retry_attempts as u64) } else if field == 1 {
            decimal_string(c.agent.max_research_attempts as u64)
        } else if field == 2 { bool_string(c.agent.single_feature_focus) } else { String::new() }
    } else if section == 3 {
        if field == 0 { bool_string(c.alternative_approaches.enabled) } else if field == 1 {
            decimal_string(c.alternative_approaches.num_approaches as u64)
        } else if field == 2 { decimal_string(c.alternative_approaches.retry_threshold as u64) } else { String::new() }
    } else if section == 4 {
        if field == 0 { bool_string(c.mcp.prefer_osgrep) } else if field == 1 { bool_string(c.mcp.use_sequential_thinking) } else {
            String::new()
        }
    } else if section == 5 {
        if field == 0 { c.generation.complexity.clone() } else if field == 1 { bool_string(c.generation.include_accessibility) } else if field == 2 {
            bool_string(c.generation.include_security_section)
        } else if field == 3 { bool_string(c.generation.include_testing_strategy) } else { String::new() }
    } else if section == 6 {
        if field == 0 { c.security.allowlist_file.clone() } else if field == 1 { bool_string(c.security.enforce_allowlist) } else {
            String::new()
        }
    } else if section == 7 {
        if field == 0 { decimal_string(c.ui.spec_preview_lines as u64) } else if field == 1 { bool_string(c.ui.colored_output) } else if field == 2 {
            bool_string(c.ui.show_progress)
        } else { String::new() }
    } else if section == 8 {
        if field == 0 { bool_string(c.features.require_verification_command) } else if field == 1 {
            decimal_string(c.features.narrow_test_min_steps as u64)
        } else if field == 2 { decimal_string(c.features.narrow_test_max_steps as u64) } else if field == 3 {
            decimal_string(c.features.comprehensive_test_min_steps as u64)
        } else { String::new() }
    } else if section == 9 {
        if field == 0 { bool_string(c.scaffolding.git_init) } else if field == 1 { c.scaffolding.output_dir.clone() } else if field == 2 {
            bool_string(c.scaffolding.create_opencode_dir)
        } else if field == 3 { bool_string(c.scaffolding.create_scripts_dir) } else { String::new() }
    } else if section == 10 {
        if field == 0 { bool_string(c.notifications.webhook_enabled) } else if field == 1 {
            match &c.notifications.webhook_url {
                Some(u) => u.clone(),
                None => String::new(),
            }
        } else { String::new() }
    } else {
        String::new()
    }
}

/// `val.parse::<u32>()`, or the old value when that fails.
pub open spec fn parse_u32_or(val: Seq<char>, old: u32) -> u32 {
    match parse_u64_spec(val) {
        Some(n) => if n <= u32::MAX { n as u32 } else { old },
        None => old,
    }
}

/// A typed boolean: `true` in any case of its letters.
pub open spec fn truthy(val: Seq<char>) -> bool {
    eq_ignore_case(val, "true"@)
}

/// The configuration after a finished edit of a field, the list of
/// required MCP tools aside.
pub open spec fn applied(c: Config, section: nat, field: nat, val: String) -> Config {
    let v = val@;
    if section == 0 {
        if field == 0 { Config { models: crate::config::ModelsConfig { autonomous: val, ..c.models }, ..c } }
        else if field == 1 { Config { models: crate::config::ModelsConfig { default: val, ..c.models }, ..c } }
        else if field == 2 { Config { models: crate::config::ModelsConfig { reasoning: val, ..c.models }, ..c } }
        else if field == 3 { Config { models: crate::config::ModelsConfig { enhancement: val, ..c.models }, ..c } }
        else if field == 4 { Config { models: crate::config::ModelsConfig { fixer: val, ..c.models }, ..c } }
        else { c }
    } else if section == 1 {
        let a = c.autonomous;
        if field == 0 { Config { autonomous: crate::config::AutonomousConfig { max_iterations: parse_u32_or(v, a.max_iterations), ..a }, ..c } }
        else if field == 1 { Config { autonomous: crate::config::AutonomousConfig { delay_between_sessions: parse_u32_or(v, a.delay_between_sessions), ..a }, ..c } }
        else if field == 2 { Config { autonomous: crate::config::AutonomousConfig { session_timeout_minutes: parse_u32_or(v, a.session_timeout_minutes), ..a }, ..c } }
        else if field == 3 { Config { autonomous: crate::config::AutonomousConfig { auto_commit: truthy(v), ..a }, ..c } }
        else if field == 4 { Config { autonomous: crate::config::AutonomousConfig { log_level: val, ..a }, ..c } }
        else { c }
    } else if section == 2 {
        let a = c.agent;
        if field == 0 { Config { agent: crate::config::AgentConfig { max_retry_attempts: parse_u32_or(v, a.max_retry_attempts), ..a }, ..c } }
        else if field == 1 { Config { agent: crate::config::AgentConfig { max_research_attempts: parse_u32_or(v, a.max_research_attempts), ..a }, ..c } }
        else if field == 2 { Config { agent: crate::config::AgentConfig { single_feature_focus: truthy(v), ..a }, ..c } }
        else { c }
    } else if section == 3 {
        let a = c.alternative_approaches;
        if field == 0 { Config { alternative_approaches: crate::config::AlternativeApproachesConfig { enabled: truthy(v), ..a }, ..c } }
        else if field == 1 { Config { alternative_approaches: crate::config::AlternativeApproachesConfig { num_approaches: parse_u32_or(v, a.num_approaches), ..a }, ..c } }
        else if field == 2 { Config { alternative_approaches: crate::config::AlternativeApproachesConfig { retry_threshold: parse_u32_or(v, a.retry_threshold), ..a }, ..c } }
        else if field == 3 { Config { alternative_approaches: crate::config::AlternativeApproachesConfig { cache_results: truthy(v), ..a }, ..c } }
        else if field == 4 { Config { alternative_approaches: crate::config::AlternativeApproachesConfig { cache_dir: val, ..a }, ..c } }
        else { c }
    } else if section == 4 {
        if field == 0 { Config { mcp: crate::config::McpConfig { prefer_osgrep: truthy(v), ..c.mcp }, ..c } }
        else if field == 1 { Config { mcp: crate::config::McpConfig { use_sequential_thinking: truthy(v), ..c.mcp }, ..c } }
        else { c }
    } else if section == 5 {
        if field == 0 { Config { generation: crate::config::GenerationConfig { complexity: val, ..c.generation }, ..c } }
        else if field == 1 { Config { generation: crate::config::GenerationConfig { enable_subagents: truthy(v), ..c.generation }, ..c } }
        else { c }
    } else if section == 6 {
        if field == 0 { Config { security: crate::config::SecurityConfig { allowlist_file: val, ..c.security }, ..c } }
        else if field == 1 { Config { security: crate::config::SecurityConfig { enforce_allowlist: truthy(v), ..c.security }, ..c } }
        else { c }
    } else if section == 7 {
        if field == 0 { Config { ui: crate::config::UiConfig { spec_preview_lines: parse_u32_or(v, c.ui.spec_preview_lines), ..c.ui }, ..c } }
        else if field == 1 { Config { ui: crate::config::UiConfig { verbose: truthy(v), ..c.ui }, ..c } }
        else { c }
    } else if section == 8 {
        if field == 0 { Config { notifications: crate::config::NotificationsConfig { webhook_enabled: truthy(v), ..c.notifications }, ..c } }
        else if field == 1 {
            Config { notifications: crate::config::NotificationsConfig { webhook_url: if v.len() == 0 { None } else { Some(val) }, ..c.notifications }, ..c }
        } else { c }
    } else if section == 9 {
        let a = c.conductor;
        if field == 0 { Config { conductor: crate::config::ConductorConfig { context_dir: val, ..a }, ..c } }
        else if field == 1 { Config { conductor: crate::config::ConductorConfig { tracks_dir: val, ..a }, ..c } }
        else if field == 2 { Config { conductor: crate::config::ConductorConfig { auto_setup: truthy(v), ..a }, ..c } }
        else if field == 3 { Config { conductor: crate::config::ConductorConfig { planning_mode: val, ..a }, ..c } }
        else if field == 4 { Config { conductor: crate::config::ConductorConfig { checkpoint_frequency: parse_u32_or(v, a.checkpoint_frequency), ..a }, ..c } }
        else { c }
    } else if section == 10 {
        let a = c.paths;
        if field == 0 { Config { paths: crate::config::PathsConfig { log_dir: val, ..a }, ..c } }
        else if field == 1 { Config { paths: crate::config::PathsConfig { vs_cache_dir: val, ..a }, ..c } }
        else if field == 2 { Config { paths: crate::config::PathsConfig { database_file: val, ..a }, ..c } }
        else if field == 3 { Config { paths: crate::config::PathsConfig { app_spec_file: val, ..a }, ..c } }
        else { c }
    } else {
        c
    }
}

/// The names of the items that differ from a name.
pub open spec fn without(items: Seq<Seq<char>>, name: Seq<char>) -> Seq<Seq<char>>
    decreases items.len(),
{
    if items.len() == 0 {
        Seq::empty()
    } else {
        let rest = without(items.drop_last(), name);
        if items.last() == name { rest } else { rest.push(items.last()) }
    }
}

/// The required MCP tools after a finished edit: editing the row of a
/// known tool adds it (once) when the value is true and removes it
/// otherwise; any other edit keeps them.
pub open spec fn tools_after(required: Seq<Seq<char>>, section: nat, field: nat, v: Seq<char>, tools: Seq<Seq<char>>) -> Seq<Seq<char>> {
    if section == 4 && field >= 2 && field - 2 < tools.len() {
        let t = tools[field - 2];
        if truthy(v) {
            if required.contains(t) { required } else { required.push(t) }
        } else {
            without(required, t)
        }
    } else {
        required
    }
}

/// The configuration `n` is what a finished edit makes of `c`.
pub open spec fn edit_applied(c: Config, section: nat, field: nat, val: String, tools: Seq<Seq<char>>, n: Config) -> bool {
    let a = applied(c, section, field, val);
    &&& n == Config { mcp: crate::config::McpConfig { required_tools: n.mcp.required_tools, ..a.mcp }, ..a }
    &&& views(n.mcp.required_tools@) == tools_after(views(c.mcp.required_tools@), section, field, val@, tools)
}

/// `val.parse::<u32>()`, or the old value.
fn parse_u32_or_exec(val: &str, old: u32) -> (r: u32)
    ensures
        r == parse_u32_or(val@, old),
{
    match parse_u64(val) {
        Some(n) => if n <= u32::MAX as u64 { n as u32 } else { old },
        None => old,
    }
}

/// Updates the required tools for a toggled tool.
fn toggle_tool(required: &mut Vec<String>, tool: &String, enabled: bool)
    ensures
        enabled ==> views(final(required)@) == (if views(old(required)@).contains(tool@) {
            views(old(required)@)
        } else {
            views(old(required)@).push(tool@)
        }),
        !enabled ==> views(final(required)@) == without(views(old(required)@), tool@),
{
    if enabled {
        if !contains_str(required, tool.as_str()) {
            push_owned(required, tool.clone());
        }
    } else {
        let ghost ov = views(required@);
        let mut kept: Vec<String> = Vec::new();
        let mut i: usize = 0;
        while i < required.len()
            invariant
                i <= required@.len(),
                ov == views(required@),
                views(kept@) == without(ov.subrange(0, i as int), tool@),
            decreases required.len() - i,
        {
            let ghost prev = ov.subrange(0, i as int);
            let ghost cur = ov.subrange(0, i + 1);
            assert(cur.drop_last() =~= prev);
            if !crate::template_xml::chars_eq(
                crate::text::to_chars(required[i].as_str()).as_slice(),
                crate::text::to_chars(tool.as_str()).as_slice(),
            ) {
                push_owned(&mut kept, required[i].clone());
            }
            i = i + 1;
        }
        assert(ov.subrange(0, ov.len() as int) =~= ov);
        *required = kept;
    }
}

/// Applies a finished edit in section 0.
fn apply_in_section_0(config: &mut Config, field: usize, val: String, tools: &Vec<String>)
    ensures
    edit_applied(*old(config), 0, field as nat, val, views(tools@), *final(config)),
{
    let v = val.clone();
    let vs = v.as_str();

    if field == 0 { config.models.autonomous = val; }
    else if field == 1 { config.models.default = val; }
    else if field == 2 { config.models.reasoning = val; }
    else if field == 3 { config.models.enhancement = val; }
    else if field == 4 { config.models.fixer = val; }
}

/// Applies a finished edit in section 1.
fn apply_in_section_1(config: &mut Config, field: usize, val: String, tools: &Vec<String>)
    ensures
    edit_applied(*old(config), 1, field as nat, val, views(tools@), *final(config)),
{
    let v = val.clone();
    let vs = v.as_str();
    if field == 0 { config.autonomous.max_iterations = parse_u32_or_exec(vs, config.autonomous.max_iterations); }
    else if field == 1 { config.autonomous.delay_between_sessions = parse_u32_or_exec(vs, config.autonomous.delay_between_sessions); }
    else if field == 2 { config.autonomous.session_timeout_minutes = parse_u32_or_exec(vs, config.autonomous.session_timeout_minutes); }
    else if field == 3 { config.autonomous.auto_commit = str_eq_ignore_case(vs, "true"); }
    else if field == 4 { config.autonomous.log_level = val; }
}

/// Applies a finished edit in section 2.
fn apply_in_section_2(config: &mut Config, field: usize, val: String, tools: &Vec<String>)
    ensures
    edit_applied(*old(config), 2, field as nat, val, views(tools@), *final(config)),
{
    let v = val.clone();
    let vs = v.as_str();
    if field == 0 { config.agent.max_retry_attempts = parse_u32_or_exec(vs, config.agent.max_retry_attempts); }
    else if field == 1 { config.agent.max_research_attempts = parse_u32_or_exec(vs, config.agent.max_research_attempts); }
    else if field == 2 { config.agent.single_feature_focus = str_eq_ignore_case(vs, "true"); }
}

/// Applies a finished edit in section 3.
fn apply_in_section_3(config: &mut Config, field: usize, val: String, tools: &Vec<String>)
    ensures
    edit_applied(*old(config), 3, field as nat, val, views(tools@), *final(config)),
{
    let v = val.clone();
    let vs = v.as_str();
    if field == 0 { config.alternative_approaches.enabled = str_eq_ignore_case(vs, "true"); }
    else if field == 1 { config.alternative_approaches.num_approaches = parse_u32_or_exec(vs, config.alternative_approaches.num_approaches); }
    else if field == 2 { config.alternative_approaches.retry_threshold = parse_u32_or_exec(vs, config.alternative_approaches.retry_threshold); }
    else if field == 3 { config.alternative_approaches.cache_results = str_eq_ignore_case(vs, "true"); }
    else if field == 4 { config.alternative_approaches.cache_dir = val; }
}

/// Applies a finished edit in section 4.
fn apply_in_section_4(config: &mut Config, field: usize, val: String, tools: &Vec<String>)
    ensures
    edit_applied(*old(config), 4, field as nat, val, views(tools@), *final(config)),
{
    let v = val.clone();
    let vs = v.as_str();
    if field == 0 {
        config.mcp.prefer_osgrep = str_eq_ignore_case(vs, "true");
    } else if field == 1 {
        config.mcp.use_sequential_thinking = str_eq_ignore_case(vs, "true");
    } else if field - 2 < tools.len() {
        let enabled = str_eq_ignore_case(vs, "true");
        toggle_tool(&mut config.mcp.required_tools, &tools[field - 2], enabled);
    }
}

/// Applies a finished edit in section 5.
fn apply_in_section_5(config: &mut Config, field: usize, val: String, tools: &Vec<String>)
    ensures
    edit_applied(*old(config), 5, field as nat, val, views(tools@), *final(config)),
{
    let v = val.clone();
    let vs = v.as_str();
    if field == 0 { config.generation.complexity = val; }
    else if field == 1 { config.generation.enable_subagents = str_eq_ignore_case(vs, "true"); }
}

/// Applies a finished edit in section 6.
fn apply_in_section_6(config: &mut Config, field: usize, val: String, tools: &Vec<String>)
    ensures
    edit_applied(*old(config), 6, field as nat, val, views(tools@), *final(config)),
{
    let v = val.clone();
    let vs = v.as_str();
    if field == 0 { config.security.allowlist_file = val; }
    else if field == 1 { config.security.enforce_allowlist = str_eq_ignore_case(vs, "true"); }
}

/// Applies a finished edit in section 7.
fn apply_in_section_7(config: &mut Config, field: usize, val: String, tools: &Vec<String>)
    ensures
    edit_applied(*old(config), 7, field as nat, val, views(tools@), *final(config)),
{
    let v = val.clone();
    let vs = v.as_str();
    if field == 0 { config.ui.spec_preview_lines = parse_u32_or_exec(vs, config.ui.spec_preview_lines); }
    else if field == 1 { config.ui.verbose = str_eq_ignore_case(vs, "true"); }
}

/// Applies a finished edit in section 8.
fn apply_in_section_8(config: &mut Config, field: usize, val: String, tools: &Vec<String>)
    ensures
    edit_applied(*old(config), 8, field as nat, val, views(tools@), *final(config)),
{
    let v = val.clone();
    let vs = v.as_str();
    if field == 0 {
        config.notifications.webhook_enabled = str_eq_ignore_case(vs, "true");
    } else if field == 1 {
        config.notifications.webhook_url = if vs.is_empty() { None } else { Some(val) };
    }
}

/// Applies a finished edit in section 9.
fn apply_in_section_9(config: &mut Config, field: usize, val: String, tools: &Vec<String>)
    ensures
    edit_applied(*old(config), 9, field as nat, val, views(tools@), *final(config)),
{
    let v = val.clone();
    let vs = v.as_str();
    if field == 0 { config.conductor.context_dir = val; }
    else if field == 1 { config.conductor.tracks_dir = val; }
    else if field == 2 { config.conductor.auto_setup = str_eq_ignore_case(vs, "true"); }
    else if field == 3 { config.conductor.planning_mode = val; }
    else if field == 4 { config.conductor.checkpoint_frequency = parse_u32_or_exec(vs, config.conductor.checkpoint_frequency); }
}

/// Applies a finished edit in section 10.
fn apply_in_section_10(config: &mut Config, field: usize, val: String, tools: &Vec<String>)
    ensures
    edit_applied(*old(config), 10, field as nat, val, views(tools@), *final(config)),
{
    let v = val.clone();
    let vs = v.as_str();
    if field == 0 { config.paths.log_dir = val; }
    else if field == 1 { config.paths.vs_cache_dir = val; }
    else if field == 2 { config.paths.database_file = val; }
    else if field == 3 { config.paths.app_spec_file = val; }
}

/// Applies a finished edit of a field to the configuration: text fields
/// take the text, numbers the parsed value (kept when it does not parse),
/// switches whether the text reads `true`, a blank webhook URL none, and
/// the row of a known MCP tool adds or removes it.
pub fn apply_edit(config: &mut Config, section: usize, field: usize, val: String, tools: &Vec<String>)
    ensures
        edit_applied(*old(config), section as nat, field as nat, val, views(tools@), *final(config)),
{
    if section == 0 {
        apply_in_section_0(config, field, val, tools);
    } else if section == 1 {
        apply_in_section_1(config, field, val, tools);
    } else if section == 2 {
        apply_in_section_2(config, field, val, tools);
    } else if section == 3 {
        apply_in_section_3(config, field, val, tools);
    } else if section == 4 {
        apply_in_section_4(config, field, val, tools);
    } else if section == 5 {
        apply_in_section_5(config, field, val, tools);
    } else if section == 6 {
        apply_in_section_6(config, field, val, tools);
    } else if section == 7 {
        apply_in_section_7(config, field, val, tools);
    } else if section == 8 {
        apply_in_section_8(config, field, val, tools);
    } else if section == 9 {
        apply_in_section_9(config, field, val, tools);
    } else if section == 10 {
        apply_in_section_10(config, field, val, tools);
    }
}

/// The configuration editor's state: the selected section and field,
/// whether a field is being edited and its text, and whether to leave.
pub struct ConfigEditorState {
    pub section: usize,
    pub field: usize,
    pub editing: bool,
    pub buffer: String,
    pub should_exit: bool,
}

impl ConfigEditorState {
    /// The state when the editor opens.
    pub fn new() -> (s: Self)
        ensures
            s.section == 0,
            s.field == 0,
            !s.editing,
            s.buffer@.len() == 0,
            !s.should_exit,
    {
        ConfigEditorState { section: 0, field: 0, editing: false, buffer: String::new(), should_exit: false }
    }

    /// Reacts to a key. While editing: Enter applies the text to the
    /// configuration, Escape abandons it, Backspace deletes the last
    /// character, other characters are typed. Otherwise: up/down move among
    /// the section's fields, left/right among the sections (to the first
    /// field), Enter starts editing the field, `q` leaves.
    pub fn on_key(&mut self, k: Key, config: &mut Config, tools: &Vec<String>)
        requires
            old(self).section < section_count(),
        ensures
            final(self).section < section_count(),
            final(self).should_exit == (old(self).should_exit || (!old(self).editing && k == Key::Char('q'))),
            old(self).editing ==> {
                &&& final(self).section == old(self).section
                &&& final(self).field == old(self).field
                &&& k == Key::Enter ==> !final(self).editing && exists|v: String| v@ == old(self).buffer@
                    && edit_applied(*old(config), old(self).section as nat, old(self).field as nat, v, views(tools@), *final(config))
                &&& k != Key::Enter ==> *final(config) == *old(config)
                &&& k == Key::Esc ==> !final(self).editing && final(self).buffer@ == old(self).buffer@
                &&& k == Key::Backspace ==> final(self).editing && final(self).buffer@ == (if old(self).buffer@.len() > 0 {
                    old(self).buffer@.drop_last()
                } else {
                    old(self).buffer@
                })
                &&& (k matches Key::Char(c) ==> final(self).editing && final(self).buffer@ == old(self).buffer@.push(c))
                &&& !(k == Key::Enter || k == Key::Esc || k == Key::Backspace || k is Char) ==> final(self).editing
                    && final(self).buffer@ == old(self).buffer@
            },
            !old(self).editing ==> {
                let len = fields_spec(*old(config), old(self).section as nat, views(tools@)).len();
                &&& *final(config) == *old(config)
                &&& is_up(k) ==> final(self).field == (if old(self).field > 0 { old(self).field - 1 } else { old(self).field as int })
                    && final(self).section == old(self).section && !final(self).editing
                &&& is_down(k) ==> final(self).field == (if old(self).field + 1 < len { old(self).field + 1 } else { old(self).field as int })
                    && final(self).section == old(self).section && !final(self).editing
                &&& is_left(k) ==> (if old(self).section > 0 {
                    final(self).section == old(self).section - 1 && final(self).field == 0
                } else {
                    final(self).section == old(self).section && final(self).field == old(self).field
                }) && !final(self).editing
                &&& is_right(k) ==> (if old(self).section + 1 < section_count() {
                    final(self).section == old(self).section + 1 && final(self).field == 0
                } else {
                    final(self).section == old(self).section && final(self).field == old(self).field
                }) && !final(self).editing
                &&& k == Key::Enter ==> final(self).editing && final(self).buffer@ == edit_start_spec(
                    *old(config),
                    old(self).section as nat,
                    old(self).field as nat,
                ) && final(self).section == old(self).section && final(self).field == old(self).field
                &&& k != Key::Enter ==> final(self).buffer@ == old(self).buffer@
                &&& !(is_up(k) || is_down(k) || is_left(k) || is_right(k) || k == Key::Enter) ==> final(self).section
                    == old(self).section && final(self).field == old(self).field && !final(self).editing
            },
    {
        if self.editing {
            match k {
                Key::Enter => {
                    let val = self.buffer.clone();
                    apply_edit(config, self.section, self.field, val, tools);
                    self.editing = false;
                },
                Key::Esc => {
                    self.editing = false;
                },
                Key::Backspace => {
                    let cs = crate::text::to_chars(self.buffer.as_str());
                    if cs.len() > 0 {
                        let kept = crate::text::slice_chars(cs.as_slice(), 0, cs.len() - 1);
                        self.buffer = crate::text::from_chars(kept.as_slice());
                        assert(self.buffer@ =~= old(self).buffer@.drop_last());
                    }
                },
                Key::Char(c) => {
                    push_char(&mut self.buffer, c);
                },
                _ => {},
            }
        } else {
            if key_up(k) {
                if self.field > 0 {
                    self.field = self.field - 1;
                }
            } else if key_down(k) {
                let len = config_fields(config, self.section, tools).len();
                if self.field < usize::MAX && self.field + 1 < len {
                    self.field = self.field + 1;
                }
            } else if key_left(k) {
                if self.section > 0 {
                    self.section = self.section - 1;
                    self.field = 0;
                }
            } else if key_right(k) {
                if self.section + 1 < 11 {
                    self.section = self.section + 1;
                    self.field = 0;
                }
            } else if k == Key::Enter {
                self.buffer = edit_start_value(config, self.section, self.field);
                self.editing = true;
            } else if k == Key::Char('q') {
                self.should_exit = true;
            }
        }
    }
}

/// What an edit of a model name or of the allowlist path stores is what the
/// next edit of that field starts from, a boolean field reads back as
/// `true` exactly when the text said so, and a field past the end of a
/// section changes nothing.
pub proof fn lemma_edit_reads_back(c: Config, field: nat, val: String)
    requires
        field < 5,
    ensures
        edit_start_spec(applied(c, 0, field, val), 0, field) == val@,
        edit_start_spec(applied(c, 6, 0, val), 6, 0) == val@,
        edit_start_spec(applied(c, 4, 0, val), 4, 0) == bool_text(truthy(val@)),
        edit_start_spec(applied(c, 6, 1, val), 6, 1) == bool_text(truthy(val@)),
        applied(c, 0, field + 5, val) == c,
        applied(c, 11 + field, 0, val) == c,
{
}

/// Nothing equal to `name` is left after removing it.
proof fn lemma_without_removes(items: Seq<Seq<char>>, name: Seq<char>)
    ensures
        !without(items, name).contains(name),
        forall|x: Seq<char>| x != name && items.contains(x) ==> #[trigger] without(items, name).contains(x),
    decreases items.len(),
{
    if items.len() > 0 {
        let rest = items.drop_last();
        lemma_without_removes(rest, name);
        let w = without(rest, name);
        assert forall|x: Seq<char>| x != name && items.contains(x) implies #[trigger] without(items, name).contains(x) by {
            let i = choose|i: int| 0 <= i < items.len() && items[i] == x;
            if i < items.len() - 1 {
                assert(rest[i] == x);
                assert(rest.contains(x));
                assert(w.contains(x));
                let k = choose|k: int| 0 <= k < w.len() && w[k] == x;
                assert(w.push(items.last())[k] == x);
            } else {
                assert(items.last() == x);
                assert(w.push(x)[w.len() as int] == x);
            }
        }
        if items.last() != name {
            assert forall|j: int| 0 <= j < w.push(items.last()).len() implies w.push(items.last())[j] != name by {
                if j < w.len() {
                    assert(w.contains(w[j]));
                }
            }
        }
    }
}

/// Toggling a known MCP tool makes it required exactly when the text reads
/// `true`, and leaves the other required tools as they were.
pub proof fn lemma_tool_toggle(required: Seq<Seq<char>>, field: nat, v: Seq<char>, tools: Seq<Seq<char>>)
    requires
        field >= 2,
        field - 2 < tools.len(),
    ensures
        tools_after(required, 4, field, v, tools).contains(tools[field - 2]) == truthy(v),
        forall|x: Seq<char>| x != tools[field - 2] && required.contains(x) ==> #[trigger] tools_after(required, 4, field, v, tools).contains(x),
{
    let t = tools[field - 2];
    lemma_without_removes(required, t);
    if truthy(v) && !required.contains(t) {
        assert(required.push(t)[required.len() as int] == t);
        assert forall|x: Seq<char>| x != t && required.contains(x) implies #[trigger] required.push(t).contains(x) by {
            let i = choose|i: int| 0 <= i < required.len() && required[i] == x;
            assert(required.push(t)[i] == x);
        }
    }
}

} // verus!
