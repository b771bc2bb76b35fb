//! Texts that scaffolding writes: the default specification, the command
//! and agent templates, the core modules they include, the security
//! allowlist and the user configuration.

use vstd::prelude::*;
use crate::error::ForgerError;
use crate::template_xml::{lemma_plain_text_renders, render_spec, render_template};

verus! {

/// The default application specification.
pub const DEFAULT_APP_SPEC: &'static str = "<project_specification>
  <project_name>Example App</project_name>

  <overview>
    A small task tracker: users create tasks, tag them and mark them done.
  </overview>

  <technology_stack>
    <languages>TypeScript</languages>
    <frameworks>React, Express</frameworks>
    <tools>SQLite, Vitest</tools>
  </technology_stack>

  <core_features>
    <feature priority=\"critical\">
      <name>Task management</name>
      <description>Create, edit, complete and delete tasks.</description>
    </feature>
    <feature priority=\"high\">
      <name>Tags</name>
      <description>Attach tags to tasks and filter by tag.</description>
    </feature>
    <feature priority=\"medium\">
      <name>Search</name>
      <description>Find tasks by words in their title.</description>
    </feature>
  </core_features>

  <database>
    <type>SQLite</type>
    <tables>
      - tasks
      - tags
    </tables>
  </database>

  <api_endpoints_summary>
    - GET /api/tasks
    - POST /api/tasks
    - PUT /api/tasks/:id
    - DELETE /api/tasks/:id
    - GET /api/tags
  </api_endpoints_summary>

  <implementation_steps>
    <step>Set up the project and the database</step>
    <step>Build the task API</step>
    <step>Build the user interface</step>
  </implementation_steps>

  <success_criteria>
    - Every feature works end to end
  </success_criteria>
</project_specification>
";

/// The command that starts a project from its specification.
pub const AUTO_INIT_TEMPLATE: &'static str = "# Initialize the project

{{INCLUDE core/identity.xml}}

Read the specification at {{APP_SPEC_PATH}}. It lists {{SPEC_FEATURE_COUNT}} features and {{SPEC_ENDPOINT_COUNT}} API endpoints.

## Feature list

Record every feature in the database. Categories: {{FEATURE_CATEGORY_LIST}}. Priorities: {{PRIORITY_LEVEL_LIST}}.
A verification command is {{REQUIRE_VERIFICATION_COMMAND}} for each feature.
Narrow tests take {{NARROW_TEST_MIN_STEPS}} to {{NARROW_TEST_MAX_STEPS}} steps; comprehensive tests at least {{COMPREHENSIVE_TEST_MIN_STEPS}}.

## Minimums

- Features: {{MIN_FEATURES_REQUIRED}}
- Database tables: {{MIN_TABLES_REQUIRED}}
- API endpoints: {{MIN_ENDPOINTS_REQUIRED}}
- Implementation steps: {{MIN_IMPLEMENTATION_STEPS_REQUIRED}}

{{INCLUDE core/database.xml}}

{{INCLUDE core/security.xml}}

{{INCLUDE core/signaling.xml}}
";

/// The command that continues work on a project.
pub const AUTO_CONTINUE_TEMPLATE: &'static str = "# Continue the project

{{INCLUDE core/identity.xml}}

Read the specification at {{APP_SPEC_PATH}}, then re-verify {{REGRESSION_SAMPLE_SIZE}} passing features before picking the next failing one.

{{INCLUDE core/database.xml}}

{{INCLUDE core/mcp_guide.xml}}

{{INCLUDE core/signaling.xml}}
";

/// The command that enhances a finished project.
pub const AUTO_ENHANCE_TEMPLATE: &'static str = "# Enhance the project

Read the specification at {{APP_SPEC_PATH}} and propose one improvement at a time, each with a feature entry and a verification command.
";

/// Who the agent is.
pub const CORE_IDENTITY: &'static str = "## Identity

You are an autonomous coding agent. You work on one feature at a time and leave the project working after every session.";

/// The rules on commands the agent may run.
pub const CORE_SECURITY: &'static str = "## Security

Run only the commands the security allowlist permits. Never print or commit secrets.";

/// How the agent signals its state.
pub const CORE_SIGNALING: &'static str = "## Signaling

End every session with one line: FEATURE_DONE, FEATURE_FAILED or PROJECT_COMPLETE.";

/// How the agent uses the progress database.
pub const CORE_DATABASE: &'static str = "## Progress database

Features live in the features table. Mark a feature passing only after its verification command succeeds.";

/// How the agent uses its tools.
pub const CORE_MCP_GUIDE: &'static str = "## Tools

Use sequential thinking for planning and the browser tools for checking user interfaces.";

/// The commands an agent may run.
pub const SECURITY_ALLOWLIST: &'static str = "{
  \"allowed_commands\": [\"ls\", \"cat\", \"git\", \"npm\", \"npx\", \"node\", \"cargo\", \"python3\", \"sqlite3\"]
}
";

/// The user configuration written at a project's root.
pub const USER_CONFIG_TEMPLATE: &'static str = "# OpenCode Forger configuration

[generation]
complexity = \"comprehensive\"

[scaffolding]
create_opencode_dir = true
";

/// The subagent that writes the features of a specification.
pub const SPEC_PRODUCT_AGENT: &'static str = "---
description: Writes the core features of a project specification
---
You write the <core_features> section: each feature with a name, a description, sub-features, error handling and edge cases.
";

/// The subagent that writes the architecture of a specification.
pub const SPEC_ARCHITECTURE_AGENT: &'static str = "---
description: Writes the architecture of a project specification
---
You write the <technology_stack>, <database_schema> and <api_endpoints> sections.
";

/// The subagent that writes the quality sections of a specification.
pub const SPEC_QUALITY_AGENT: &'static str = "---
description: Writes the quality sections of a project specification
---
You write the <implementation_steps> and <success_criteria> sections and any other section you are asked for.
";

/// The subagent that writes code.
pub const CODER_AGENT: &'static str = "---
description: Implements one feature at a time
---
You implement the feature you are given, run its verification command and report the result.
";

/// The AGENTS.md written at a project's root.
pub const AGENTS_MD_TEMPLATE: &'static str = "# Agents

This project is built by autonomous agents. The specification is in .forger/app_brief.md and progress is tracked in .forger/progress.db.
";

/// What rendering a template gives, errors as messages.
pub open spec fn rendered(t: Seq<char>) -> Result<Seq<char>, Seq<char>> {
    render_spec(t)
}

/// A rendering result with the library's error type, seen as texts.
pub open spec fn result_view(r: Result<String, ForgerError>) -> Result<Seq<char>, Seq<char>> {
    match r {
        Ok(s) => Ok(s@),
        Err(e) => Err(e.message@),
    }
}

/// The `auto-init` command template, rendered.
pub fn auto_init_template() -> (r: Result<String, ForgerError>)
    ensures
        result_view(r) == rendered(AUTO_INIT_TEMPLATE@),
{
    render_template(AUTO_INIT_TEMPLATE)
}

/// The `auto-continue` command template, rendered.
pub fn auto_continue_template() -> (r: Result<String, ForgerError>)
    ensures
        result_view(r) == rendered(AUTO_CONTINUE_TEMPLATE@),
{
    render_template(AUTO_CONTINUE_TEMPLATE)
}

/// The `auto-enhance` command template, rendered.
pub fn auto_enhance_template() -> (r: Result<String, ForgerError>)
    ensures
        result_view(r) == rendered(AUTO_ENHANCE_TEMPLATE@),
{
    render_template(AUTO_ENHANCE_TEMPLATE)
}

/// The identity module, rendered.
pub fn core_identity() -> (r: Result<String, ForgerError>)
    ensures
        result_view(r) == rendered(CORE_IDENTITY@),
{
    render_template(CORE_IDENTITY)
}

/// The security module, rendered.
pub fn core_security() -> (r: Result<String, ForgerError>)
    ensures
        result_view(r) == rendered(CORE_SECURITY@),
{
    render_template(CORE_SECURITY)
}

/// The signaling module, rendered.
pub fn core_signaling() -> (r: Result<String, ForgerError>)
    ensures
        result_view(r) == rendered(CORE_SIGNALING@),
{
    render_template(CORE_SIGNALING)
}

/// The database module, rendered.
pub fn core_database() -> (r: Result<String, ForgerError>)
    ensures
        result_view(r) == rendered(CORE_DATABASE@),
{
    render_template(CORE_DATABASE)
}

/// The tools guide module, rendered.
pub fn core_mcp_guide() -> (r: Result<String, ForgerError>)
    ensures
        result_view(r) == rendered(CORE_MCP_GUIDE@),
{
    render_template(CORE_MCP_GUIDE)
}

/// The product subagent, rendered.
pub fn spec_product_agent() -> (r: Result<String, ForgerError>)
    ensures
        result_view(r) == rendered(SPEC_PRODUCT_AGENT@),
{
    render_template(SPEC_PRODUCT_AGENT)
}

/// The architecture subagent, rendered.
pub fn spec_architecture_agent() -> (r: Result<String, ForgerError>)
    ensures
        result_view(r) == rendered(SPEC_ARCHITECTURE_AGENT@),
{
    render_template(SPEC_ARCHITECTURE_AGENT)
}

/// The quality subagent, rendered.
pub fn spec_quality_agent() -> (r: Result<String, ForgerError>)
    ensures
        result_view(r) == rendered(SPEC_QUALITY_AGENT@),
{
    render_template(SPEC_QUALITY_AGENT)
}

/// The coder subagent, rendered.
pub fn coder_agent() -> (r: Result<String, ForgerError>)
    ensures
        result_view(r) == rendered(CODER_AGENT@),
{
    render_template(CODER_AGENT)
}

/// The `auto-init` command template renders, to itself, and what it
/// renders to is not empty.
pub proof fn lemma_auto_init_renders()
    ensures
        rendered(AUTO_INIT_TEMPLATE@) == Ok::<Seq<char>, Seq<char>>(AUTO_INIT_TEMPLATE@),
        AUTO_INIT_TEMPLATE@.len() > 0,
{
    reveal_strlit("# Initialize the project

{{INCLUDE core/identity.xml}}

Read the specification at {{APP_SPEC_PATH}}. It lists {{SPEC_FEATURE_COUNT}} features and {{SPEC_ENDPOINT_COUNT}} API endpoints.

## Feature list

Record every feature in the database. Categories: {{FEATURE_CATEGORY_LIST}}. Priorities: {{PRIORITY_LEVEL_LIST}}.
A verification command is {{REQUIRE_VERIFICATION_COMMAND}} for each feature.
Narrow tests take {{NARROW_TEST_MIN_STEPS}} to {{NARROW_TEST_MAX_STEPS}} steps; comprehensive tests at least {{COMPREHENSIVE_TEST_MIN_STEPS}}.

## Minimums

- Features: {{MIN_FEATURES_REQUIRED}}
- Database tables: {{MIN_TABLES_REQUIRED}}
- API endpoints: {{MIN_ENDPOINTS_REQUIRED}}
- Implementation steps: {{MIN_IMPLEMENTATION_STEPS_REQUIRED}}

{{INCLUDE core/database.xml}}

{{INCLUDE core/security.xml}}

{{INCLUDE core/signaling.xml}}
");
    lemma_plain_text_renders(AUTO_INIT_TEMPLATE@);
}

} // verus!
