//! Built-in documentation, looked up by topic name.

use vstd::prelude::*;
use crate::services::scaffold::assets::{CORE_IDENTITY, CORE_MCP_GUIDE, CORE_SECURITY};
use crate::template_xml::{render_spec, render_template};
use crate::text::to_chars;

verus! {

pub const DB_INSERT_DOC: &'static str = "# Inserting into the progress database

opencode-forger db exec \"INSERT INTO features (description, category) VALUES ('Login works', 'functional')\"
";

pub const DB_QUERY_DOC: &'static str = "# Querying the progress database

opencode-forger db query \"SELECT id, description, passes FROM features\"
Only read-only statements (SELECT, WITH, EXPLAIN, PRAGMA, SHOW, DESCRIBE) are accepted.
";

pub const VERIFY_DOC: &'static str = "# Verifying features

Each feature has a verification command. A feature passes when its command exits with status 0.
";

pub const CONFIG_DOC: &'static str = "# Configuration

Settings live in forger.toml at the project root: [generation], [paths], [features], [scaffolding] and more.
";

pub const CONDUCTOR_DOC: &'static str = "# Conductor

The conductor keeps project context in .conductor and plans work in tracks.
";

pub const WORKFLOW_DOC: &'static str = "# Workflow

1. Write or generate a specification.
2. Scaffold the project.
3. Run the agent until every feature passes.
";

pub const SPEC_DOC: &'static str = "# Specifications

A specification is a <project_specification> document with a project name, an overview, features, and optional sections.
";

pub const ARCH_DOC: &'static str = "# Architecture

The generator turns ideas into specifications, the validator checks them, and scaffolding prepares the project for the agent.
";

pub const RUST_DOC: &'static str = "# Rust projects

Use cargo for building and testing; run cargo test as the verification command.
";

pub const JS_DOC: &'static str = "# JavaScript projects

Use npm scripts for building and testing; run npm test as the verification command.
";

pub const TESTING_DOC: &'static str = "# Testing

Every feature needs a test that can run without a person: unit, integration or end-to-end.
";

pub const RECOVERY_DOC: &'static str = "# Recovery

When a session breaks the build, revert to the last commit that passed and try again with a smaller step.
";

pub const VIBE_DOC: &'static str = "# Vibe mode

Describe what you want in plain words and let the agent propose the specification.
";

pub const TRACKS_DOC: &'static str = "# Tracks

A track is a line of work with its own plan and checkpoints.
";

pub const INTERACTIVE_DOC: &'static str = "# Interactive mode

Run opencode-forger -i to choose between generating, building manually, using the default specification or a template.
";

pub const TEMPLATES_GUIDE_DOC: &'static str = "# Templates

opencode-forger templates list shows the project templates; opencode-forger templates use <name> starts a project from one.
";

pub const MEMORY_DOC: &'static str = "# Memory

Lasting knowledge about a project is kept in the knowledge table of the progress database.
";

/// The documentation text for a topic, if the topic exists.
pub open spec fn doc_source(name: Seq<char>) -> Option<Seq<char>> {
    if name == "db_insert"@ { Some(DB_INSERT_DOC@) }
    else if name == "db_query"@ { Some(DB_QUERY_DOC@) }
    else if name == "verify"@ { Some(VERIFY_DOC@) }
    else if name == "config"@ { Some(CONFIG_DOC@) }
    else if name == "conductor"@ { Some(CONDUCTOR_DOC@) }
    else if name == "workflow"@ { Some(WORKFLOW_DOC@) }
    else if name == "spec"@ { Some(SPEC_DOC@) }
    else if name == "identity"@ { Some(CORE_IDENTITY@) }
    else if name == "security"@ { Some(CORE_SECURITY@) }
    else if name == "mcp"@ { Some(CORE_MCP_GUIDE@) }
    else if name == "arch"@ { Some(ARCH_DOC@) }
    else if name == "rust"@ { Some(RUST_DOC@) }
    else if name == "js"@ { Some(JS_DOC@) }
    else if name == "testing"@ { Some(TESTING_DOC@) }
    else if name == "recovery"@ { Some(RECOVERY_DOC@) }
    else if name == "vibe"@ { Some(VIBE_DOC@) }
    else if name == "tracks"@ { Some(TRACKS_DOC@) }
    else if name == "interactive"@ { Some(INTERACTIVE_DOC@) }
    else if name == "templates-guide"@ { Some(TEMPLATES_GUIDE_DOC@) }
    else if name == "memory"@ { Some(MEMORY_DOC@) }
    else { None }
}

/// What looking up a topic gives: its rendered text, or nothing for an
/// unknown topic or a text that does not render.
pub open spec fn doc_spec(name: Seq<char>) -> Option<Seq<char>> {
    match doc_source(name) {
        None => None,
        Some(src) => match render_spec(src) {
            Ok(t) => Some(t),
            Err(_) => None,
        },
    }
}

/// Whether a string equals a literal.
fn is_name(name: &Vec<char>, lit: &str) -> (b: bool)
    ensures
        b == (name@ == lit@),
{
    let l = to_chars(lit);
    crate::template_xml::chars_eq(name.as_slice(), l.as_slice())
}

/// The source text of a topic.
fn doc_text(name: &str) -> (r: Option<&'static str>)
    ensures
        match (r, doc_source(name@)) {
            (Some(s), Some(t)) => s@ == t,
            (None, None) => true,
            _ => false,
        },
{
    let n = to_chars(name);
    if is_name(&n, "db_insert") { Some(DB_INSERT_DOC) }
    else if is_name(&n, "db_query") { Some(DB_QUERY_DOC) }
    else if is_name(&n, "verify") { Some(VERIFY_DOC) }
    else if is_name(&n, "config") { Some(CONFIG_DOC) }
    else if is_name(&n, "conductor") { Some(CONDUCTOR_DOC) }
    else if is_name(&n, "workflow") { Some(WORKFLOW_DOC) }
    else if is_name(&n, "spec") { Some(SPEC_DOC) }
    else if is_name(&n, "identity") { Some(CORE_IDENTITY) }
    else if is_name(&n, "security") { Some(CORE_SECURITY) }
    else if is_name(&n, "mcp") { Some(CORE_MCP_GUIDE) }
    else if is_name(&n, "arch") { Some(ARCH_DOC) }
    else if is_name(&n, "rust") { Some(RUST_DOC) }
    else if is_name(&n, "js") { Some(JS_DOC) }
    else if is_name(&n, "testing") { Some(TESTING_DOC) }
    else if is_name(&n, "recovery") { Some(RECOVERY_DOC) }
    else if is_name(&n, "vibe") { Some(VIBE_DOC) }
    else if is_name(&n, "tracks") { Some(TRACKS_DOC) }
    else if is_name(&n, "interactive") { Some(INTERACTIVE_DOC) }
    else if is_name(&n, "templates-guide") { Some(TEMPLATES_GUIDE_DOC) }
    else if is_name(&n, "memory") { Some(MEMORY_DOC) }
    else { None }
}

/// The documentation for a topic by name, rendered; `None` for an unknown
/// topic.
pub fn get_doc(name: &str) -> (r: Option<String>)
    ensures
        match (r, doc_spec(name@)) {
            (Some(s), Some(t)) => s@ == t,
            (None, None) => true,
            _ => false,
        },
{
    match doc_text(name) {
        None => None,
        Some(src) => match render_template(src) {
            Ok(t) => Some(t),
            Err(_) => None,
        },
    }
}

} // verus!
