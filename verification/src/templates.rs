//! The library of project templates.

use vstd::prelude::*;
use crate::error::ForgerError;
use crate::template_xml::{render_spec, render_template};
use crate::text::{concat2, push_lit, push_owned, push_str, str_replace, views};
use crate::theming::boxes::{repeat_char, repeat_str};

verus! {

/// A full-stack web application.
pub const WEB_APP_TEMPLATE: &'static str = "<project_specification>
  <project_name>{{PROJECT_NAME}}</project_name>
  <overview>{{DESCRIPTION}}</overview>
  <technology_stack>
    <frontend>React, TypeScript, Vite</frontend>
    <backend>Node.js, Express</backend>
    <database>SQLite</database>
  </technology_stack>
  <core_features>
    <feature><name>User accounts</name><description>Sign up, sign in and sign out.</description></feature>
    <feature><name>Dashboard</name><description>The main view after signing in.</description></feature>
    <feature><name>Settings</name><description>Users change their profile and preferences.</description></feature>
  </core_features>
  <database_schema>
    <tables>
      <table>users</table>
      <table>sessions</table>
    </tables>
  </database_schema>
  <api_endpoints>
    <endpoint>POST /api/auth/signup</endpoint>
    <endpoint>POST /api/auth/login</endpoint>
    <endpoint>GET /api/me</endpoint>
  </api_endpoints>
  <implementation_steps>
    <step>Project setup and database</step>
    <step>Authentication</step>
    <step>User interface</step>
  </implementation_steps>
  <success_criteria>
    - A user can sign up, sign in and see the dashboard
  </success_criteria>
</project_specification>
";

/// A command-line tool in Rust.
pub const CLI_TOOL_TEMPLATE: &'static str = "<project_specification>
  <project_name>{{PROJECT_NAME}}</project_name>
  <overview>{{DESCRIPTION}}</overview>
  <technology_stack>
    <language>Rust</language>
    <libraries>clap, serde, toml</libraries>
  </technology_stack>
  <core_features>
    <feature><name>Commands</name><description>Subcommands with help text.</description></feature>
    <feature><name>Configuration file</name><description>Settings read from a TOML file.</description></feature>
    <feature><name>Output formats</name><description>Plain text and JSON output.</description></feature>
  </core_features>
  <implementation_steps>
    <step>Argument parsing</step>
    <step>Configuration</step>
    <step>Commands and output</step>
  </implementation_steps>
  <success_criteria>
    - Every command works and is covered by tests
  </success_criteria>
</project_specification>
";

/// A REST API in Python.
pub const API_REST_TEMPLATE: &'static str = "<project_specification>
  <project_name>{{PROJECT_NAME}}</project_name>
  <overview>{{DESCRIPTION}}</overview>
  <technology_stack>
    <language>Python</language>
    <framework>FastAPI</framework>
    <database>PostgreSQL</database>
  </technology_stack>
  <core_features>
    <feature><name>Resources</name><description>Create, read, update and delete resources.</description></feature>
    <feature><name>Authentication</name><description>Token-based access.</description></feature>
    <feature><name>Pagination</name><description>Lists come in pages.</description></feature>
  </core_features>
  <database_schema>
    <tables>
      <table>resources</table>
      <table>api_keys</table>
    </tables>
  </database_schema>
  <api_endpoints>
    <endpoint>GET /resources</endpoint>
    <endpoint>POST /resources</endpoint>
    <endpoint>GET /resources/{id}</endpoint>
  </api_endpoints>
  <implementation_steps>
    <step>Project setup and models</step>
    <step>Endpoints</step>
    <step>Authentication</step>
  </implementation_steps>
  <success_criteria>
    - Every endpoint is documented and tested
  </success_criteria>
</project_specification>
";

/// A project template: its name, how it is shown, and its specification.
#[derive(Debug, Clone)]
pub struct Template {
    pub name: &'static str,
    pub display_name: &'static str,
    pub description: &'static str,
    pub content: String,
}

/// A template as plain values.
pub open spec fn template_view(t: Template) -> (Seq<char>, Seq<char>, Seq<char>, Seq<char>) {
    (t.name@, t.display_name@, t.description@, t.content@)
}

/// The templates, in order, or the error of the first that does not render.
pub open spec fn templates_spec() -> Result<Seq<(Seq<char>, Seq<char>, Seq<char>, Seq<char>)>, Seq<char>> {
    match render_spec(WEB_APP_TEMPLATE@) {
        Err(m) => Err(m),
        Ok(web) => match render_spec(CLI_TOOL_TEMPLATE@) {
            Err(m) => Err(m),
            Ok(cli) => match render_spec(API_REST_TEMPLATE@) {
                Err(m) => Err(m),
                Ok(api) => Ok(
                    seq![
                        ("web-app-fullstack"@, "🌐 Full-Stack Web App"@, "React + Node.js/Express with SQLite"@, web),
                        ("cli-tool"@, "🔧 CLI Tool"@, "Rust CLI with clap, config file support"@, cli),
                        ("api-rest"@, "🔌 REST API"@, "Python/FastAPI with PostgreSQL"@, api),
                    ],
                ),
            },
        },
    }
}

/// All available templates.
pub fn get_templates() -> (r: Result<Vec<Template>, ForgerError>)
    ensures
        match (r, templates_spec()) {
            (Ok(v), Ok(t)) => v@.map_values(|x: Template| template_view(x)) == t,
            (Err(e), Err(m)) => e.message@ == m,
            _ => false,
        },
{
    let web = match render_template(WEB_APP_TEMPLATE) {
        Ok(s) => s,
        Err(e) => return Err(e),
    };
    let cli = match render_template(CLI_TOOL_TEMPLATE) {
        Ok(s) => s,
        Err(e) => return Err(e),
    };
    let api = match render_template(API_REST_TEMPLATE) {
        Ok(s) => s,
        Err(e) => return Err(e),
    };
    let mut v: Vec<Template> = Vec::new();
    v.push(Template {
        name: "web-app-fullstack",
        display_name: "🌐 Full-Stack Web App",
        description: "React + Node.js/Express with SQLite",
        content: web,
    });
    v.push(Template {
        name: "cli-tool",
        display_name: "🔧 CLI Tool",
        description: "Rust CLI with clap, config file support",
        content: cli,
    });
    v.push(Template {
        name: "api-rest",
        display_name: "🔌 REST API",
        description: "Python/FastAPI with PostgreSQL",
        content: api,
    });
    proof {
        match templates_spec() {
            Ok(t) => {
                assert(v@.map_values(|x: Template| template_view(x)) =~= t);
            },
            Err(_) => {},
        }
    }
    Ok(v)
}

/// The two lines shown for each template: its display name with its name,
/// then its description.
pub open spec fn template_lines(ts: Seq<(Seq<char>, Seq<char>, Seq<char>, Seq<char>)>) -> Seq<Seq<char>>
    decreases ts.len(),
{
    if ts.len() == 0 {
        Seq::empty()
    } else {
        let t = ts.last();
        template_lines(ts.drop_last()) + seq!["\n  "@ + t.1 + " ("@ + t.0 + ")"@, "    "@ + t.2]
    }
}

/// What listing the templates prints, one entry per line: the templates
/// between two rules and how to use one, or the error that stopped them.
pub open spec fn listing_spec() -> Seq<Seq<char>> {
    match templates_spec() {
        Ok(ts) => seq!["\n📚 Available Templates"@, repeat_char('─', 50)] + template_lines(ts) + seq![
            "\n"@ + repeat_char('─', 50),
            "Use: opencode-forger templates use <name>"@,
            "Or run with -i for interactive selection"@,
        ],
        Err(m) => seq!["Error loading templates: "@ + m],
    }
}

/// The lines that list the available templates.
pub fn list_templates() -> (lines: Vec<String>)
    ensures
        views(lines@) == listing_spec(),
{
    let templates = match get_templates() {
        Ok(t) => t,
        Err(e) => {
            let mut v: Vec<String> = Vec::new();
            push_owned(&mut v, concat2("Error loading templates: ", e.message.as_str()));
            return v;
        },
    };
    let ghost ts = templates@.map_values(|x: Template| template_view(x));
    let mut lines: Vec<String> = Vec::new();
    push_lit(&mut lines, "\n📚 Available Templates");
    push_owned(&mut lines, repeat_str('─', 50));
    let ghost head = views(lines@);
    let mut i: usize = 0;
    while i < templates.len()
        invariant
            i <= templates@.len(),
            ts == templates@.map_values(|x: Template| template_view(x)),
            views(lines@) == head + template_lines(ts.subrange(0, i as int)),
        decreases templates.len() - i,
    {
        let t = &templates[i];
        let mut first = concat2("\n  ", t.display_name);
        push_str(&mut first, " (");
        push_str(&mut first, t.name);
        push_str(&mut first, ")");
        push_owned(&mut lines, first);
        push_owned(&mut lines, concat2("    ", t.description));
        proof {
            let sub = ts.subrange(0, i + 1);
            assert(sub.drop_last() =~= ts.subrange(0, i as int));
            assert(sub.last() == template_view(templates@[i as int]));
        }
        i = i + 1;
        assert(views(lines@) =~= head + template_lines(ts.subrange(0, i as int)));
    }
    assert(ts.subrange(0, templates@.len() as int) =~= ts);
    push_owned(&mut lines, concat2("\n", repeat_str('─', 50).as_str()));
    push_lit(&mut lines, "Use: opencode-forger templates use <name>");
    push_lit(&mut lines, "Or run with -i for interactive selection");
    assert(views(lines@) =~= listing_spec());
    lines
}

/// The index of the first template with a name, if any.
pub open spec fn first_named(ts: Seq<(Seq<char>, Seq<char>, Seq<char>, Seq<char>)>, name: Seq<char>) -> Option<int> {
    if exists|i: int| 0 <= i < ts.len() && ts[i].0 == name {
        Some(choose|i: int| 0 <= i < ts.len() && ts[i].0 == name && forall|j: int| 0 <= j < i ==> ts[j].0 != name)
    } else {
        None
    }
}

/// The template with a name, if there is one.
pub fn get_template_by_name(name: &str) -> (r: Result<Option<Template>, ForgerError>)
    ensures
        match (r, templates_spec()) {
            (Ok(Some(t)), Ok(ts)) => template_view(t) == ts[first_named(ts, name@)->0] && first_named(ts, name@) is Some,
            (Ok(None), Ok(ts)) => first_named(ts, name@) is None,
            (Err(e), Err(m)) => e.message@ == m,
            _ => false,
        },
{
    let templates = match get_templates() {
        Ok(t) => t,
        Err(e) => return Err(e),
    };
    let ghost ts = templates@.map_values(|x: Template| template_view(x));
    let mut i: usize = 0;
    while i < templates.len()
        invariant
            i <= templates@.len(),
            ts == templates@.map_values(|x: Template| template_view(x)),
            templates_spec() == Ok::<Seq<(Seq<char>, Seq<char>, Seq<char>, Seq<char>)>, Seq<char>>(ts),
            forall|j: int| 0 <= j < i ==> ts[j].0 != name@,
        decreases templates.len() - i,
    {
        if crate::template_xml::chars_eq(
            crate::text::to_chars(templates[i].name).as_slice(),
            crate::text::to_chars(name).as_slice(),
        ) {
            let t = Template {
                name: templates[i].name,
                display_name: templates[i].display_name,
                description: templates[i].description,
                content: templates[i].content.clone(),
            };
            proof {
                let ii = i as int;
                assert(0 <= ii < ts.len() && ts[ii].0 == name@ && forall|j: int| 0 <= j < ii ==> ts[j].0 != name@);
                assert(exists|k: int| 0 <= k < ts.len() && ts[k].0 == name@ && forall|j: int| 0 <= j < k ==> ts[j].0 != name@);
                let k = choose|k: int| 0 <= k < ts.len() && ts[k].0 == name@ && forall|j: int| 0 <= j < k ==> ts[j].0 != name@;
                assert(k == ii) by {
                    if k < ii {
                        assert(ts[k].0 != name@);
                    }
                    if k > ii {
                        assert(ts[ii].0 != name@);
                    }
                }
                assert(exists|k: int| 0 <= k < ts.len() && ts[k].0 == name@);
                assert(first_named(ts, name@) == Some(ii));
                assert(template_view(t) == ts[ii]);
            }
            return Ok(Some(t));
        }
        i = i + 1;
    }
    Ok(None)
}

/// A template's specification with its name and description filled in.
pub open spec fn fill_template_spec(content: Seq<char>, project_name: Seq<char>, description: Seq<char>) -> Seq<char> {
    crate::text::replace_spec(
        crate::text::replace_spec(content, "{{PROJECT_NAME}}"@, project_name),
        "{{DESCRIPTION}}"@,
        description,
    )
}

/// Fills a template's project name and description.
pub fn fill_template(content: &str, project_name: &str, description: &str) -> (r: String)
    ensures
        r@ == fill_template_spec(content@, project_name@, description@),
{
    proof {
        reveal_strlit("{{PROJECT_NAME}}");
        reveal_strlit("{{DESCRIPTION}}");
    }
    let a = str_replace(content, "{{PROJECT_NAME}}", project_name);
    str_replace(a.as_str(), "{{DESCRIPTION}}", description)
}

} // verus!
