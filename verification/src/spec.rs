//! The application specification schema and its text form.

use vstd::prelude::*;
use crate::text::{contains_spec, join_spec, join_strings, matches_at, owned, push_str, views};

verus! {

/// An application specification, independent of technology.
#[derive(Debug, Clone, Default)]
pub struct AppSpec {
    pub project_name: String,
    pub overview: String,
    pub features: Vec<Feature>,
    pub success_criteria: Vec<String>,
    pub technology: Option<TechStack>,
    pub database: Option<DatabaseConfig>,
    pub api_endpoints: Option<Vec<ApiEndpoint>>,
}

/// A feature of the application.
#[derive(Debug, Clone)]
pub struct Feature {
    pub name: String,
    pub description: String,
    pub priority: Priority,
    pub sub_features: Vec<String>,
}

/// How important a feature is.
#[derive(Debug, Clone, Copy, PartialEq, Eq, Default, Structural)]
pub enum Priority {
    Critical,
    High,
    #[default]
    Medium,
    Low,
}

/// Languages, frameworks and tools.
#[derive(Debug, Clone, Default)]
pub struct TechStack {
    pub languages: Vec<String>,
    pub frameworks: Vec<String>,
    pub tools: Vec<String>,
}

/// The database and its tables.
#[derive(Debug, Clone)]
pub struct DatabaseConfig {
    pub db_type: String,
    pub tables: Vec<String>,
}

/// An API endpoint.
#[derive(Debug, Clone)]
pub struct ApiEndpoint {
    pub method: String,
    pub path: String,
    pub description: String,
}

/// The lowercase name of a priority.
pub open spec fn priority_name(p: Priority) -> Seq<char> {
    match p {
        Priority::Critical => "critical"@,
        Priority::High => "high"@,
        Priority::Medium => "medium"@,
        Priority::Low => "low"@,
    }
}

impl Priority {
    /// The lowercase name of the priority.
    pub fn as_str(&self) -> (s: &'static str)
        ensures
            s@ == priority_name(*self),
    {
        match self {
            Priority::Critical => "critical",
            Priority::High => "high",
            Priority::Medium => "medium",
            Priority::Low => "low",
        }
    }
}

/// The concatenation of a sequence of texts.
pub open spec fn concat_all(parts: Seq<Seq<char>>) -> Seq<char>
    decreases parts.len(),
{
    if parts.len() == 0 {
        Seq::empty()
    } else {
        concat_all(parts.drop_last()) + parts.last()
    }
}

/// One line per item: "{prefix}{item}\n".
pub open spec fn bullet_lines(prefix: Seq<char>, items: Seq<Seq<char>>) -> Seq<char> {
    concat_all(items.map_values(|i: Seq<char>| prefix + i + "\n"@))
}

/// "{indent}<{tag}>{items joined by ', '}</{tag}>\n" when there are items.
pub open spec fn list_line(tag: Seq<char>, items: Seq<Seq<char>>) -> Seq<char> {
    if items.len() == 0 {
        Seq::empty()
    } else {
        "    <"@ + tag + ">"@ + join_spec(items, ", "@) + "</"@ + tag + ">\n"@
    }
}

/// The technology block.
pub open spec fn tech_text(t: TechStack) -> Seq<char> {
    "  <technology_stack>\n"@ + list_line("languages"@, views(t.languages@)) + list_line(
        "frameworks"@,
        views(t.frameworks@),
    ) + list_line("tools"@, views(t.tools@)) + "  </technology_stack>\n\n"@
}

/// The block of one feature.
pub open spec fn feature_text(f: Feature) -> Seq<char> {
    "    <feature priority=\""@ + priority_name(f.priority) + "\">\n"@ + "      <name>"@ + f.name@
        + "</name>\n"@ + "      <description>"@ + f.description@ + "</description>\n"@ + (if f.sub_features@.len()
        == 0 {
        Seq::empty()
    } else {
        "      <sub_features>\n"@ + bullet_lines("        - "@, views(f.sub_features@))
            + "      </sub_features>\n"@
    }) + "    </feature>\n"@
}

/// The block of one endpoint.
pub open spec fn endpoint_text(e: ApiEndpoint) -> Seq<char> {
    "    <endpoint>\n"@ + "      <method>"@ + e.method@ + "</method>\n"@ + "      <path>"@ + e.path@
        + "</path>\n"@ + "      <description>"@ + e.description@ + "</description>\n"@
        + "    </endpoint>\n"@
}

/// The database block.
pub open spec fn database_text(d: DatabaseConfig) -> Seq<char> {
    "  <database>\n"@ + "    <type>"@ + d.db_type@ + "</type>\n"@ + "    <tables>\n"@ + bullet_lines(
        "      - "@,
        views(d.tables@),
    ) + "    </tables>\n"@ + "  </database>\n\n"@
}

/// The text form of a specification (the `app_brief.md` format).
pub open spec fn spec_text(a: AppSpec) -> Seq<char> {
    "<project_specification>\n"@ + "  <project_name>"@ + a.project_name@ + "</project_name>\n\n"@
        + "  <overview>\n"@ + "    "@ + a.overview@ + "\n"@ + "  </overview>\n\n"@ + (match a.technology {
        Some(t) => tech_text(t),
        None => Seq::empty(),
    }) + "  <core_features>\n"@ + concat_all(a.features@.map_values(|f: Feature| feature_text(f)))
        + "  </core_features>\n\n"@ + (match a.database {
        Some(d) => database_text(d),
        None => Seq::empty(),
    }) + (match a.api_endpoints {
        Some(es) => "  <api_endpoints>\n"@ + concat_all(es@.map_values(|e: ApiEndpoint| endpoint_text(e)))
            + "  </api_endpoints>\n\n"@,
        None => Seq::empty(),
    }) + "  <success_criteria>\n"@ + bullet_lines("    - "@, views(a.success_criteria@))
        + "  </success_criteria>\n"@ + "</project_specification>\n"@
}

/// Appends one line per item.
fn push_bullets(out: &mut String, prefix: &str, items: &Vec<String>)
    ensures
        final(out)@ == old(out)@ + bullet_lines(prefix@, views(items@)),
{
    let ghost f = |i: Seq<char>| prefix@ + i + "\n"@;
    let mut i: usize = 0;
    while i < items.len()
        invariant
            i <= items@.len(),
            f == (|i: Seq<char>| prefix@ + i + "\n"@),
            out@ == old(out)@ + concat_all(views(items@).subrange(0, i as int).map_values(f)),
        decreases items.len() - i,
    {
        push_str(out, prefix);
        push_str(out, items[i].as_str());
        push_str(out, "\n");
        i = i + 1;
        proof {
            let cur = views(items@).subrange(0, i as int).map_values(f);
            let prev = views(items@).subrange(0, i - 1).map_values(f);
            assert(cur.drop_last() =~= prev);
            assert(cur.last() == f(items@[i - 1]@));
        }
    }
    assert(views(items@).subrange(0, items@.len() as int) =~= views(items@));
}

/// Appends the list line of a tag when there are items.
fn push_list_line(out: &mut String, tag: &str, items: &Vec<String>)
    ensures
        final(out)@ == old(out)@ + list_line(tag@, views(items@)),
{
    if items.len() > 0 {
        push_str(out, "    <");
        push_str(out, tag);
        push_str(out, ">");
        push_str(out, join_strings(items, ", ").as_str());
        push_str(out, "</");
        push_str(out, tag);
        push_str(out, ">\n");
    }
}

/// Appends the block of one feature.
fn push_feature(out: &mut String, f: &Feature)
    ensures
        final(out)@ == old(out)@ + feature_text(*f),
{
    push_str(out, "    <feature priority=\"");
    push_str(out, f.priority.as_str());
    push_str(out, "\">\n");
    push_str(out, "      <name>");
    push_str(out, f.name.as_str());
    push_str(out, "</name>\n");
    push_str(out, "      <description>");
    push_str(out, f.description.as_str());
    push_str(out, "</description>\n");
    let ghost mid = out@;
    if f.sub_features.len() > 0 {
        push_str(out, "      <sub_features>\n");
        push_bullets(out, "        - ", &f.sub_features);
        push_str(out, "      </sub_features>\n");
    }
    push_str(out, "    </feature>\n");
    assert(out@ =~= old(out)@ + feature_text(*f));
}

/// Appends the block of one endpoint.
fn push_endpoint(out: &mut String, e: &ApiEndpoint)
    ensures
        final(out)@ == old(out)@ + endpoint_text(*e),
{
    push_str(out, "    <endpoint>\n");
    push_str(out, "      <method>");
    push_str(out, e.method.as_str());
    push_str(out, "</method>\n");
    push_str(out, "      <path>");
    push_str(out, e.path.as_str());
    push_str(out, "</path>\n");
    push_str(out, "      <description>");
    push_str(out, e.description.as_str());
    push_str(out, "</description>\n");
    push_str(out, "    </endpoint>\n");
    assert(out@ =~= old(out)@ + endpoint_text(*e));
}

/// Appends the blocks of all features.
fn push_features(out: &mut String, fs: &Vec<Feature>)
    ensures
        final(out)@ == old(out)@ + concat_all(fs@.map_values(|f: Feature| feature_text(f))),
{
    let mut i: usize = 0;
    while i < fs.len()
        invariant
            i <= fs@.len(),
            out@ == old(out)@ + concat_all(fs@.subrange(0, i as int).map_values(|f: Feature| feature_text(f))),
        decreases fs.len() - i,
    {
        push_feature(out, &fs[i]);
        i = i + 1;
        proof {
            let cur = fs@.subrange(0, i as int).map_values(|f: Feature| feature_text(f));
            let prev = fs@.subrange(0, i - 1).map_values(|f: Feature| feature_text(f));
            assert(cur.drop_last() =~= prev);
        }
    }
    assert(fs@.subrange(0, fs@.len() as int) =~= fs@);
}

/// Appends the blocks of all endpoints.
fn push_endpoints(out: &mut String, es: &Vec<ApiEndpoint>)
    ensures
        final(out)@ == old(out)@ + concat_all(es@.map_values(|e: ApiEndpoint| endpoint_text(e))),
{
    let mut i: usize = 0;
    while i < es.len()
        invariant
            i <= es@.len(),
            out@ == old(out)@ + concat_all(es@.subrange(0, i as int).map_values(|e: ApiEndpoint| endpoint_text(e))),
        decreases es.len() - i,
    {
        push_endpoint(out, &es[i]);
        i = i + 1;
        proof {
            let cur = es@.subrange(0, i as int).map_values(|e: ApiEndpoint| endpoint_text(e));
            let prev = es@.subrange(0, i - 1).map_values(|e: ApiEndpoint| endpoint_text(e));
            assert(cur.drop_last() =~= prev);
        }
    }
    assert(es@.subrange(0, es@.len() as int) =~= es@);
}

/// Appends the technology block.
fn push_tech(out: &mut String, t: &TechStack)
    ensures
        final(out)@ == old(out)@ + tech_text(*t),
{
    push_str(out, "  <technology_stack>\n");
    push_list_line(out, "languages", &t.languages);
    push_list_line(out, "frameworks", &t.frameworks);
    push_list_line(out, "tools", &t.tools);
    push_str(out, "  </technology_stack>\n\n");
    assert(out@ =~= old(out)@ + tech_text(*t));
}

/// Appends the database block.
fn push_database(out: &mut String, d: &DatabaseConfig)
    ensures
        final(out)@ == old(out)@ + database_text(*d),
{
    push_str(out, "  <database>\n");
    push_str(out, "    <type>");
    push_str(out, d.db_type.as_str());
    push_str(out, "</type>\n");
    push_str(out, "    <tables>\n");
    push_bullets(out, "      - ", &d.tables);
    push_str(out, "    </tables>\n");
    push_str(out, "  </database>\n\n");
    assert(out@ =~= old(out)@ + database_text(*d));
}

impl AppSpec {
    /// An empty specification with a name.
    pub fn new(name: &str) -> (s: Self)
        ensures
            s.project_name@ == name@,
            s.overview@.len() == 0,
            s.features@.len() == 0,
            s.success_criteria@.len() == 0,
            s.technology is None,
            s.database is None,
            s.api_endpoints is None,
    {
        AppSpec {
            project_name: owned(name),
            overview: String::new(),
            features: Vec::new(),
            success_criteria: Vec::new(),
            technology: None,
            database: None,
            api_endpoints: None,
        }
    }

    /// The text form of the specification, the XML-like structure that the
    /// prompts and the validator read.
    pub fn to_spec_text(&self) -> (s: String)
        ensures
            s@ == spec_text(*self),
    {
        let mut out = owned("<project_specification>\n");
        push_str(&mut out, "  <project_name>");
        push_str(&mut out, self.project_name.as_str());
        push_str(&mut out, "</project_name>\n\n");
        push_str(&mut out, "  <overview>\n");
        push_str(&mut out, "    ");
        push_str(&mut out, self.overview.as_str());
        push_str(&mut out, "\n");
        push_str(&mut out, "  </overview>\n\n");
        let ghost a = out@;
        match &self.technology {
            Some(t) => push_tech(&mut out, t),
            None => {},
        }
        let ghost b = out@;
        push_str(&mut out, "  <core_features>\n");
        push_features(&mut out, &self.features);
        push_str(&mut out, "  </core_features>\n\n");
        let ghost c = out@;
        match &self.database {
            Some(d) => push_database(&mut out, d),
            None => {},
        }
        let ghost d = out@;
        match &self.api_endpoints {
            Some(es) => {
                push_str(&mut out, "  <api_endpoints>\n");
                push_endpoints(&mut out, es);
                push_str(&mut out, "  </api_endpoints>\n\n");
            },
            None => {},
        }
        let ghost e = out@;
        push_str(&mut out, "  <success_criteria>\n");
        push_bullets(&mut out, "    - ", &self.success_criteria);
        push_str(&mut out, "  </success_criteria>\n");
        push_str(&mut out, "</project_specification>\n");
        assert(out@ =~= spec_text(*self));
        out
    }
}

/// A text inside a part of a longer text is inside the longer text.
proof fn lemma_contains_within(a: Seq<char>, b: Seq<char>, c: Seq<char>, x: Seq<char>)
    requires
        contains_spec(b, x),
    ensures
        contains_spec(a + b + c, x),
{
    let k = choose|k: int| matches_at(b, x, k);
    assert forall|t: int| 0 <= t < x.len() implies #[trigger] (a + b + c)[a.len() + k + t] == x[t] by {
        assert(b[k + t] == x[t]);
        assert((a + b + c)[a.len() + k + t] == (a + b)[a.len() + k + t]);
    }
    assert(matches_at(a + b + c, x, a.len() + k));
}

/// A non-empty list's line holds the list, joined by commas, in its tag.
proof fn lemma_list_line_holds(tag: Seq<char>, items: Seq<Seq<char>>)
    requires
        items.len() > 0,
    ensures
        contains_spec(list_line(tag, items), "<"@ + tag + ">"@ + join_spec(items, ", "@) + "</"@ + tag + ">"@),
{
    reveal_strlit("    <");
    reveal_strlit("    ");
    reveal_strlit(">\n");
    reveal_strlit("\n");
    reveal_strlit("<");
    reveal_strlit(">");
    reveal_strlit("</");
    let x = "<"@ + tag + ">"@ + join_spec(items, ", "@) + "</"@ + tag + ">"@;
    assert("    <"@ =~= "    "@ + "<"@);
    assert(">\n"@ =~= ">"@ + "\n"@);
    assert(list_line(tag, items) =~= "    "@ + x + "\n"@);
    assert(matches_at(x, x, 0));
    lemma_contains_within("    "@, x, "\n"@, x);
}

/// What comes before the technology block: the root tag, the name and the
/// overview.
pub open spec fn head_text(a: AppSpec) -> Seq<char> {
    "<project_specification>\n"@ + "  <project_name>"@ + a.project_name@ + "</project_name>\n\n"@
        + "  <overview>\n"@ + "    "@ + a.overview@ + "\n"@ + "  </overview>\n\n"@
}

/// The technology block follows the head.
#[verifier::spinoff_prover]
proof fn lemma_spec_text_splits(a: AppSpec)
    requires
        a.technology is Some,
    ensures
        ({
            let s = spec_text(a);
            let n = head_text(a).len() + tech_text(a.technology->0).len();
            &&& n <= s.len()
            &&& s == head_text(a) + tech_text(a.technology->0) + s.subrange(n as int, s.len() as int)
        }),
{
    let s = spec_text(a);
    let n = head_text(a).len() + tech_text(a.technology->0).len();
    assert(s =~= head_text(a) + tech_text(a.technology->0) + s.subrange(n as int, s.len() as int));
}

/// The technology block holds each non-empty list in its own tag.
#[verifier::spinoff_prover]
proof fn lemma_tech_text_lists(t: TechStack)
    ensures
        t.languages@.len() > 0 ==> contains_spec(
            tech_text(t),
            "<languages>"@ + join_spec(views(t.languages@), ", "@) + "</languages>"@,
        ),
        t.frameworks@.len() > 0 ==> contains_spec(
            tech_text(t),
            "<frameworks>"@ + join_spec(views(t.frameworks@), ", "@) + "</frameworks>"@,
        ),
        t.tools@.len() > 0 ==> contains_spec(tech_text(t), "<tools>"@ + join_spec(views(t.tools@), ", "@) + "</tools>"@),
{
    reveal_strlit("<");
    reveal_strlit(">");
    reveal_strlit("</");
    reveal_strlit("languages");
    reveal_strlit("frameworks");
    reveal_strlit("tools");
    reveal_strlit("<languages>");
    reveal_strlit("</languages>");
    reveal_strlit("<frameworks>");
    reveal_strlit("</frameworks>");
    reveal_strlit("<tools>");
    reveal_strlit("</tools>");
    let tech = tech_text(t);
    let open = "  <technology_stack>\n"@;
    let ll = list_line("languages"@, views(t.languages@));
    let fl = list_line("frameworks"@, views(t.frameworks@));
    let tl = list_line("tools"@, views(t.tools@));
    let close = "  </technology_stack>\n\n"@;
    if t.languages@.len() > 0 {
        let xl = "<languages>"@ + join_spec(views(t.languages@), ", "@) + "</languages>"@;
        lemma_list_line_holds("languages"@, views(t.languages@));
        assert(xl =~= "<"@ + "languages"@ + ">"@ + join_spec(views(t.languages@), ", "@) + "</"@ + "languages"@ + ">"@);
        assert(tech =~= open + ll + (fl + tl + close));
        lemma_contains_within(open, ll, fl + tl + close, xl);
    }
    if t.frameworks@.len() > 0 {
        let xf = "<frameworks>"@ + join_spec(views(t.frameworks@), ", "@) + "</frameworks>"@;
        lemma_list_line_holds("frameworks"@, views(t.frameworks@));
        assert(xf =~= "<"@ + "frameworks"@ + ">"@ + join_spec(views(t.frameworks@), ", "@) + "</"@ + "frameworks"@ + ">"@);
        assert(tech =~= (open + ll) + fl + (tl + close));
        lemma_contains_within(open + ll, fl, tl + close, xf);
    }
    if t.tools@.len() > 0 {
        let xt = "<tools>"@ + join_spec(views(t.tools@), ", "@) + "</tools>"@;
        lemma_list_line_holds("tools"@, views(t.tools@));
        assert(xt =~= "<"@ + "tools"@ + ">"@ + join_spec(views(t.tools@), ", "@) + "</"@ + "tools"@ + ">"@);
        assert(tech =~= (open + ll + fl) + tl + close);
        lemma_contains_within(open + ll + fl, tl, close, xt);
    }
}

/// The spec text of an application with a technology stack names every
/// language, framework and tool it holds: each non-empty list appears,
/// joined by ", ", in its own tag.
pub proof fn lemma_spec_text_lists_technology(a: AppSpec)
    requires
        a.technology is Some,
    ensures
        ({
            let t = a.technology->0;
            let s = spec_text(a);
            &&& t.languages@.len() > 0 ==> contains_spec(
                s,
                "<languages>"@ + join_spec(views(t.languages@), ", "@) + "</languages>"@,
            )
            &&& t.frameworks@.len() > 0 ==> contains_spec(
                s,
                "<frameworks>"@ + join_spec(views(t.frameworks@), ", "@) + "</frameworks>"@,
            )
            &&& t.tools@.len() > 0 ==> contains_spec(s, "<tools>"@ + join_spec(views(t.tools@), ", "@) + "</tools>"@)
        }),
{
    let t = a.technology->0;
    let s = spec_text(a);
    let n = head_text(a).len() + tech_text(t).len();
    let rest = s.subrange(n as int, s.len() as int);
    lemma_spec_text_splits(a);
    lemma_tech_text_lists(t);
    let xl = "<languages>"@ + join_spec(views(t.languages@), ", "@) + "</languages>"@;
    let xf = "<frameworks>"@ + join_spec(views(t.frameworks@), ", "@) + "</frameworks>"@;
    let xt = "<tools>"@ + join_spec(views(t.tools@), ", "@) + "</tools>"@;
    if t.languages@.len() > 0 {
        lemma_contains_within(head_text(a), tech_text(t), rest, xl);
    }
    if t.frameworks@.len() > 0 {
        lemma_contains_within(head_text(a), tech_text(t), rest, xf);
    }
    if t.tools@.len() > 0 {
        lemma_contains_within(head_text(a), tech_text(t), rest, xt);
    }
}

} // verus!
