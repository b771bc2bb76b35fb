//! The manual form: priorities offered, choices typed as lists, and the
//! specification assembled from the answers.

use vstd::prelude::*;
use crate::config::Config;
use crate::spec::{AppSpec, Feature, Priority, TechStack};
use crate::text::{
    eq_ignore_case, owned, push_lit, push_owned, split_spec, split_str, str_eq_ignore_case, str_trim,
    trim_spec, views,
};

verus! {

/// A priority offered in the form, with its label.
#[derive(Debug, Clone)]
pub struct PriorityOption {
    pub label: String,
    pub value: Priority,
}

/// The priority a configured entry names (its case ignored), if any.
pub open spec fn priority_word(entry: Seq<char>) -> Option<Priority> {
    if eq_ignore_case(entry, "critical"@) {
        Some(Priority::Critical)
    } else if eq_ignore_case(entry, "high"@) {
        Some(Priority::High)
    } else if eq_ignore_case(entry, "medium"@) {
        Some(Priority::Medium)
    } else if eq_ignore_case(entry, "low"@) {
        Some(Priority::Low)
    } else {
        None
    }
}

/// The priorities the configured entries name, in order.
pub open spec fn named_priorities(entries: Seq<Seq<char>>) -> Seq<Priority>
    decreases entries.len(),
{
    if entries.len() == 0 {
        Seq::empty()
    } else {
        let rest = named_priorities(entries.drop_last());
        match priority_word(entries.last()) {
            Some(p) => rest.push(p),
            None => rest,
        }
    }
}

/// The priorities offered: those configured, or all four when none is.
pub open spec fn offered_priorities(entries: Seq<Seq<char>>) -> Seq<Priority> {
    let p = named_priorities(entries);
    if p.len() == 0 {
        seq![Priority::Critical, Priority::High, Priority::Medium, Priority::Low]
    } else {
        p
    }
}

/// The label of a priority.
pub open spec fn priority_label(p: Priority) -> Seq<char> {
    match p {
        Priority::Critical => "Critical"@,
        Priority::High => "High"@,
        Priority::Medium => "Medium"@,
        Priority::Low => "Low"@,
    }
}

/// The options as priorities.
pub open spec fn option_values(v: Seq<PriorityOption>) -> Seq<Priority> {
    v.map_values(|o: PriorityOption| o.value)
}

/// An option for a priority.
fn option_for(p: Priority) -> (o: PriorityOption)
    ensures
        o.value == p,
        o.label@ == priority_label(p),
{
    let label = match p {
        Priority::Critical => owned("Critical"),
        Priority::High => owned("High"),
        Priority::Medium => owned("Medium"),
        Priority::Low => owned("Low"),
    };
    PriorityOption { label, value: p }
}

/// Appends an option.
fn push_option(v: &mut Vec<PriorityOption>, p: Priority)
    ensures
        final(v)@.len() == old(v)@.len() + 1,
        forall|k: int| 0 <= k < old(v)@.len() ==> #[trigger] final(v)@[k] == old(v)@[k],
        final(v)@[old(v)@.len() as int].value == p,
        final(v)@[old(v)@.len() as int].label@ == priority_label(p),
        option_values(final(v)@) == option_values(old(v)@).push(p),
{
    let o = option_for(p);
    v.push(o);
    assert(option_values(v@) =~= option_values(old(v)@).push(p));
}

/// The priority a configured entry names.
fn entry_priority(entry: &str) -> (r: Option<Priority>)
    ensures
        r == priority_word(entry@),
{
    if str_eq_ignore_case(entry, "critical") {
        Some(Priority::Critical)
    } else if str_eq_ignore_case(entry, "high") {
        Some(Priority::High)
    } else if str_eq_ignore_case(entry, "medium") {
        Some(Priority::Medium)
    } else if str_eq_ignore_case(entry, "low") {
        Some(Priority::Low)
    } else {
        None
    }
}

/// The priority options in configured order (the configured entries are
/// matched without regard to case); all four when none is recognized.
pub fn build_priority_options(config: &Config) -> (v: Vec<PriorityOption>)
    ensures
        option_values(v@) == offered_priorities(views(config.features.priorities@)),
        forall|i: int| 0 <= i < v@.len() ==> #[trigger] v@[i].label@ == priority_label(v@[i].value),
{
    let entries = &config.features.priorities;
    let ghost ev = views(entries@);
    let mut v: Vec<PriorityOption> = Vec::new();
    let mut i: usize = 0;
    while i < entries.len()
        invariant
            i <= entries@.len(),
            ev == views(entries@),
            option_values(v@) == named_priorities(ev.subrange(0, i as int)),
            forall|k: int| 0 <= k < v@.len() ==> #[trigger] v@[k].label@ == priority_label(v@[k].value),
        decreases entries.len() - i,
    {
        let ghost prev = ev.subrange(0, i as int);
        let ghost cur = ev.subrange(0, i + 1);
        assert(cur.drop_last() =~= prev);
        match entry_priority(entries[i].as_str()) {
            Some(p) => {
                push_option(&mut v, p);
            },
            None => {},
        }
        i = i + 1;
    }
    assert(ev.subrange(0, entries@.len() as int) =~= ev);
    if v.len() == 0 {
        push_option(&mut v, Priority::Critical);
        push_option(&mut v, Priority::High);
        push_option(&mut v, Priority::Medium);
        push_option(&mut v, Priority::Low);
        assert(forall|k: int| 0 <= k < v@.len() ==> #[trigger] v@[k].label@ == priority_label(v@[k].value));
        assert(option_values(v@) =~= seq![Priority::Critical, Priority::High, Priority::Medium, Priority::Low]);
    }
    v
}

/// The index of the first `Medium` option, or 0.
pub open spec fn default_priority_index_spec(ps: Seq<Priority>) -> nat {
    if exists|i: int| 0 <= i < ps.len() && ps[i] == Priority::Medium {
        (choose|i: int| 0 <= i < ps.len() && ps[i] == Priority::Medium && forall|j: int| 0 <= j < i ==> ps[j] != Priority::Medium) as nat
    } else {
        0
    }
}

/// The option selected by default: the first `Medium`, or the first one.
pub fn default_priority_index(options: &Vec<PriorityOption>) -> (r: usize)
    ensures
        r == default_priority_index_spec(option_values(options@)),
{
    let ghost ps = option_values(options@);
    let mut i: usize = 0;
    while i < options.len()
        invariant
            i <= options@.len(),
            ps == option_values(options@),
            forall|j: int| 0 <= j < i ==> ps[j] != Priority::Medium,
        decreases options.len() - i,
    {
        if options[i].value == Priority::Medium {
            proof {
                let ii = i as int;
                assert(ps[ii] == Priority::Medium);
                assert(0 <= ii < ps.len() && ps[ii] == Priority::Medium && forall|j: int| 0 <= j < ii ==> ps[j] != Priority::Medium);
                let k = choose|k: int| 0 <= k < ps.len() && ps[k] == Priority::Medium && forall|j: int| 0 <= j < k ==> ps[j] != Priority::Medium;
                assert(k == ii) by {
                    if k < ii {
                        assert(ps[k] != Priority::Medium);
                    }
                    if k > ii {
                        assert(ps[ii] != Priority::Medium);
                    }
                }
            }
            return i;
        }
        i = i + 1;
    }
    0
}

/// The priority at a selected index, `Medium` when out of range.
pub fn priority_at(options: &Vec<PriorityOption>, idx: usize) -> (p: Priority)
    ensures
        idx < options@.len() ==> p == options@[idx as int].value,
        idx >= options@.len() ==> p == Priority::Medium,
{
    if idx < options.len() { options[idx].value } else { Priority::Medium }
}

/// The trimmed, non-empty pieces of a comma-separated list.
pub open spec fn list_items(pieces: Seq<Seq<char>>) -> Seq<Seq<char>>
    decreases pieces.len(),
{
    if pieces.len() == 0 {
        Seq::empty()
    } else {
        let rest = list_items(pieces.drop_last());
        let t = trim_spec(pieces.last());
        if t.len() > 0 { rest.push(t) } else { rest }
    }
}

/// The items of a comma-separated answer.
pub open spec fn choices_spec(s: Seq<char>) -> Seq<Seq<char>> {
    list_items(split_spec(s, ','))
}

/// Reads a comma-separated answer: its trimmed, non-empty items.
pub fn parse_choices(selection: &str) -> (r: Vec<String>)
    ensures
        views(r@) == choices_spec(selection@),
{
    let pieces = split_str(selection, ',');
    let ghost pv = views(pieces@);
    let mut r: Vec<String> = Vec::new();
    let mut i: usize = 0;
    while i < pieces.len()
        invariant
            i <= pieces@.len(),
            pv == views(pieces@),
            views(r@) == list_items(pv.subrange(0, i as int)),
        decreases pieces.len() - i,
    {
        let ghost prev = pv.subrange(0, i as int);
        let ghost cur = pv.subrange(0, i + 1);
        assert(cur.drop_last() =~= prev);
        let t = str_trim(pieces[i].as_str());
        if !t.as_str().is_empty() {
            push_owned(&mut r, t);
        }
        i = i + 1;
    }
    assert(pv.subrange(0, pieces@.len() as int) =~= pv);
    r
}

/// Whether an item reads "other" (case ignored).
pub open spec fn is_other(item: Seq<char>) -> bool {
    eq_ignore_case(item, "other"@)
}

/// Whether any item reads "other".
pub open spec fn mentions_other(items: Seq<Seq<char>>) -> bool {
    exists|i: int| 0 <= i < items.len() && is_other(#[trigger] items[i])
}

/// The items that do not read "other".
pub open spec fn without_other(items: Seq<Seq<char>>) -> Seq<Seq<char>>
    decreases items.len(),
{
    if items.len() == 0 {
        Seq::empty()
    } else {
        let rest = without_other(items.drop_last());
        if is_other(items.last()) { rest } else { rest.push(items.last()) }
    }
}

/// The items of a list answer: when one of them reads "other", those that
/// do not, followed by the items of the custom answer.
pub open spec fn merged_choices_spec(items: Seq<Seq<char>>, custom: Seq<char>) -> Seq<Seq<char>> {
    if mentions_other(items) {
        without_other(items) + choices_spec(custom)
    } else {
        items
    }
}

/// Whether a list answer asks for custom items ("other").
pub fn needs_custom(items: &Vec<String>) -> (b: bool)
    ensures
        b == mentions_other(views(items@)),
{
    let mut i: usize = 0;
    while i < items.len()
        invariant
            i <= items@.len(),
            forall|k: int| 0 <= k < i ==> !is_other(#[trigger] views(items@)[k]),
        decreases items.len() - i,
    {
        if str_eq_ignore_case(items[i].as_str(), "other") {
            assert(is_other(views(items@)[i as int]));
            return true;
        }
        i = i + 1;
    }
    false
}

/// The items of a list answer with "other" replaced by the custom items.
pub fn merge_choices(items: Vec<String>, custom: &str) -> (r: Vec<String>)
    ensures
        views(r@) == merged_choices_spec(views(items@), custom@),
{
    if !needs_custom(&items) {
        return items;
    }
    let ghost iv = views(items@);
    let mut r: Vec<String> = Vec::new();
    let mut i: usize = 0;
    while i < items.len()
        invariant
            i <= items@.len(),
            iv == views(items@),
            views(r@) == without_other(iv.subrange(0, i as int)),
        decreases items.len() - i,
    {
        let ghost prev = iv.subrange(0, i as int);
        let ghost cur = iv.subrange(0, i + 1);
        assert(cur.drop_last() =~= prev);
        if !str_eq_ignore_case(items[i].as_str(), "other") {
            push_owned(&mut r, owned(items[i].as_str()));
        }
        i = i + 1;
    }
    assert(iv.subrange(0, items@.len() as int) =~= iv);
    let extra = parse_choices(custom);
    let ghost before = views(r@);
    let mut j: usize = 0;
    while j < extra.len()
        invariant
            j <= extra@.len(),
            views(r@) == before + views(extra@).subrange(0, j as int),
        decreases extra.len() - j,
    {
        push_owned(&mut r, owned(extra[j].as_str()));
        j = j + 1;
        assert(views(r@) =~= before + views(extra@).subrange(0, j as int));
    }
    assert(views(extra@).subrange(0, extra@.len() as int) =~= views(extra@));
    r
}

/// The specification the manual form builds from its answers.
pub fn assemble_spec(
    project_name: &str,
    overview: String,
    technology: Option<TechStack>,
    features: Vec<Feature>,
    success_criteria: Vec<String>,
) -> (s: AppSpec)
    ensures
        s.project_name@ == project_name@,
        s.overview == overview,
        s.technology == technology,
        s.features == features,
        s.success_criteria == success_criteria,
        s.database is None,
        s.api_endpoints is None,
{
    let mut spec = AppSpec::new(project_name);
    spec.overview = overview;
    spec.features = features;
    spec.success_criteria = success_criteria;
    spec.technology = technology;
    spec
}

/// A technology stack from the chosen languages and frameworks.
pub fn tech_stack_from(languages: Vec<String>, frameworks: Vec<String>) -> (t: TechStack)
    ensures
        t.languages == languages,
        t.frameworks == frameworks,
        t.tools@.len() == 0,
{
    TechStack { languages, frameworks, tools: Vec::new() }
}

/// A feature from the form's answers, without sub-features.
pub fn feature_from(name: String, description: String, priority: Priority) -> (f: Feature)
    ensures
        f.name == name,
        f.description == description,
        f.priority == priority,
        f.sub_features@.len() == 0,
{
    Feature { name, description, priority, sub_features: Vec::new() }
}

} // verus!
