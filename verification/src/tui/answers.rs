//! How typed answers to prompts are read.

use vstd::prelude::*;
use crate::text::{
    eq_ignore_case, is_blank, join_spec, join_strings, owned, parse_u64, parse_u64_spec, push_owned,
    str_blank, str_eq_ignore_case, str_trim, trim_spec, views,
};

verus! {

/// A yes/no answer: `y` or `yes` is yes, `n` or `no` is no (ignoring
/// surrounding whitespace and case), anything else the default.
pub open spec fn confirm_spec(input: Seq<char>, default: bool) -> bool {
    let t = trim_spec(input);
    if eq_ignore_case(t, "y"@) || eq_ignore_case(t, "yes"@) {
        true
    } else if eq_ignore_case(t, "n"@) || eq_ignore_case(t, "no"@) {
        false
    } else {
        default
    }
}

/// Reads a yes/no answer.
pub fn confirm_answer(input: &str, default: bool) -> (b: bool)
    ensures
        b == confirm_spec(input@, default),
{
    let t = str_trim(input);
    if str_eq_ignore_case(t.as_str(), "y") || str_eq_ignore_case(t.as_str(), "yes") {
        true
    } else if str_eq_ignore_case(t.as_str(), "n") || str_eq_ignore_case(t.as_str(), "no") {
        false
    } else {
        default
    }
}

/// The hint shown after a yes/no question.
pub fn confirm_hint(default: bool) -> (s: &'static str)
    ensures
        default ==> s@ == "Y/n"@,
        !default ==> s@ == "y/N"@,
{
    if default { "Y/n" } else { "y/N" }
}

/// The index a numbered choice selects: the default for a blank answer;
/// the number minus one for a number (the default when the answer is not
/// a number); at most the last index.
pub open spec fn select_spec(input: Seq<char>, count: nat, default: nat) -> nat {
    let t = trim_spec(input);
    let picked: nat = if t.len() == 0 {
        default
    } else {
        match parse_u64_spec(t) {
            Some(n) => if n as nat <= usize::MAX { if n > 0 { (n - 1) as nat } else { 0 } } else { default },
            None => default,
        }
    };
    let last: nat = if count > 0 { (count - 1) as nat } else { 0 };
    if picked <= last { picked } else { last }
}

/// Reads a numbered choice among `count` items.
pub fn select_answer(input: &str, count: usize, default: usize) -> (r: usize)
    requires
        default < usize::MAX,
    ensures
        r == select_spec(input@, count as nat, default as nat),
{
    let t = str_trim(input);
    let picked: usize = if t.as_str().is_empty() {
        default
    } else {
        match parse_u64(t.as_str()) {
            Some(n) => if n <= usize::MAX as u64 {
                let k = n as usize;
                if k > 0 { k - 1 } else { 0 }
            } else {
                default
            },
            None => default,
        }
    };
    let last: usize = if count > 0 { count - 1 } else { 0 };
    if picked <= last { picked } else { last }
}

/// A text answer: the default (or nothing) when blank, the answer as typed
/// otherwise.
pub open spec fn input_spec(input: Seq<char>, default: Option<Seq<char>>) -> Seq<char> {
    if is_blank(input) {
        match default {
            Some(d) => d,
            None => Seq::empty(),
        }
    } else {
        input
    }
}

/// Reads a text answer.
pub fn input_answer(input: &str, default: Option<&str>) -> (s: String)
    ensures
        s@ == input_spec(input@, match default { Some(d) => Some(d@), None => None }),
{
    if str_blank(input) {
        match default {
            Some(d) => owned(d),
            None => String::new(),
        }
    } else {
        owned(input)
    }
}

/// An optional answer: nothing when blank.
pub fn optional_answer(input: &str) -> (r: Option<String>)
    ensures
        is_blank(input@) ==> r is None,
        !is_blank(input@) ==> (r matches Some(s) && s@ == input@),
{
    if str_blank(input) { None } else { Some(owned(input)) }
}

/// Multi-line input in progress: the non-blank lines so far and how many
/// blank lines came last.
pub struct MultilineInput {
    pub lines: Vec<String>,
    pub consecutive_empty: usize,
    pub done: bool,
}

impl MultilineInput {
    /// Input that has read nothing yet.
    pub fn new() -> (m: Self)
        ensures
            m.lines@.len() == 0,
            m.consecutive_empty == 0,
            !m.done,
    {
        MultilineInput { lines: Vec::new(), consecutive_empty: 0, done: false }
    }

    /// Reads one line; input ends after `limit` blank lines in a row.
    pub fn feed(&mut self, line: &str, limit: usize)
        requires
            !old(self).done,
            old(self).consecutive_empty < limit,
        ensures
            is_blank(line@) ==> views(final(self).lines@) == views(old(self).lines@)
                && final(self).consecutive_empty == old(self).consecutive_empty + 1
                && final(self).done == (old(self).consecutive_empty + 1 >= limit),
            !is_blank(line@) ==> views(final(self).lines@) == views(old(self).lines@).push(line@)
                && final(self).consecutive_empty == 0 && !final(self).done,
    {
        if str_blank(line) {
            self.consecutive_empty = self.consecutive_empty + 1;
            if self.consecutive_empty >= limit {
                self.done = true;
            }
        } else {
            self.consecutive_empty = 0;
            push_owned(&mut self.lines, owned(line));
        }
    }

    /// The text read: the non-blank lines joined by newlines, or `None` when
    /// it is blank (the prompt is then asked again).
    pub fn text(&self) -> (r: Option<String>)
        ensures
            is_blank(join_spec(views(self.lines@), "\n"@)) ==> r is None,
            !is_blank(join_spec(views(self.lines@), "\n"@)) ==> (r matches Some(s) && s@ == join_spec(
                views(self.lines@),
                "\n"@,
            )),
    {
        let s = join_strings(&self.lines, "\n");
        if str_blank(s.as_str()) { None } else { Some(s) }
    }
}

} // verus!
