//! The decisions of spec generation: the first prompt, the model of each
//! attempt, and what each attempt's outcome leads to (a result, another
//! attempt with a repair prompt, or giving up). Running the model happens
//! outside, one attempt at a time.

use vstd::prelude::*;
use crate::config::{Config, is_minimal, requirements_for};
use crate::error::ForgerError;
use crate::text::{concat2, contains_spec, join_spec, join_strings, owned, push_str, str_contains, views};
use crate::validation::{ValidationRules, validate_spec_with_config, validate_text_spec};
use super::parser::{extract_spec, extract_spec_from_output, tags_out_of_order};
use super::prompts::{
    build_fix_prompt, build_generation_prompt, build_subagent_prompt, fix_prompt_spec,
    generation_prompt_spec, opt_view, partial_cuttable, subagent_prompt_spec,
};

verus! {

/// How many times a failed attempt is retried.
pub open spec fn max_retries() -> u32 {
    5
}

/// A generation in progress: the idea, the attempt about to run (0 for
/// the first), its prompt, the last error seen, and the notice to show
/// about the attempt that just ended.
pub struct GenerationRun {
    pub idea: String,
    pub attempt: u32,
    pub prompt: String,
    pub last_error: String,
    pub notice: Option<String>,
}

/// What an attempt's outcome leads to.
#[derive(Debug)]
pub enum GenerationStep {
    /// Run the next attempt with the run's new prompt.
    Retry,
    /// The specification was generated and is valid.
    Done(String),
    /// Generation failed with this message.
    Fail(String),
}

/// The rules a configuration asks for.
pub open spec fn rules_of(c: Config) -> ValidationRules {
    ValidationRules {
        requirements: requirements_for(is_minimal(c.generation.complexity@)),
        include_security_section: c.generation.include_security_section,
        include_testing_strategy: c.generation.include_testing_strategy,
        include_devops_section: c.generation.include_devops_section,
        include_accessibility: c.generation.include_accessibility,
        include_future_enhancements: c.generation.include_future_enhancements,
    }
}

/// The message when no specification block is found.
pub open spec fn locate_failure() -> Seq<char> {
    "Could not locate <project_specification> block in output. The response may have been truncated or lacked structured XML."@
}

/// The message after the last attempt failed validation.
pub open spec fn exhausted_message(last_error: Seq<char>) -> Seq<char> {
    "Failed to generate valid specification after 5 retries.\nLast error: "@ + last_error
}

/// The first characters of a text (at most `n`).
pub open spec fn first_chars(s: Seq<char>, n: nat) -> Seq<char> {
    if s.len() <= n { s } else { s.take(n as int) }
}

/// A line of the model's output that shows progress.
pub open spec fn is_progress_line_spec(line: Seq<char>) -> bool {
    contains_spec(line, "Searching"@) || contains_spec(line, "Reading"@) || contains_spec(line, "Tool"@)
}

/// Whether a line of the model's output shows progress (and is passed on).
pub fn is_progress_line(line: &str) -> (b: bool)
    ensures
        b == is_progress_line_spec(line@),
{
    str_contains(line, "Searching") || str_contains(line, "Reading") || str_contains(line, "Tool")
}

impl GenerationRun {
    /// Starts a generation: the subagent prompt or the single-pass prompt.
    pub fn start(idea: &str, testing_preference: Option<&str>, use_subagents: bool, config: &Config) -> (r: Self)
        ensures
            r.idea@ == idea@,
            r.attempt == 0,
            r.last_error@.len() == 0,
            r.notice is None,
            use_subagents ==> r.prompt@ == subagent_prompt_spec(idea@, opt_view(testing_preference), config.generation),
            !use_subagents ==> r.prompt@ == generation_prompt_spec(idea@, opt_view(testing_preference), config.generation),
    {
        let prompt = if use_subagents {
            build_subagent_prompt(idea, testing_preference, config)
        } else {
            build_generation_prompt(idea, testing_preference, config)
        };
        GenerationRun { idea: owned(idea), attempt: 0, prompt, last_error: String::new(), notice: None }
    }

    /// The model an attempt uses: the chosen one first, the fixer model on
    /// retries.
    pub fn model<'a>(&self, chosen: &'a str, config: &'a Config) -> (m: &'a str)
        ensures
            self.attempt == 0 ==> m@ == chosen@,
            self.attempt > 0 ==> m@ == config.models.fixer@,
    {
        if self.attempt > 0 { config.models.fixer.as_str() } else { chosen }
    }

    /// The attempt failed because the model's process failed: retried
    /// unless it was the last attempt, which fails with the start of the
    /// output.
    pub fn on_process_failure(&mut self, output: &str) -> (step: GenerationStep)
        requires
            old(self).attempt <= max_retries(),
        ensures
            final(self).last_error@ == "OpenCode CLI process failed"@,
            final(self).notice matches Some(n) && n@ == "   Warning: OpenCode CLI exited with error code.\n"@,
            final(self).idea == old(self).idea,
            final(self).prompt == old(self).prompt,
            old(self).attempt == max_retries() ==> (step matches GenerationStep::Fail(m)
                && m@ == "OpenCode exited with error. Output:\n"@ + first_chars(output@, 1000)),
            old(self).attempt < max_retries() ==> (step is Retry && final(self).attempt == old(self).attempt + 1),
    {
        self.last_error = owned("OpenCode CLI process failed");
        self.notice = Some(owned("   Warning: OpenCode CLI exited with error code.\n"));
        if self.attempt == 5 {
            let cs = crate::text::to_chars(output);
            let shown = if cs.len() <= 1000 {
                crate::text::from_chars(cs.as_slice())
            } else {
                let t = crate::text::slice_chars(cs.as_slice(), 0, 1000);
                crate::text::from_chars(t.as_slice())
            };
            GenerationStep::Fail(concat2("OpenCode exited with error. Output:\n", shown.as_str()))
        } else {
            self.attempt = self.attempt + 1;
            GenerationStep::Retry
        }
    }

    /// The attempt produced output: a valid specification in it ends the
    /// generation; otherwise the next attempt gets a repair prompt (with the
    /// validation errors, or the note that no block was found), unless this
    /// was the last attempt.
    pub fn on_output(&mut self, output: &str, config: &Config) -> (step: GenerationStep)
        requires
            old(self).attempt <= max_retries(),
            !tags_out_of_order(output@),
            partial_cuttable(Some(output@)),
        ensures
            final(self).idea == old(self).idea,
            match extract_spec(output@) {
                Ok(spec) => {
                    let v = validate_text_spec(spec, Some(rules_of(*config)));
                    if v.0 {
                        &&& step matches GenerationStep::Done(s) && s@ == spec
                        &&& final(self).notice is None
                    } else {
                        &&& final(self).last_error@ == join_spec(v.1, "\n"@)
                        &&& final(self).prompt@ == fix_prompt_spec(old(self).idea@, final(self).last_error@, Some(output@))
                        &&& final(self).notice matches Some(n) && n@ == "   ⚠️  Validation error: "@ + final(self).last_error@ + "\n"@
                    }
                },
                Err(m) => {
                    &&& final(self).last_error@ == "Could not extract XML: "@ + m
                    &&& final(self).prompt@ == fix_prompt_spec(old(self).idea@, locate_failure(), Some(output@))
                    &&& final(self).notice is None
                },
            },
            !(step is Done) ==> (if old(self).attempt == max_retries() {
                step matches GenerationStep::Fail(m) && m@ == exhausted_message(final(self).last_error@)
            } else {
                step is Retry && final(self).attempt == old(self).attempt + 1
            }),
    {
        self.notice = None;
        match extract_spec_from_output(output) {
            Ok(spec) => {
                match validate_spec_with_config(spec.as_str(), config) {
                    Ok(v) => {
                        if v.is_valid {
                            return GenerationStep::Done(spec);
                        }
                        self.last_error = join_strings(&v.errors, "\n");
                        let mut n = owned("   ⚠️  Validation error: ");
                        push_str(&mut n, self.last_error.as_str());
                        push_str(&mut n, "\n");
                        self.notice = Some(n);
                    },
                    Err(e) => {
                        self.last_error = concat2("Validator error: ", e.message.as_str());
                    },
                }
                self.prompt = build_fix_prompt(self.idea.as_str(), self.last_error.as_str(), Some(output));
            },
            Err(e) => {
                self.last_error = concat2("Could not extract XML: ", e.message.as_str());
                self.prompt = build_fix_prompt(
                    self.idea.as_str(),
                    "Could not locate <project_specification> block in output. The response may have been truncated or lacked structured XML.",
                    Some(output),
                );
            },
        }
        if self.attempt == 5 {
            GenerationStep::Fail(concat2(
                "Failed to generate valid specification after 5 retries.\nLast error: ",
                self.last_error.as_str(),
            ))
        } else {
            self.attempt = self.attempt + 1;
            GenerationStep::Retry
        }
    }
}

/// The notice shown before a retry.
pub fn retry_notice(model: &str, attempt: u32) -> (s: String)
    ensures
        s@ == "\n⚠️  Spec validation failed. Retrying with "@ + model@ + " (attempt "@ + crate::text::decimal(attempt as nat)
            + "/5)...\n"@,
{
    let mut s = owned("\n⚠️  Spec validation failed. Retrying with ");
    push_str(&mut s, model);
    push_str(&mut s, " (attempt ");
    push_str(&mut s, crate::text::decimal_string(attempt as u64).as_str());
    push_str(&mut s, "/5)...\n");
    s
}

/// The notices shown when a refinement starts, with the model it uses.
pub fn refine_notices(model: &str) -> (v: Vec<String>)
    ensures
        views(v@) == seq![
            "🔧 Refining specification with OpenCode (model: "@ + model@ + ")...\n"@,
            "   (Applying your refinement instructions)\n\n"@,
        ],
{
    let mut v: Vec<String> = Vec::new();
    let mut first = owned("🔧 Refining specification with OpenCode (model: ");
    push_str(&mut first, model);
    push_str(&mut first, ")...\n");
    crate::text::push_owned(&mut v, first);
    crate::text::push_lit(&mut v, "   (Applying your refinement instructions)\n\n");
    v
}

/// What a refinement run yields: when the model's process failed, an error
/// with the start of its output; otherwise the specification found in the
/// output, or the error that none was found.
pub fn refine_outcome(success: bool, output: &str) -> (r: Result<String, ForgerError>)
    requires
        !tags_out_of_order(output@),
    ensures
        !success ==> (r matches Err(e) && e.message@ == "OpenCode exited with error. Output:\n"@ + first_chars(output@, 1000)),
        success ==> match (r, extract_spec(output@)) {
            (Ok(s), Ok(t)) => s@ == t,
            (Err(e), Err(m)) => e.message@ == m,
            _ => false,
        },
{
    if !success {
        let cs = crate::text::to_chars(output);
        let shown = if cs.len() <= 1000 {
            crate::text::from_chars(cs.as_slice())
        } else {
            let t = crate::text::slice_chars(cs.as_slice(), 0, 1000);
            crate::text::from_chars(t.as_slice())
        };
        return Err(ForgerError { message: concat2("OpenCode exited with error. Output:\n", shown.as_str()) });
    }
    extract_spec_from_output(output)
}

} // verus!
