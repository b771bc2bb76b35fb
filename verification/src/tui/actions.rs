//! The review loop after a spec was generated: what each chosen action leads
//! to, and the numbered listing shown before a refinement.

use vstd::prelude::*;
use crate::text::{
    decimal, decimal_chars, decimal_string, lines_chars, lines_spec, owned, push_chars, push_str,
    to_chars, views,
};
use crate::theming::boxes::{repeat_char, repeat_str};
use crate::tui::types::SpecAction;

verus! {

/// How many lines of the spec the numbered listing shows.
pub const LISTED_LINES: usize = 50;

/// What the review loop does next.
#[derive(Debug, Clone, Copy, PartialEq, Eq, Structural)]
pub enum ReviewStep {
    /// Ask whether a spec with errors should be scaffolded anyway.
    ConfirmScaffold,
    /// Scaffold the project and leave the loop.
    Scaffold,
    /// Open the spec in an editor, then review it again.
    Edit,
    /// Write the spec to a file and leave the loop.
    Save,
    /// Ask for refinement instructions, then review again.
    Refine,
    /// Generate a fresh spec.
    Regenerate,
    /// Show the review screen again.
    ReviewAgain,
    /// Leave the loop without scaffolding.
    Cancel,
}

/// The step that a reviewed action leads to.
pub open spec fn step_for(action: SpecAction, is_valid: bool) -> ReviewStep {
    match action {
        SpecAction::Accept => if is_valid { ReviewStep::Scaffold } else { ReviewStep::ConfirmScaffold },
        SpecAction::Edit => ReviewStep::Edit,
        SpecAction::SaveToFile => ReviewStep::Save,
        SpecAction::Refine => ReviewStep::Refine,
        SpecAction::Regenerate => ReviewStep::Regenerate,
        SpecAction::Cancel => ReviewStep::Cancel,
    }
}

/// The steps after which the review loop is over.
pub open spec fn ends_loop(step: ReviewStep) -> bool {
    match step {
        ReviewStep::Scaffold | ReviewStep::Save | ReviewStep::Regenerate | ReviewStep::Cancel => true,
        _ => false,
    }
}

/// The step for an action chosen on the review screen: accepting a spec
/// with errors first asks for confirmation.
pub fn review_step(action: SpecAction, is_valid: bool) -> (s: ReviewStep)
    ensures
        s == step_for(action, is_valid),
{
    match action {
        SpecAction::Accept => if is_valid { ReviewStep::Scaffold } else { ReviewStep::ConfirmScaffold },
        SpecAction::Edit => ReviewStep::Edit,
        SpecAction::SaveToFile => ReviewStep::Save,
        SpecAction::Refine => ReviewStep::Refine,
        SpecAction::Regenerate => ReviewStep::Regenerate,
        SpecAction::Cancel => ReviewStep::Cancel,
    }
}

/// The step after the scaffold-anyway question was answered.
pub fn confirmed_step(proceed: bool) -> (s: ReviewStep)
    ensures
        s == (if proceed { ReviewStep::Scaffold } else { ReviewStep::ReviewAgain }),
{
    if proceed { ReviewStep::Scaffold } else { ReviewStep::ReviewAgain }
}

/// Whether the review loop ends after a step.
pub fn step_ends_loop(step: ReviewStep) -> (b: bool)
    ensures
        b == ends_loop(step),
{
    match step {
        ReviewStep::Scaffold | ReviewStep::Save | ReviewStep::Regenerate | ReviewStep::Cancel => true,
        _ => false,
    }
}

/// A spec with errors is scaffolded only after a "yes" to the question, and
/// editing or refining always leads back to the review screen.
pub proof fn lemma_invalid_spec_needs_confirmation(action: SpecAction)
    ensures
        step_for(action, false) != ReviewStep::Scaffold,
        step_for(SpecAction::Accept, false) == ReviewStep::ConfirmScaffold,
        !ends_loop(step_for(SpecAction::Edit, false)),
        !ends_loop(step_for(SpecAction::Refine, true)),
{
}

/// A number right-aligned in a field of `width` characters (`{:4}`).
pub open spec fn pad_left(s: Seq<char>, width: nat) -> Seq<char> {
    if s.len() < width {
        repeat_char(' ', (width - s.len()) as nat) + s
    } else {
        s
    }
}

/// One line of the listing: its number, a bar and the line.
pub open spec fn numbered_line(n: nat, line: Seq<char>) -> Seq<char> {
    pad_left(decimal(n), 4) + " │ "@ + line
}

/// The numbered lines, at most fifty, and a note of how many were left out.
pub open spec fn numbered_body(lines: Seq<Seq<char>>) -> Seq<Seq<char>> {
    let shown = if lines.len() <= 50 { lines } else { lines.subrange(0, 50) };
    let body = Seq::new(shown.len(), |i: int| numbered_line((i + 1) as nat, shown[i]));
    if lines.len() > 50 {
        body.push("     │ ... ("@ + decimal((lines.len() - 50) as nat) + " more lines)"@)
    } else {
        body
    }
}

/// The listing shown before a refinement, one entry per printed line.
pub open spec fn numbered_listing(text: Seq<char>) -> Seq<Seq<char>> {
    seq!["\nCurrent specification (with line numbers):"@, repeat_char('─', 60)]
        + numbered_body(lines_spec(text)) + seq![repeat_char('─', 60)]
}

/// `n` right-aligned in `width` columns.
fn pad_number(n: u64, width: usize) -> (s: String)
    ensures
        s@ == pad_left(decimal(n as nat), width as nat),
{
    let d = decimal_chars(n);
    let mut s = String::new();
    if d.len() < width {
        let pad = repeat_str(' ', width - d.len());
        push_str(&mut s, pad.as_str());
    }
    push_chars(&mut s, d.as_slice());
    assert(s@ =~= pad_left(decimal(n as nat), width as nat));
    s
}

/// The spec with line numbers, as shown before asking for refinement
/// instructions: at most fifty numbered lines between two rules.
pub fn numbered_spec_lines(spec_text: &str) -> (out: Vec<String>)
    ensures
        views(out@) == numbered_listing(spec_text@),
{
    let chars = to_chars(spec_text);
    let lines = lines_chars(chars.as_slice());
    let ghost ls = lines_spec(spec_text@);
    assert(lines@.map_values(|l: Vec<char>| l@) == ls);
    let mut out: Vec<String> = Vec::new();
    out.push(owned("\nCurrent specification (with line numbers):"));
    out.push(repeat_str('─', 60));
    let n = lines.len();
    let shown: usize = if n <= LISTED_LINES { n } else { LISTED_LINES };
    let ghost head = seq!["\nCurrent specification (with line numbers):"@, repeat_char('─', 60)];
    assert(views(out@) =~= head);
    let mut i: usize = 0;
    while i < shown
        invariant
            shown <= n,
            shown <= 50,
            n == lines@.len(),
            lines@.map_values(|l: Vec<char>| l@) == ls,
            i <= shown,
            views(out@) == head + Seq::new(i as nat, |k: int| numbered_line((k + 1) as nat, ls[k])),
        decreases shown - i,
    {
        let mut s = pad_number((i + 1) as u64, 4);
        push_str(&mut s, " │ ");
        push_chars(&mut s, lines[i].as_slice());
        proof {
            assert(lines@.map_values(|l: Vec<char>| l@)[i as int] == lines@[i as int]@);
        }
        let ghost before = views(out@);
        out.push(s);
        i = i + 1;
        assert(views(out@) =~= before.push(s@));
        assert(views(out@) =~= head + Seq::new(i as nat, |k: int| numbered_line((k + 1) as nat, ls[k])));
    }
    let ghost shown_lines = if ls.len() <= 50 { ls } else { ls.subrange(0, 50) };
    assert(Seq::new(shown as nat, |k: int| numbered_line((k + 1) as nat, ls[k])) =~= Seq::new(
        shown_lines.len(),
        |k: int| numbered_line((k + 1) as nat, shown_lines[k]),
    ));
    if n > LISTED_LINES {
        let mut s = owned("     │ ... (");
        let d = decimal_string((n - LISTED_LINES) as u64);
        push_str(&mut s, d.as_str());
        push_str(&mut s, " more lines)");
        let ghost before = views(out@);
        out.push(s);
        assert(views(out@) =~= before.push(s@));
    }
    let ghost before = views(out@);
    out.push(repeat_str('─', 60));
    assert(views(out@) =~= before.push(repeat_char('─', 60)));
    assert(views(out@) =~= numbered_listing(spec_text@));
    out
}

} // verus!
