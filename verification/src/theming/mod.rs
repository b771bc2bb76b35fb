//! Shared colors, symbols and box drawing for terminal output, and text
//! styled with ANSI escape codes.

pub mod boxes;
pub mod colors;
pub mod symbols;

use vstd::prelude::*;
use crate::text::{decimal, decimal_string, join_spec, owned, push_str};
use boxes::{repeat_char, repeat_str};

verus! {

/// Text with an optional foreground color and boldness, shown with ANSI
/// escape codes.
#[derive(Debug, Clone)]
pub struct StyledString {
    pub text: String,
    pub foreground: Option<u8>,
    pub bold: bool,
}

/// The SGR codes of a style: bold first, then the color.
pub open spec fn style_codes(fg: Option<u8>, bold: bool) -> Seq<Seq<char>> {
    (if bold { seq!["1"@] } else { seq![] }) + match fg {
        Some(c) => seq!["38;5;"@ + decimal(c as nat)],
        None => seq![],
    }
}

/// How styled text is shown: the text alone without codes, otherwise the
/// codes, the text and a reset.
pub open spec fn styled_text(text: Seq<char>, fg: Option<u8>, bold: bool) -> Seq<char> {
    let codes = style_codes(fg, bold);
    if codes.len() == 0 {
        text
    } else {
        "\x1b["@ + join_spec(codes, ";"@) + "m"@ + text + "\x1b[0m"@
    }
}

impl StyledString {
    /// Plain text, without style.
    pub fn new(text: &str) -> (s: Self)
        ensures
            s.text@ == text@,
            s.foreground is None,
            !s.bold,
    {
        StyledString { text: owned(text), foreground: None, bold: false }
    }

    /// The text with a foreground color.
    pub fn fg(self, color: u8) -> (s: Self)
        ensures
            s.text@ == self.text@,
            s.foreground == Some(color),
            s.bold == self.bold,
    {
        StyledString { text: self.text, foreground: Some(color), bold: self.bold }
    }

    /// The text in bold.
    pub fn bold(self) -> (s: Self)
        ensures
            s.text@ == self.text@,
            s.foreground == self.foreground,
            s.bold,
    {
        StyledString { text: self.text, foreground: self.foreground, bold: true }
    }

    /// The text as shown on a terminal.
    pub fn render(&self) -> (s: String)
        ensures
            s@ == styled_text(self.text@, self.foreground, self.bold),
    {
        let mut codes: Vec<String> = Vec::new();
        if self.bold {
            crate::text::push_lit(&mut codes, "1");
        }
        let ghost a = crate::text::views(codes@);
        match self.foreground {
            Some(c) => {
                let mut code = owned("38;5;");
                push_str(&mut code, decimal_string(c as u64).as_str());
                crate::text::push_owned(&mut codes, code);
            },
            None => {},
        }
        assert(crate::text::views(codes@) =~= style_codes(self.foreground, self.bold));
        if codes.len() == 0 {
            owned(self.text.as_str())
        } else {
            let mut s = owned("\x1b[");
            push_str(&mut s, crate::text::join_strings(&codes, ";").as_str());
            push_str(&mut s, "m");
            push_str(&mut s, self.text.as_str());
            push_str(&mut s, "\x1b[0m");
            s
        }
    }
}

/// Plain styled text.
pub fn style(text: &str) -> (s: StyledString)
    ensures
        s.text@ == text@,
        s.foreground is None,
        !s.bold,
{
    StyledString::new(text)
}

/// Text in the success color.
pub fn success(text: &str) -> (s: StyledString)
    ensures
        s.text@ == text@,
        s.foreground == Some(colors::SUCCESS),
        !s.bold,
{
    style(text).fg(colors::SUCCESS)
}

/// Text in the primary color.
pub fn primary(text: &str) -> (s: StyledString)
    ensures
        s.text@ == text@,
        s.foreground == Some(colors::PRIMARY),
        !s.bold,
{
    style(text).fg(colors::PRIMARY)
}

/// Text in the muted color.
pub fn muted(text: &str) -> (s: StyledString)
    ensures
        s.text@ == text@,
        s.foreground == Some(colors::MUTED),
        !s.bold,
{
    style(text).fg(colors::MUTED)
}

/// Text in the highlight color, bold.
pub fn highlight(text: &str) -> (s: StyledString)
    ensures
        s.text@ == text@,
        s.foreground == Some(colors::HIGHLIGHT),
        s.bold,
{
    style(text).fg(colors::HIGHLIGHT).bold()
}

/// Text in the warning color.
pub fn warning(text: &str) -> (s: StyledString)
    ensures
        s.text@ == text@,
        s.foreground == Some(colors::WARNING),
        !s.bold,
{
    style(text).fg(colors::WARNING)
}

/// Text in the error color.
pub fn error(text: &str) -> (s: StyledString)
    ensures
        s.text@ == text@,
        s.foreground == Some(colors::ERROR),
        !s.bold,
{
    style(text).fg(colors::ERROR)
}

/// Text in the accent color.
pub fn accent(text: &str) -> (s: StyledString)
    ensures
        s.text@ == text@,
        s.foreground == Some(colors::ACCENT),
        !s.bold,
{
    style(text).fg(colors::ACCENT)
}

/// The filled part of a progress bar: `current / total` of `width`,
/// rounded to the nearest cell (halves up), and nothing when `total` is 0.
/// The fraction is taken exactly, as a ratio of integers: where the exact
/// value lies on a half, it rounds up even where a computation in binary
/// floating point lands just below the half (7 of 10 over 45 cells gives
/// 32 here, 31 through `f64`).
pub open spec fn filled_cells(current: nat, total: nat, width: nat) -> nat {
    if total == 0 {
        0
    } else {
        ((2 * current * width + total) / (2 * total)) as nat
    }
}

/// A progress bar: filled cells in the success color, then the rest of
/// the width in the muted color.
pub open spec fn progress_bar_spec(current: nat, total: nat, width: nat) -> Seq<char> {
    let filled = filled_cells(current, total, width);
    let empty: nat = if width >= filled { (width - filled) as nat } else { 0 };
    styled_text(repeat_char('█', filled), Some(colors::SUCCESS), false) + styled_text(
        repeat_char('░', empty),
        Some(colors::MUTED),
        false,
    )
}

/// A bar never overflows its width: with `current <= total` the filled
/// and empty cells make exactly `width` cells; the bar is empty at 0 and
/// full at `total`.
pub proof fn lemma_progress_bar_fits(current: nat, total: nat, width: nat)
    requires
        current <= total,
    ensures
        filled_cells(current, total, width) <= width,
        filled_cells(0, total, width) == 0,
        total > 0 ==> filled_cells(total, total, width) == width,
{
    if total > 0 {
        let t = total;
        assert((2 * current * width + t) / (2 * t) <= width) by (nonlinear_arith)
            requires
                current <= t,
                t > 0,
        ;
        assert((2 * 0 * width + t) / (2 * t) == 0) by (nonlinear_arith)
            requires
                t > 0,
        ;
        assert((2 * t * width + t) / (2 * t) == width) by (nonlinear_arith)
            requires
                t > 0,
        ;
    }
}

/// The rounded filled width.
fn filled_width(current: usize, total: usize, width: usize) -> (r: u128)
    ensures
        r == filled_cells(current as nat, total as nat, width as nat),
{
    if total == 0 {
        return 0;
    }
    let c128 = current as u128;
    let w128 = width as u128;
    assert(c128 * w128 <= 0xffff_ffff_ffff_fffe_0000_0000_0000_0001) by (nonlinear_arith)
        requires
            c128 <= 0xffff_ffff_ffff_ffff,
            w128 <= 0xffff_ffff_ffff_ffff,
    ;
    let cw: u128 = c128 * w128;
    let t: u128 = total as u128;
    let q = cw / t;
    let rem = cw % t;
    assert(q <= cw) by (nonlinear_arith)
        requires
            t >= 1,
            q == cw / t,
    ;
    let r = if 2 * rem >= t { q + 1 } else { q };
    proof {
        let tt = total as int;
        assert(cw == q * tt + rem) by (nonlinear_arith)
            requires
                q == cw / t,
                rem == cw % t,
                t > 0,
                tt == t,
        ;
        assert((2 * cw + tt) / (2 * tt) == r) by (nonlinear_arith)
            requires
                cw == q * tt + rem,
                0 <= rem < tt,
                tt > 0,
                r == if 2 * rem >= tt { q + 1 } else { q as int },
        ;
        assert(2 * (current as nat) * (width as nat) == 2 * cw) by (nonlinear_arith)
            requires
                cw == c128 * w128,
                c128 == current,
                w128 == width,
        ;
    }
    r
}

/// A text progress bar of `current` out of `total`, `width` cells wide;
/// the filled cells are `filled_cells`, the exactly rounded share.
pub fn progress_bar(current: usize, total: usize, width: usize) -> (s: String)
    requires
        filled_cells(current as nat, total as nat, width as nat) <= usize::MAX,
    ensures
        s@ == progress_bar_spec(current as nat, total as nat, width as nat),
{
    let filled = filled_width(current, total, width) as usize;
    let empty = if width >= filled { width - filled } else { 0 };
    let bar = repeat_str('█', filled);
    let rest = repeat_str('░', empty);
    let mut s = success(bar.as_str()).render();
    push_str(&mut s, muted(rest.as_str()).render().as_str());
    s
}

} // verus!
