//! Box-drawing characters for borders.

use vstd::prelude::*;
use crate::text::push_char;

verus! {

pub const TOP_LEFT: &'static str = "╭";
pub const TOP_RIGHT: &'static str = "╮";
pub const BOTTOM_LEFT: &'static str = "╰";
pub const BOTTOM_RIGHT: &'static str = "╯";
pub const HORIZONTAL: &'static str = "─";
pub const VERTICAL: &'static str = "│";
pub const LEFT_T: &'static str = "├";
pub const RIGHT_T: &'static str = "┤";

/// `n` copies of a character.
pub open spec fn repeat_char(c: char, n: nat) -> Seq<char> {
    Seq::new(n, |_i: int| c)
}

/// A string of `n` copies of a character.
pub fn repeat_str(c: char, n: usize) -> (s: String)
    ensures
        s@ == repeat_char(c, n as nat),
{
    let mut s = String::new();
    let mut i: usize = 0;
    while i < n
        invariant
            i <= n,
            s@ == repeat_char(c, i as nat),
        decreases n - i,
    {
        push_char(&mut s, c);
        i = i + 1;
        assert(s@ =~= repeat_char(c, i as nat));
    }
    s
}

/// A horizontal line of the given width.
pub fn line(width: usize) -> (s: String)
    ensures
        s@ == repeat_char('─', width as nat),
{
    repeat_str('─', width)
}

} // verus!
