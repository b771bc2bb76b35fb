//! The specification review screen: its actions, how it reacts to keys,
//! its layout, and the wrapped preview of the specification.

use vstd::prelude::*;
use unicode_width::UnicodeWidthChar;
use super::keys::{Key, is_down, is_quit, is_up, key_down, key_quit, key_up};
use super::types::SpecAction;
use crate::text::{concat2, join_spec, join_strings, push_char, push_owned, views};
use crate::theming::symbols;

verus! {

// ---------------------------------------------------------------------------
// Display width
// ---------------------------------------------------------------------------

/// The display width of a character in columns, `None` for a control
/// character (Unicode Standard Annex #11, ambiguous characters narrow).
pub uninterp spec fn unicode_char_width(c: char) -> Option<usize>;

/// `unicode_width::UnicodeWidthChar::width`. Claims: the result is the
/// character's width as named; printable ASCII is one column wide, the
/// ASCII and C1 control characters have no width, and no character is
/// wider than three columns (the crate's tables hold at most 3).
#[verifier::external_body]
fn char_width(c: char) -> (r: Option<usize>)
    ensures
        r == unicode_char_width(c),
        ' ' <= c <= '~' ==> r == Some(1usize),
        (c < ' ' || ('\u{7f}' <= c && c < '\u{a0}')) ==> r is None,
        r matches Some(w) ==> w <= 3,
{
    UnicodeWidthChar::width(c)
}

/// The columns a character takes in the preview (none for a control
/// character).
pub open spec fn columns(c: char) -> nat {
    match unicode_char_width(c) {
        Some(w) => w as nat,
        None => 0,
    }
}

// ---------------------------------------------------------------------------
// Wrapping
// ---------------------------------------------------------------------------

/// The wrapping of a line's characters so far: the finished pieces, the
/// piece being filled, and its width. A character that would make the
/// piece wider than `max` starts a new piece, unless the piece is empty.
pub open spec fn wrap_state(cs: Seq<char>, max: nat) -> (Seq<Seq<char>>, Seq<char>, nat)
    decreases cs.len(),
{
    if cs.len() == 0 {
        (Seq::empty(), Seq::empty(), 0)
    } else {
        let (done, cur, w) = wrap_state(cs.drop_last(), max);
        let c = cs.last();
        let x = columns(c);
        if w + x > max && cur.len() > 0 {
            (done.push(cur), seq![c], x)
        } else {
            (done, cur.push(c), w + x)
        }
    }
}

/// A line wrapped to a display width: one empty piece for width 0.
pub open spec fn wrap_spec(line: Seq<char>, max: nat) -> Seq<Seq<char>> {
    if max == 0 {
        seq![Seq::empty()]
    } else {
        let (done, cur, _w) = wrap_state(line, max);
        done.push(cur)
    }
}

/// Wraps a line to a display width.
pub fn wrap_line(line: &str, max_width: usize) -> (r: Vec<String>)
    ensures
        views(r@) == wrap_spec(line@, max_width as nat),
{
    let mut out: Vec<String> = Vec::new();
    if max_width == 0 {
        push_owned(&mut out, String::new());
        assert(views(out@) =~= wrap_spec(line@, 0));
        return out;
    }
    let cs = crate::text::to_chars(line);
    let mut current = String::new();
    let mut width: usize = 0;
    let mut i: usize = 0;
    while i < cs.len()
        invariant
            i <= cs@.len(),
            cs@ == line@,
            max_width > 0,
            (views(out@), current@, width as nat) == wrap_state(cs@.subrange(0, i as int), max_width as nat),
            current@.len() == 0 ==> width == 0,
            width <= max_width || current@.len() == 1,
            width <= max_width || width <= 3,
        decreases cs.len() - i,
    {
        let ghost prev = cs@.subrange(0, i as int);
        let ghost cur = cs@.subrange(0, i + 1);
        assert(cur.drop_last() =~= prev);
        let c = cs[i];
        let x: usize = match char_width(c) {
            Some(w) => w,
            None => 0,
        };
        let over = (width as u128) + (x as u128) > (max_width as u128);
        if over && !current.as_str().is_empty() {
            proof {
                assert(current@.len() > 0);
            }
            push_owned(&mut out, current);
            current = String::new();
            push_char(&mut current, c);
            width = x;
        } else {
            proof {
                if current@.len() == 0 {
                    assert(width == 0);
                }
            }
            push_char(&mut current, c);
            width = width + x;
        }
        proof {
            assert(current@.len() > 0);
        }
        i = i + 1;
    }
    assert(cs@.subrange(0, cs@.len() as int) =~= cs@);
    push_owned(&mut out, current);
    out
}

/// The pieces of a wrapped line put back together.
pub open spec fn concat_all(pieces: Seq<Seq<char>>) -> Seq<char>
    decreases pieces.len(),
{
    if pieces.len() == 0 { Seq::empty() } else { concat_all(pieces.drop_last()) + pieces.last() }
}

/// The display width of some characters.
pub open spec fn width_of(s: Seq<char>) -> nat
    decreases s.len(),
{
    if s.len() == 0 { 0 } else { width_of(s.drop_last()) + columns(s.last()) }
}

/// A piece fits the width, or holds a single character too wide for it.
pub open spec fn piece_fits(p: Seq<char>, max: nat) -> bool {
    width_of(p) <= max || p.len() <= 1
}

/// What the wrapping so far keeps: the pieces and the piece being filled
/// spell the characters read, the width counted is the current piece's,
/// and every piece fits.
proof fn lemma_wrap_state(cs: Seq<char>, max: nat)
    ensures
        ({
            let (done, cur, w) = wrap_state(cs, max);
            &&& concat_all(done) + cur == cs
            &&& w == width_of(cur)
            &&& piece_fits(cur, max)
            &&& cs.len() > 0 ==> cur.len() > 0
            &&& forall|i: int| 0 <= i < done.len() ==> piece_fits(#[trigger] done[i], max)
        }),
    decreases cs.len(),
{
    if cs.len() > 0 {
        let rest = cs.drop_last();
        lemma_wrap_state(rest, max);
        let (done, cur, w) = wrap_state(rest, max);
        let c = cs.last();
        let x = columns(c);
        assert(rest.push(c) =~= cs);
        if w + x > max && cur.len() > 0 {
            let d2 = done.push(cur);
            assert(wrap_state(cs, max) == (d2, seq![c], x));
            assert(d2.drop_last() =~= done);
            assert(concat_all(d2) == concat_all(done) + cur);
            assert(concat_all(d2) + seq![c] =~= (concat_all(done) + cur).push(c));
            assert(seq![c].drop_last() =~= Seq::<char>::empty());
            assert(width_of(Seq::<char>::empty()) == 0);
            assert(seq![c].last() == c);
            assert(width_of(seq![c]) == x);
            assert forall|i: int| 0 <= i < d2.len() implies piece_fits(#[trigger] d2[i], max) by {
                if i < done.len() {
                    assert(d2[i] == done[i]);
                }
            }
        } else {
            let c2 = cur.push(c);
            assert(wrap_state(cs, max) == (done, c2, w + x));
            assert(c2.drop_last() =~= cur);
            assert(concat_all(done) + c2 =~= (concat_all(done) + cur).push(c));
            assert(width_of(c2) == width_of(cur) + x);
        }
    }
}

/// Wrapping loses and reorders nothing: the pieces of a line, put back
/// together, are the line; and each piece fits the width, unless it is a
/// single character wider than the width.
pub proof fn lemma_wrap_keeps_text(line: Seq<char>, max: nat)
    requires
        max > 0,
    ensures
        concat_all(wrap_spec(line, max)) == line,
        forall|i: int| 0 <= i < wrap_spec(line, max).len() ==> piece_fits(#[trigger] wrap_spec(line, max)[i], max),
{
    lemma_wrap_state(line, max);
    let (done, cur, _w) = wrap_state(line, max);
    let ps = done.push(cur);
    assert(ps.drop_last() =~= done);
    assert forall|i: int| 0 <= i < ps.len() implies piece_fits(#[trigger] ps[i], max) by {
        if i < done.len() {
            assert(ps[i] == done[i]);
        }
    }
}

/// The wrapped lines collected for a preview: lines are wrapped in order
/// until at least `limit` pieces are collected.
pub open spec fn collected(lines: Seq<Seq<char>>, width: nat, limit: nat) -> Seq<Seq<char>>
    decreases lines.len(),
{
    if lines.len() == 0 {
        Seq::empty()
    } else {
        let a = collected(lines.drop_last(), width, limit);
        if a.len() >= limit { a } else { a + wrap_spec(lines.last(), width) }
    }
}

/// The preview of some lines: wrapped to the width (at least 1), at most
/// `max_lines` pieces, joined by newlines; nothing for no lines allowed.
pub open spec fn preview_spec(lines: Seq<Seq<char>>, max_width: nat, max_lines: nat) -> Seq<char> {
    if max_lines == 0 {
        Seq::empty()
    } else {
        let w = if max_width >= 1 { max_width } else { 1 };
        let c = collected(lines, w, max_lines);
        let kept = if c.len() > max_lines { c.take(max_lines as int) } else { c };
        join_spec(kept, "\n"@)
    }
}

/// Builds the preview text with wrapping and a line limit.
pub fn build_preview(lines: &Vec<String>, max_width: usize, max_lines: usize) -> (s: String)
    ensures
        s@ == preview_spec(views(lines@), max_width as nat, max_lines as nat),
{
    if max_lines == 0 {
        return String::new();
    }
    let width = if max_width >= 1 { max_width } else { 1 };
    let ghost lv = views(lines@);
    let mut wrapped: Vec<String> = Vec::new();
    let mut i: usize = 0;
    loop
        invariant_except_break
            i <= lines@.len(),
            views(wrapped@) == collected(lv.subrange(0, i as int), width as nat, max_lines as nat),
            views(wrapped@).len() < max_lines,
        invariant
            lv == views(lines@),
            width >= 1,
            max_lines > 0,
            width == (if max_width >= 1 { max_width } else { 1 }),
        ensures
            views(wrapped@) == collected(lv, width as nat, max_lines as nat),
        decreases lines.len() - i,
    {
        if i >= lines.len() {
            assert(lv.subrange(0, i as int) =~= lv);
            break;
        }
        let ghost prev = lv.subrange(0, i as int);
        let ghost cur = lv.subrange(0, i + 1);
        assert(cur.drop_last() =~= prev);
        let pieces = wrap_line(lines[i].as_str(), width);
        let ghost before = views(wrapped@);
        let mut j: usize = 0;
        while j < pieces.len()
            invariant
                j <= pieces@.len(),
                views(wrapped@) == before + views(pieces@).subrange(0, j as int),
            decreases pieces.len() - j,
        {
            push_owned(&mut wrapped, pieces[j].clone());
            j = j + 1;
            assert(views(wrapped@) =~= before + views(pieces@).subrange(0, j as int));
        }
        assert(views(pieces@).subrange(0, pieces@.len() as int) =~= views(pieces@));
        assert(views(wrapped@) == collected(cur, width as nat, max_lines as nat));
        i = i + 1;
        if wrapped.len() >= max_lines {
            proof {
                lemma_collected_stays(lv, i as int, width as nat, max_lines as nat);
            }
            break;
        }
    }
    let ghost c = views(wrapped@);
    if wrapped.len() > max_lines {
        wrapped.truncate(max_lines);
        assert(views(wrapped@) =~= c.take(max_lines as int));
    }
    join_strings(&wrapped, "\n")
}

/// Once enough pieces are collected, later lines add none.
proof fn lemma_collected_stays(lines: Seq<Seq<char>>, i: int, width: nat, limit: nat)
    requires
        0 <= i <= lines.len(),
        collected(lines.subrange(0, i), width, limit).len() >= limit,
    ensures
        collected(lines, width, limit) == collected(lines.subrange(0, i), width, limit),
    decreases lines.len() - i,
{
    if i < lines.len() {
        let next = lines.subrange(0, i + 1);
        assert(next.drop_last() =~= lines.subrange(0, i));
        lemma_collected_stays(lines, i + 1, width, limit);
    } else {
        assert(lines.subrange(0, i) =~= lines);
    }
}

// ---------------------------------------------------------------------------
// Actions and keys
// ---------------------------------------------------------------------------

/// How many actions the review offers.
pub open spec fn action_count() -> usize {
    6
}

/// The action at a position of the list.
pub open spec fn review_action(i: int) -> SpecAction {
    if i == 0 {
        SpecAction::Accept
    } else if i == 1 {
        SpecAction::Edit
    } else if i == 2 {
        SpecAction::SaveToFile
    } else if i == 3 {
        SpecAction::Refine
    } else if i == 4 {
        SpecAction::Regenerate
    } else {
        SpecAction::Cancel
    }
}

/// The labels of the actions: a valid specification is accepted plainly,
/// an invalid one "anyway".
pub open spec fn action_labels(is_valid: bool) -> Seq<Seq<char>> {
    if is_valid {
        seq![
            symbols::SUCCESS@ + " Accept"@,
            symbols::CHEVRON@ + " Edit"@,
            symbols::BULLET@ + " Save"@,
            symbols::ARROW@ + " Refine"@,
            symbols::RUNNING@ + " Regenerate"@,
            symbols::ERROR@ + " Cancel"@,
        ]
    } else {
        seq![
            symbols::WARNING@ + " Accept anyway"@,
            symbols::CHEVRON@ + " Edit manually"@,
            symbols::BULLET@ + " Save to file"@,
            symbols::ARROW@ + " Refine"@,
            symbols::RUNNING@ + " Regenerate"@,
            symbols::ERROR@ + " Cancel"@,
        ]
    }
}

/// The labels of the review's actions, in order.
pub fn review_action_labels(is_valid: bool) -> (v: Vec<String>)
    ensures
        views(v@) == action_labels(is_valid),
{
    let mut v: Vec<String> = Vec::new();
    if is_valid {
        push_owned(&mut v, concat2(symbols::SUCCESS, " Accept"));
        push_owned(&mut v, concat2(symbols::CHEVRON, " Edit"));
        push_owned(&mut v, concat2(symbols::BULLET, " Save"));
    } else {
        push_owned(&mut v, concat2(symbols::WARNING, " Accept anyway"));
        push_owned(&mut v, concat2(symbols::CHEVRON, " Edit manually"));
        push_owned(&mut v, concat2(symbols::BULLET, " Save to file"));
    }
    push_owned(&mut v, concat2(symbols::ARROW, " Refine"));
    push_owned(&mut v, concat2(symbols::RUNNING, " Regenerate"));
    push_owned(&mut v, concat2(symbols::ERROR, " Cancel"));
    assert(views(v@) =~= action_labels(is_valid));
    v
}

/// The review screen's state.
#[derive(Debug, Clone, Copy)]
pub struct ReviewState {
    pub selected: usize,
    pub scroll_offset: usize,
    pub should_exit: bool,
    pub chosen: Option<SpecAction>,
}

/// The state when the review opens: a valid specification preselects
/// accepting, an invalid one editing.
pub open spec fn review_init(is_valid: bool) -> ReviewState {
    ReviewState { selected: if is_valid { 0 } else { 1 }, scroll_offset: 0, should_exit: false, chosen: None }
}

/// The state after a key: up/down move among the actions, page keys scroll
/// by 10 lines (not above the top), Enter chooses, Escape or `q` leaves.
pub open spec fn review_next(s: ReviewState, k: Key) -> ReviewState {
    if is_up(k) {
        if s.selected > 0 { ReviewState { selected: (s.selected - 1) as usize, ..s } } else { s }
    } else if is_down(k) {
        if s.selected < action_count() - 1 { ReviewState { selected: (s.selected + 1) as usize, ..s } } else { s }
    } else if k == Key::PageUp {
        ReviewState { scroll_offset: if s.scroll_offset >= 10 { (s.scroll_offset - 10) as usize } else { 0 }, ..s }
    } else if k == Key::PageDown {
        ReviewState { scroll_offset: (s.scroll_offset + 10) as usize, ..s }
    } else if k == Key::Enter {
        ReviewState { chosen: Some(review_action(s.selected as int)), should_exit: true, ..s }
    } else if is_quit(k) {
        ReviewState { should_exit: true, ..s }
    } else {
        s
    }
}

impl ReviewState {
    /// The state when the review opens.
    pub fn new(is_valid: bool) -> (s: Self)
        ensures
            s == review_init(is_valid),
    {
        ReviewState { selected: if is_valid { 0 } else { 1 }, scroll_offset: 0, should_exit: false, chosen: None }
    }

    /// Reacts to a key.
    pub fn on_key(&mut self, k: Key)
        requires
            old(self).selected < action_count(),
            k == Key::PageDown ==> old(self).scroll_offset + 10 <= usize::MAX,
        ensures
            *final(self) == review_next(*old(self), k),
            final(self).selected < action_count(),
    {
        if key_up(k) {
            if self.selected > 0 {
                self.selected = self.selected - 1;
            }
        } else if key_down(k) {
            if self.selected < 5 {
                self.selected = self.selected + 1;
            }
        } else if k == Key::PageUp {
            self.scroll_offset = if self.scroll_offset >= 10 { self.scroll_offset - 10 } else { 0 };
        } else if k == Key::PageDown {
            self.scroll_offset = self.scroll_offset + 10;
        } else if k == Key::Enter {
            let a = if self.selected == 0 {
                SpecAction::Accept
            } else if self.selected == 1 {
                SpecAction::Edit
            } else if self.selected == 2 {
                SpecAction::SaveToFile
            } else if self.selected == 3 {
                SpecAction::Refine
            } else if self.selected == 4 {
                SpecAction::Regenerate
            } else {
                SpecAction::Cancel
            };
            self.chosen = Some(a);
            self.should_exit = true;
        } else if key_quit(k) {
            self.should_exit = true;
        }
    }

    /// The action the review ends with: the one chosen, or cancelling.
    pub fn outcome(&self) -> (a: SpecAction)
        ensures
            a == match self.chosen {
                Some(x) => x,
                None => SpecAction::Cancel,
            },
    {
        match self.chosen {
            Some(x) => x,
            None => SpecAction::Cancel,
        }
    }
}

// ---------------------------------------------------------------------------
// Layout
// ---------------------------------------------------------------------------

/// The widths of the review's panels for a terminal width: the left panel
/// takes about a third (at least 24, leaving 24 for the preview; 12 at
/// least on narrow terminals), the right one the rest but 2.
pub open spec fn left_width_spec(total: nat) -> nat {
    let max_left: nat = if total >= 24 { (total - 24) as nat } else { 0 };
    let ideal: nat = total * 32 / 100;
    if max_left <= 24 {
        if max_left >= 12 { max_left } else { 12 }
    } else if ideal < 24 {
        24
    } else if ideal > max_left {
        max_left
    } else {
        ideal
    }
}

/// The review's layout: left and right panel widths, the preview's width
/// and the number of preview lines shown.
pub open spec fn layout_spec(width: nat, height: nat, max_preview_lines: nat) -> (nat, nat, nat, nat) {
    let left = left_width_spec(width);
    let right: nat = if width >= left + 2 { (width - left - 2) as nat } else { 0 };
    let preview_width: nat = if right >= 4 { (right - 4) as nat } else { 0 };
    let preview_height: nat = if height >= 8 { (height - 8) as nat } else { 0 };
    let limit = if max_preview_lines <= preview_height { max_preview_lines } else { preview_height };
    (left, right, preview_width, limit)
}

/// The review's layout for a terminal size.
pub fn review_layout(width: u16, height: u16, max_preview_lines: usize) -> (r: (u32, u32, usize, usize))
    ensures
        (r.0 as nat, r.1 as nat, r.2 as nat, r.3 as nat) == layout_spec(
            width as nat,
            height as nat,
            max_preview_lines as nat,
        ),
{
    let total: u32 = width as u32;
    let max_left: u32 = if total >= 24 { total - 24 } else { 0 };
    let ideal: u32 = total * 32 / 100;
    let left: u32 = if max_left <= 24 {
        if max_left >= 12 { max_left } else { 12 }
    } else if ideal < 24 {
        24
    } else if ideal > max_left {
        max_left
    } else {
        ideal
    };
    let right: u32 = if total >= left + 2 { total - left - 2 } else { 0 };
    let preview_width: usize = if right >= 4 { (right - 4) as usize } else { 0 };
    let h: usize = height as usize;
    let preview_height: usize = if h >= 8 { h - 8 } else { 0 };
    let limit = if max_preview_lines <= preview_height { max_preview_lines } else { preview_height };
    (left, right, preview_width, limit)
}

/// The preview's lines from the scroll offset on (none past the end).
pub fn lines_from_offset(lines: &Vec<String>, offset: usize) -> (r: Vec<String>)
    ensures
        views(r@) == views(lines@).subrange(if offset <= lines@.len() { offset as int } else { lines@.len() as int }, lines@.len() as int),
{
    let start = if offset <= lines.len() { offset } else { lines.len() };
    let mut r: Vec<String> = Vec::new();
    let mut i = start;
    while i < lines.len()
        invariant
            start <= i <= lines@.len(),
            views(r@) == views(lines@).subrange(start as int, i as int),
        decreases lines.len() - i,
    {
        push_owned(&mut r, lines[i].clone());
        i = i + 1;
        assert(views(r@) =~= views(lines@).subrange(start as int, i as int));
    }
    r
}

/// Every key keeps the selected action within the list.
pub proof fn lemma_review_keys_keep_selection(s: ReviewState, k: Key)
    requires
        s.selected < action_count(),
    ensures
        review_next(s, k).selected < action_count(),
        k == Key::Enter ==> review_next(s, k).chosen == Some(review_action(s.selected as int)),
{
}

} // verus!
