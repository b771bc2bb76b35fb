//! The section editor: a list of specification sections, each with its
//! text, edited in a buffer with a byte cursor, and the specification
//! assembled from the sections.

use vstd::prelude::*;
use vstd::utf8::{decode_utf8, encode_utf8, is_char_boundary};
use super::keys::{Key, is_down, is_up, key_down, key_up};
use crate::text::{owned, push_char, push_str, views};

verus! {

/// A section of the specification.
#[derive(Debug, Clone, Copy, PartialEq, Eq, Structural)]
pub enum SpecSection {
    ProjectName,
    Overview,
    TechStack,
    Features,
    Database,
    ApiEndpoints,
    SuccessCriteria,
}

/// The sections in order.
pub open spec fn all_sections() -> Seq<SpecSection> {
    seq![
        SpecSection::ProjectName,
        SpecSection::Overview,
        SpecSection::TechStack,
        SpecSection::Features,
        SpecSection::Database,
        SpecSection::ApiEndpoints,
        SpecSection::SuccessCriteria,
    ]
}

/// A section's title.
pub open spec fn section_title(s: SpecSection) -> Seq<char> {
    match s {
        SpecSection::ProjectName => "Project Name"@,
        SpecSection::Overview => "Overview"@,
        SpecSection::TechStack => "Technology Stack"@,
        SpecSection::Features => "Core Features"@,
        SpecSection::Database => "Database Schema"@,
        SpecSection::ApiEndpoints => "API Endpoints"@,
        SpecSection::SuccessCriteria => "Success Criteria"@,
    }
}

impl SpecSection {
    /// The section's title.
    pub fn as_str(&self) -> (s: &'static str)
        ensures
            s@ == section_title(*self),
    {
        match self {
            SpecSection::ProjectName => "Project Name",
            SpecSection::Overview => "Overview",
            SpecSection::TechStack => "Technology Stack",
            SpecSection::Features => "Core Features",
            SpecSection::Database => "Database Schema",
            SpecSection::ApiEndpoints => "API Endpoints",
            SpecSection::SuccessCriteria => "Success Criteria",
        }
    }

    /// All sections, in order.
    pub fn all() -> (v: Vec<SpecSection>)
        ensures
            v@ == all_sections(),
    {
        let mut v: Vec<SpecSection> = Vec::new();
        v.push(SpecSection::ProjectName);
        v.push(SpecSection::Overview);
        v.push(SpecSection::TechStack);
        v.push(SpecSection::Features);
        v.push(SpecSection::Database);
        v.push(SpecSection::ApiEndpoints);
        v.push(SpecSection::SuccessCriteria);
        assert(v@ =~= all_sections());
        v
    }
}

/// The hint shown while browsing.
pub open spec fn browse_hint() -> Seq<char> {
    "j/k: navigate | Enter: edit | q: quit | s: save"@
}

/// The editor's state. `content` holds one text per section, in order.
pub struct EditorApp {
    pub selected: usize,
    pub content: Vec<String>,
    pub editing: bool,
    pub edit_buffer: String,
    pub cursor_pos: usize,
    pub should_quit: bool,
    pub status_message: String,
}

/// What the program around the editor does after a key.
#[derive(Debug, Clone, Copy, PartialEq, Eq, Structural)]
pub enum EditorCommand {
    /// Keep going.
    Continue,
    /// Validate the specification and scaffold it when valid.
    SaveAndScaffold,
}

/// The specification the sections make (the project name, overview and so
/// on, each in its element).
pub open spec fn editor_spec_text(c: Seq<Seq<char>>) -> Seq<char> {
    "<project_specification>\n<project_name>"@ + c[0] + "</project_name>\n\n<overview>\n"@ + c[1]
        + "\n</overview>\n\n<technology_stack>\n"@ + c[2] + "\n</technology_stack>\n\n<core_features>\n"@
        + c[3] + "\n</core_features>\n\n<database_schema>\n"@ + c[4]
        + "\n</database_schema>\n\n<api_endpoints>\n"@ + c[5] + "\n</api_endpoints>\n\n<success_criteria>\n"@
        + c[6] + "\n</success_criteria>\n</project_specification>"@
}

/// The buffer's bytes.
pub open spec fn bytes_of(s: Seq<char>) -> Seq<u8> {
    encode_utf8(s)
}

impl EditorApp {
    /// The editor's well-formedness: one text per section, a section selected.
    pub open spec fn well_formed(&self) -> bool {
        self.content@.len() == 7 && self.selected < 7
    }

    /// A new editor: the first section selected, the technology stack
    /// prefilled, every other section empty.
    pub fn new() -> (app: Self)
        ensures
            app.well_formed(),
            app.selected == 0,
            views(app.content@) == seq![Seq::<char>::empty(), Seq::<char>::empty(), "React, Node.js"@, Seq::<char>::empty(), Seq::<char>::empty(), Seq::<char>::empty(), Seq::<char>::empty()],
            !app.editing,
            !app.should_quit,
            app.status_message@ == browse_hint(),
    {
        let mut content: Vec<String> = Vec::new();
        content.push(String::new());
        content.push(String::new());
        content.push(owned("React, Node.js"));
        content.push(String::new());
        content.push(String::new());
        content.push(String::new());
        content.push(String::new());
        let app = EditorApp {
            selected: 0,
            content,
            editing: false,
            edit_buffer: String::new(),
            cursor_pos: 0,
            should_quit: false,
            status_message: owned("j/k: navigate | Enter: edit | q: quit | s: save"),
        };
        assert(views(app.content@) =~= seq![Seq::<char>::empty(), Seq::<char>::empty(), "React, Node.js"@, Seq::<char>::empty(), Seq::<char>::empty(), Seq::<char>::empty(), Seq::<char>::empty()]);
        app
    }

    /// The selected section.
    pub fn selected_section(&self) -> (s: SpecSection)
        requires
            self.well_formed(),
        ensures
            s == all_sections()[self.selected as int],
    {
        let all = SpecSection::all();
        all[self.selected]
    }

    /// Selects the next section (wrapping around), unless editing.
    pub fn next(&mut self)
        requires
            old(self).well_formed(),
        ensures
            final(self).well_formed(),
            final(self).selected == (if old(self).editing { old(self).selected as int } else { (old(self).selected + 1) % 7 }),
            final(self).content == old(self).content,
            final(self).editing == old(self).editing,
    {
        if self.editing {
            return;
        }
        self.selected = (self.selected + 1) % 7;
    }

    /// Selects the previous section (wrapping around), unless editing.
    pub fn previous(&mut self)
        requires
            old(self).well_formed(),
        ensures
            final(self).well_formed(),
            final(self).selected == (if old(self).editing {
                old(self).selected as int
            } else if old(self).selected == 0 {
                6
            } else {
                old(self).selected - 1
            }),
            final(self).content == old(self).content,
            final(self).editing == old(self).editing,
    {
        if self.editing {
            return;
        }
        self.selected = if self.selected == 0 { 6 } else { self.selected - 1 };
    }

    /// Starts editing the selected section: its text in the buffer, the
    /// cursor at its end (in bytes).
    pub fn start_editing(&mut self)
        requires
            old(self).well_formed(),
        ensures
            final(self).well_formed(),
            final(self).editing,
            final(self).selected == old(self).selected,
            final(self).content == old(self).content,
            final(self).edit_buffer@ == old(self).content@[old(self).selected as int]@,
            final(self).cursor_pos == bytes_of(final(self).edit_buffer@).len() as usize,
            final(self).status_message@ == "Esc: cancel | Ctrl+S: save section"@,
    {
        self.edit_buffer = self.content[self.selected].clone();
        proof {
            vstd::utf8::encode_utf8_valid_utf8(self.edit_buffer@);
        }
        self.cursor_pos = self.edit_buffer.as_str().len();
        self.editing = true;
        self.status_message = owned("Esc: cancel | Ctrl+S: save section");
    }

    /// Saves the buffer into the selected section and stops editing.
    pub fn save_edit(&mut self)
        requires
            old(self).well_formed(),
        ensures
            final(self).well_formed(),
            !final(self).editing,
            final(self).selected == old(self).selected,
            views(final(self).content@) == views(old(self).content@).update(old(self).selected as int, old(self).edit_buffer@),
            final(self).status_message@ == "Saved! | j/k: navigate | Enter: edit | q: quit | s: save"@,
    {
        let text = self.edit_buffer.clone();
        let i = self.selected;
        let ghost before = views(self.content@);
        self.content.set(i, text);
        assert(views(self.content@) =~= before.update(i as int, old(self).edit_buffer@));
        self.editing = false;
        self.status_message = owned("Saved! | j/k: navigate | Enter: edit | q: quit | s: save");
    }

    /// Abandons the edit.
    pub fn cancel_edit(&mut self)
        requires
            old(self).well_formed(),
        ensures
            final(self).well_formed(),
            !final(self).editing,
            final(self).selected == old(self).selected,
            final(self).content == old(self).content,
            final(self).edit_buffer@.len() == 0,
            final(self).status_message@ == browse_hint(),
    {
        self.editing = false;
        self.edit_buffer = String::new();
        self.status_message = owned("j/k: navigate | Enter: edit | q: quit | s: save");
    }

    /// Inserts a character at the cursor, then moves the cursor one byte on.
    /// The cursor must stand at a character boundary.
    pub fn handle_edit_input(&mut self, c: char)
        requires
            is_char_boundary(bytes_of(old(self).edit_buffer@), old(self).cursor_pos as int),
            old(self).cursor_pos < usize::MAX,
        ensures
            final(self).edit_buffer@ == ({
                let b = bytes_of(old(self).edit_buffer@);
                decode_utf8(b.subrange(0, old(self).cursor_pos as int)) + seq![c] + decode_utf8(
                    b.subrange(old(self).cursor_pos as int, b.len() as int),
                )
            }),
            final(self).cursor_pos == old(self).cursor_pos + 1,
            final(self).content == old(self).content,
            final(self).selected == old(self).selected,
            final(self).editing == old(self).editing,
    {
        let (a, b) = self.edit_buffer.as_str().split_at(self.cursor_pos);
        proof {
            vstd::utf8::encode_utf8_decode_utf8(a@);
            vstd::utf8::encode_utf8_decode_utf8(b@);
        }
        let mut s = owned(a);
        push_char(&mut s, c);
        push_str(&mut s, b);
        self.edit_buffer = s;
        self.cursor_pos = self.cursor_pos + 1;
    }

    /// Inserts a line break at the cursor.
    pub fn handle_edit_newline(&mut self)
        requires
            is_char_boundary(bytes_of(old(self).edit_buffer@), old(self).cursor_pos as int),
            old(self).cursor_pos < usize::MAX,
        ensures
            final(self).edit_buffer@ == ({
                let b = bytes_of(old(self).edit_buffer@);
                decode_utf8(b.subrange(0, old(self).cursor_pos as int)) + seq!['\n'] + decode_utf8(
                    b.subrange(old(self).cursor_pos as int, b.len() as int),
                )
            }),
            final(self).cursor_pos == old(self).cursor_pos + 1,
            final(self).content == old(self).content,
            final(self).selected == old(self).selected,
            final(self).editing == old(self).editing,
    {
        self.handle_edit_input('\n');
    }

    /// Deletes the character before the cursor: the cursor moves one byte
    /// back and the character starting there is removed. The byte before
    /// the cursor must start a character.
    pub fn handle_edit_backspace(&mut self)
        requires
            old(self).cursor_pos > 0 ==> is_char_boundary(bytes_of(old(self).edit_buffer@), old(self).cursor_pos - 1)
                && old(self).cursor_pos - 1 < bytes_of(old(self).edit_buffer@).len(),
        ensures
            old(self).cursor_pos == 0 ==> final(self).edit_buffer@ == old(self).edit_buffer@ && final(self).cursor_pos == 0,
            old(self).cursor_pos > 0 ==> final(self).cursor_pos == old(self).cursor_pos - 1 && final(self).edit_buffer@ == ({
                let b = bytes_of(old(self).edit_buffer@);
                let k = old(self).cursor_pos - 1;
                decode_utf8(b.subrange(0, k)) + decode_utf8(b.subrange(k, b.len() as int)).drop_first()
            }),
            final(self).content == old(self).content,
            final(self).selected == old(self).selected,
            final(self).editing == old(self).editing,
    {
        if self.cursor_pos > 0 {
            self.cursor_pos = self.cursor_pos - 1;
            let (a, b) = self.edit_buffer.as_str().split_at(self.cursor_pos);
            proof {
                vstd::utf8::encode_utf8_decode_utf8(a@);
                vstd::utf8::encode_utf8_decode_utf8(b@);
            }
            let rest = crate::text::to_chars(b);
            let mut s = owned(a);
            if rest.len() > 0 {
                let tail = crate::text::slice_chars(rest.as_slice(), 1, rest.len());
                crate::text::push_chars(&mut s, tail.as_slice());
                assert(tail@ =~= b@.drop_first());
            }
            self.edit_buffer = s;
        }
    }

    /// The specification the sections make.
    pub fn generate_spec(&self) -> (s: String)
        requires
            self.well_formed(),
        ensures
            s@ == editor_spec_text(views(self.content@)),
    {
        let c = &self.content;
        let mut s = owned("<project_specification>\n<project_name>");
        push_str(&mut s, c[0].as_str());
        push_str(&mut s, "</project_name>\n\n<overview>\n");
        push_str(&mut s, c[1].as_str());
        push_str(&mut s, "\n</overview>\n\n<technology_stack>\n");
        push_str(&mut s, c[2].as_str());
        push_str(&mut s, "\n</technology_stack>\n\n<core_features>\n");
        push_str(&mut s, c[3].as_str());
        push_str(&mut s, "\n</core_features>\n\n<database_schema>\n");
        push_str(&mut s, c[4].as_str());
        push_str(&mut s, "\n</database_schema>\n\n<api_endpoints>\n");
        push_str(&mut s, c[5].as_str());
        push_str(&mut s, "\n</api_endpoints>\n\n<success_criteria>\n");
        push_str(&mut s, c[6].as_str());
        push_str(&mut s, "\n</success_criteria>\n</project_specification>");
        s
    }

    /// Reacts to a key while browsing: `q`
    /// quits, down/`j` and up/`k` move, Enter starts editing, `s` asks to
    /// validate and scaffold. Editing keys go to the edit methods.
    pub fn on_browse_key(&mut self, k: Key) -> (cmd: EditorCommand)
        requires
            old(self).well_formed(),
            !old(self).editing,
        ensures
            final(self).well_formed(),
            final(self).content == old(self).content,
            k == Key::Char('q') ==> final(self).should_quit && cmd == EditorCommand::Continue && final(self).selected == old(self).selected
                && !final(self).editing,
            k == Key::Char('s') ==> cmd == EditorCommand::SaveAndScaffold && final(self).selected == old(self).selected,
            is_down(k) ==> final(self).selected == (old(self).selected + 1) % 7,
            is_up(k) ==> final(self).selected == (if old(self).selected == 0 { 6 } else { old(self).selected - 1 }),
            k == Key::Enter ==> final(self).editing && final(self).edit_buffer@ == old(self).content@[old(self).selected as int]@,
            k != Key::Char('s') ==> cmd == EditorCommand::Continue,
            (is_down(k) || is_up(k)) ==> !final(self).editing,
            !(k == Key::Char('q') || is_down(k) || is_up(k) || k == Key::Enter) ==> *final(self) == *old(self),
    {
        if k == Key::Char('q') {
            self.should_quit = true;
            EditorCommand::Continue
        } else if key_down(k) {
            self.next();
            EditorCommand::Continue
        } else if key_up(k) {
            self.previous();
            EditorCommand::Continue
        } else if k == Key::Enter {
            self.start_editing();
            EditorCommand::Continue
        } else if k == Key::Char('s') {
            EditorCommand::SaveAndScaffold
        } else {
            EditorCommand::Continue
        }
    }
}

/// Opening a section and saving it without typing leaves every section as
/// it was: the buffer starts as the section's text and saving puts the
/// buffer back.
pub proof fn lemma_open_then_save_keeps_sections(content: Seq<String>, i: int)
    requires
        0 <= i < content.len(),
    ensures
        views(content).update(i, content[i]@) == views(content),
{
    assert(views(content).update(i, content[i]@) =~= views(content));
}

} // verus!
