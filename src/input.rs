use crate::key::{KeyCode, SHIFT};
use crate::render::caret_column;
use ratatui::crossterm::event::Event as TermEvent;
use ratatui::crossterm::event::KeyCode as TermCode;
use ratatui::crossterm::event::KeyEvent as TermKey;
use ratatui::crossterm::event::KeyModifiers;
use vstd::prelude::*;
use vstd::string::StrSliceExecFns;

verus! {

/// The text and cursor that one key leaves in a single-line input whose text
/// and cursor were `text` and `cursor`.
pub uninterp spec fn edited_by_key(text: Seq<char>, cursor: nat, code: KeyCode, modifiers: u8) -> (
    Seq<char>,
    nat,
);

/// Keys that the text input never acts on, whatever the modifiers.
pub open spec fn ignored_by_input(code: KeyCode) -> bool {
    match code {
        KeyCode::Enter | KeyCode::Esc | KeyCode::Up | KeyCode::Down | KeyCode::Tab
        | KeyCode::Other => true,
        _ => false,
    }
}

/// The text and cursor that one key leaves: exact for the keys whose effect
/// is a plain insert, deletion or cursor motion, and `edited_by_key` for the
/// rest (word motions and deletions).
pub open spec fn key_edit(text: Seq<char>, cursor: nat, code: KeyCode, modifiers: u8) -> (
    Seq<char>,
    nat,
) {
    match code {
        KeyCode::Char(c) if modifiers == 0 || modifiers == SHIFT => (
            text.take(cursor as int) + seq![c] + text.skip(cursor as int),
            cursor + 1,
        ),
        KeyCode::Backspace if modifiers == 0 => if cursor == 0 {
            (text, cursor)
        } else {
            (text.remove(cursor - 1), (cursor - 1) as nat)
        },
        KeyCode::Delete if modifiers == 0 => if cursor >= text.len() {
            (text, cursor)
        } else {
            (text.remove(cursor as int), cursor)
        },
        KeyCode::Left if modifiers == 0 => (text, if cursor == 0 { 0 } else { (cursor - 1) as nat }),
        KeyCode::Right if modifiers == 0 => (text, if cursor >= text.len() { cursor } else { cursor + 1 }),
        KeyCode::Home if modifiers == 0 => (text, 0),
        KeyCode::End if modifiers == 0 => (text, text.len()),
        _ => if ignored_by_input(code) {
            (text, cursor)
        } else {
            edited_by_key(text, cursor, code, modifiers)
        },
    }
}

/// Relies on tui_input's crossterm `EventHandler::handle_event` (through
/// `to_input_request` and `Input::handle`) to edit the text for one pressed key.
/// Its source keeps the cursor within the text; maps a plain or shifted
/// character to `InsertChar`; plain Backspace, Delete, Left, Right, Home and End
/// to `DeletePrevChar`, `DeleteNextChar`, `GoToPrevChar`, `GoToNextChar`,
/// `GoToStart` and `GoToEnd`, whose effects `key_edit` states; and the keys of
/// `ignored_by_input` to no request.
#[verifier::external_body]
fn tui_edit(value: String, cursor: usize, code: KeyCode, modifiers: u8) -> (r: (String, usize))
    requires
        cursor <= value@.len(),
    ensures
        (r.0@, r.1 as nat) == edited_by_key(value@, cursor as nat, code, modifiers),
        (r.0@, r.1 as nat) == key_edit(value@, cursor as nat, code, modifiers),
        r.1 <= r.0@.len(),
{
    let code = match code {
        KeyCode::Char(c) => TermCode::Char(c), KeyCode::Enter => TermCode::Enter,
        KeyCode::Esc => TermCode::Esc, KeyCode::Up => TermCode::Up, KeyCode::Down => TermCode::Down,
        KeyCode::Left => TermCode::Left, KeyCode::Right => TermCode::Right,
        KeyCode::Home => TermCode::Home, KeyCode::End => TermCode::End,
        KeyCode::Backspace => TermCode::Backspace, KeyCode::Delete => TermCode::Delete,
        KeyCode::Tab => TermCode::Tab, KeyCode::Other => TermCode::Null,
    };
    let event = TermEvent::Key(TermKey::new(code, KeyModifiers::from_bits_retain(modifiers)));
    let mut input = tui_input::Input::new(value).with_cursor(cursor);
    tui_input::backend::crossterm::EventHandler::handle_event(&mut input, &event);
    (input.value().to_string(), input.cursor())
}

/// Display width of the characters of `text` before the cursor.
pub uninterp spec fn visual_cursor_of(text: Seq<char>, cursor: nat) -> nat;

/// Display columns that an input box `width` columns wide scrolls past so
/// that the cursor stays in view.
pub uninterp spec fn visual_scroll_of(text: Seq<char>, cursor: nat, width: nat) -> nat;

/// Relies on tui_input's `Input::visual_cursor`: the display width of the
/// characters before the cursor; its source returns zero at cursor zero.
#[verifier::external_body]
fn tui_visual_cursor(value: &String, cursor: usize) -> (r: usize)
    requires
        cursor <= value@.len(),
    ensures
        r as nat == visual_cursor_of(value@, cursor as nat),
        cursor == 0 ==> r == 0,
{
    tui_input::Input::new(value.clone()).with_cursor(cursor).visual_cursor()
}

/// Relies on tui_input's `Input::visual_scroll`: the display columns to skip
/// in a box `width` wide; its source skips none while the visible cursor
/// offset fits in the width.
#[verifier::external_body]
fn tui_visual_scroll(value: &String, cursor: usize, width: usize) -> (r: usize)
    requires
        cursor <= value@.len(),
    ensures
        r as nat == visual_scroll_of(value@, cursor as nat, width as nat),
        visual_cursor_of(value@, cursor as nat) <= width ==> r == 0,
{
    tui_input::Input::new(value.clone()).with_cursor(cursor).visual_scroll(width)
}

/// A single-line text buffer with a cursor, counted in characters.
pub struct TextInput {
    value: String,
    cursor: usize,
}

impl TextInput {
    pub closed spec fn text(&self) -> Seq<char> {
        self.value@
    }

    pub closed spec fn cursor_pos(&self) -> nat {
        self.cursor as nat
    }

    /// The cursor never passes the end of the text.
    pub open spec fn wf(&self) -> bool {
        self.cursor_pos() <= self.text().len()
    }

    /// An empty buffer.
    pub fn empty() -> (r: TextInput)
        ensures
            r.wf(),
            r.text() == Seq::<char>::empty(),
            r.cursor_pos() == 0,
    {
        TextInput { value: String::new(), cursor: 0 }
    }

    /// A buffer holding `value`, with the cursor after its last character.
    pub fn new(value: String) -> (r: TextInput)
        ensures
            r.wf(),
            r.text() == value@,
            r.cursor_pos() == value@.len(),
    {
        let cursor = value.as_str().unicode_len();
        TextInput { value, cursor }
    }

    pub fn value(&self) -> (r: &str)
        ensures
            r@ == self.text(),
    {
        self.value.as_str()
    }

    pub fn cursor(&self) -> (r: usize)
        ensures
            r == self.cursor_pos(),
    {
        self.cursor
    }

    /// Empties the buffer.
    pub fn reset(&mut self)
        ensures
            final(self).wf(),
            final(self).text() == Seq::<char>::empty(),
            final(self).cursor_pos() == 0,
    {
        self.value = String::new();
        self.cursor = 0;
    }

    /// Hands out the text and empties the buffer.
    pub fn value_and_reset(&mut self) -> (r: String)
        ensures
            r@ == old(self).text(),
            final(self).wf(),
            final(self).text() == Seq::<char>::empty(),
            final(self).cursor_pos() == 0,
    {
        let r = self.value.clone();
        self.reset();
        r
    }

    /// Where the caret goes in an input box `width` columns wide: the scroll
    /// offset, and the caret's column from the box's left edge. `None` where
    /// the visible cursor offset leaves no room for the border column.
    pub fn caret(&self, width: usize) -> (r: Option<(usize, usize)>)
        requires
            self.wf(),
        ensures
            ({
                let shown = visual_cursor_of(self.text(), self.cursor_pos());
                let scroll = visual_scroll_of(self.text(), self.cursor_pos(), width as nat);
                match r {
                    Some((s, column)) => shown < usize::MAX && s == scroll && column == (if shown
                        < scroll {
                        scroll
                    } else {
                        shown
                    }) - scroll + 1,
                    None => shown == usize::MAX,
                }
            }),
    {
        let shown = tui_visual_cursor(&self.value, self.cursor);
        let scroll = tui_visual_scroll(&self.value, self.cursor, width);
        if shown < usize::MAX {
            Some((scroll, caret_column(shown, scroll)))
        } else {
            None
        }
    }

    /// Applies one pressed key: a character insert or deletion, or a cursor motion.
    pub fn handle_key(&mut self, code: KeyCode, modifiers: u8)
        requires
            old(self).wf(),
        ensures
            final(self).wf(),
            (final(self).text(), final(self).cursor_pos()) == key_edit(
                old(self).text(),
                old(self).cursor_pos(),
                code,
                modifiers,
            ),
    {
        let (value, cursor) = tui_edit(self.value.clone(), self.cursor, code, modifiers);
        self.value = value;
        self.cursor = cursor;
    }
}

} // verus!
