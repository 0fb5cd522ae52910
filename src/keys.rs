use vstd::prelude::*;

verus! {

/// The key of a key press.
#[derive(Clone, Copy, Debug, PartialEq, Eq, Structural)]
pub enum KeyCode {
    Char(char),
    Enter,
    Esc,
    Tab,
    BackTab,
    Backspace,
    Delete,
    Left,
    Right,
    Up,
    Down,
    Home,
    End,
    PageUp,
    PageDown,
    Insert,
    F(u8),
    Other,
}

/// Modifier bits of a key press.
pub const SHIFT: u8 = 1;

pub const CONTROL: u8 = 2;

pub const ALT: u8 = 4;

pub const SUPER: u8 = 8;

pub const HYPER: u8 = 16;

pub const META: u8 = 32;

/// A key press: the key and the set of modifiers held with it, as bits.
#[derive(Clone, Copy, Debug, PartialEq, Eq, Structural)]
pub struct KeyInput {
    pub code: KeyCode,
    pub modifiers: u8,
}

impl KeyInput {
    /// The character key `c` with exactly the modifiers `m`.
    pub open spec fn is_char_with(self, c: char, m: u8) -> bool {
        self.code == KeyCode::Char(c) && self.modifiers == m
    }

    /// `c` with Control and nothing else.
    pub open spec fn is_ctrl(self, c: char) -> bool {
        self.is_char_with(c, CONTROL)
    }

    pub fn ctrl(&self, c: char) -> (r: bool)
        ensures
            r == self.is_ctrl(c),
    {
        self.modifiers == CONTROL && match self.code {
            KeyCode::Char(k) => k == c,
            _ => false,
        }
    }
}

#[verifier::external_type_specification]
pub struct ExInputRequest(tui_input::InputRequest);

/// The text and cursor of the input line after `req`, from the text `value`
/// with the cursor at `cursor` (a character index).
pub uninterp spec fn input_after(value: Seq<char>, cursor: nat, req: tui_input::InputRequest) -> (
    Seq<char>,
    nat,
);

/// The requests that only move the cursor.
pub open spec fn moves_cursor_only(req: tui_input::InputRequest) -> bool {
    match req {
        tui_input::InputRequest::SetCursor(_) => true,
        tui_input::InputRequest::GoToPrevChar => true,
        tui_input::InputRequest::GoToNextChar => true,
        tui_input::InputRequest::GoToPrevWord => true,
        tui_input::InputRequest::GoToNextWord => true,
        tui_input::InputRequest::GoToStart => true,
        tui_input::InputRequest::GoToEnd => true,
        _ => false,
    }
}

/// Relies on `tui_input::Input::handle`: the line editor applies one request
/// to a text and a cursor. Requests that move the cursor keep the text, and a
/// character is inserted at the cursor, which then moves past it.
#[verifier::external_body]
pub(crate) fn edit_input(value: &str, cursor: usize, req: tui_input::InputRequest) -> (r: (
    String,
    usize,
))
    ensures
        (r.0@, r.1 as nat) == input_after(value@, cursor as nat, req),
        moves_cursor_only(req) ==> r.0@ == value@,
        match req {
            tui_input::InputRequest::InsertChar(c) => cursor <= value@.len() ==> r.0@ == value@.take(
                cursor as int,
            ).push(c) + value@.skip(cursor as int) && r.1 == cursor + 1,
            _ => true,
        },
{
    let mut input = tui_input::Input::new(value.to_string()).with_cursor(cursor);
    input.handle(req);
    (input.value().to_string(), input.cursor())
}

} // verus!
