//! A single-line text input with a cursor, kept by `tui_input::Input`, and the
//! edits the screens apply to it.

use vstd::prelude::*;

use tui_input::{Input, InputRequest};

use crate::interaction::KeyCode;

verus! {

/// `tui_input::Input`: a line of text and a cursor counted in characters.
#[verifier::external_type_specification]
#[verifier::external_body]
pub struct ExInput(Input);

/// The text an input holds.
pub uninterp spec fn input_text(input: Input) -> Seq<char>;

/// The cursor of an input, as a number of characters before it.
pub uninterp spec fn input_cursor(input: Input) -> nat;

/// An edit of a text input.
#[derive(Clone, Copy, Debug, PartialEq, Eq, Structural)]
pub enum InputEdit {
    /// Types a character at the cursor.
    InsertChar(char),
    /// Deletes the character before the cursor.
    DeletePrevChar,
    /// Deletes the character under the cursor.
    DeleteNextChar,
    /// Moves the cursor one character left.
    GoToPrevChar,
    /// Moves the cursor one character right.
    GoToNextChar,
    /// Moves the cursor to the start.
    GoToStart,
    /// Moves the cursor to the end.
    GoToEnd,
}

/// The text and cursor after an edit.
pub open spec fn edited_input(text: Seq<char>, cursor: nat, edit: InputEdit) -> (Seq<char>, nat) {
    match edit {
        InputEdit::InsertChar(c) => (text.take(cursor as int) + seq![c] + text.skip(cursor as int), cursor + 1),
        InputEdit::DeletePrevChar => if cursor == 0 {
            (text, cursor)
        } else {
            (text.remove(cursor - 1), (cursor - 1) as nat)
        },
        InputEdit::DeleteNextChar => if cursor == text.len() {
            (text, cursor)
        } else {
            (text.remove(cursor as int), cursor)
        },
        InputEdit::GoToPrevChar => (text, if cursor == 0 { 0 } else { (cursor - 1) as nat }),
        InputEdit::GoToNextChar => (text, if cursor == text.len() { cursor } else { cursor + 1 }),
        InputEdit::GoToStart => (text, 0),
        InputEdit::GoToEnd => (text, text.len()),
    }
}

/// The edit a key typed into a text input performs.
pub open spec fn key_edit(code: KeyCode) -> Option<InputEdit> {
    match code {
        KeyCode::Char(c) => Some(InputEdit::InsertChar(c)),
        KeyCode::Backspace => Some(InputEdit::DeletePrevChar),
        KeyCode::Delete => Some(InputEdit::DeleteNextChar),
        KeyCode::Left => Some(InputEdit::GoToPrevChar),
        KeyCode::Right => Some(InputEdit::GoToNextChar),
        KeyCode::Home => Some(InputEdit::GoToStart),
        KeyCode::End => Some(InputEdit::GoToEnd),
        _ => None,
    }
}

/// The edit a key typed into a text input performs (see `key_edit`).
pub fn key_edit_of(code: KeyCode) -> (r: Option<InputEdit>)
    ensures
        r == key_edit(code),
{
    match code {
        KeyCode::Char(c) => Some(InputEdit::InsertChar(c)),
        KeyCode::Backspace => Some(InputEdit::DeletePrevChar),
        KeyCode::Delete => Some(InputEdit::DeleteNextChar),
        KeyCode::Left => Some(InputEdit::GoToPrevChar),
        KeyCode::Right => Some(InputEdit::GoToNextChar),
        KeyCode::Home => Some(InputEdit::GoToStart),
        KeyCode::End => Some(InputEdit::GoToEnd),
        _ => None,
    }
}

/// The cursor lies within the text.
pub open spec fn input_ok(input: Input) -> bool {
    input_cursor(input) <= input_text(input).len()
}

/// `Input::default`: no text, the cursor at 0.
#[verifier::external_body]
pub(crate) fn empty_input() -> (r: Input)
    ensures
        input_text(r) == Seq::<char>::empty(),
        input_cursor(r) == 0,
{
    Input::default()
}

/// `Input::new`: the given text with the cursor after its last character.
#[verifier::external_body]
pub(crate) fn new_input(value: String) -> (r: Input)
    ensures
        input_text(r) == value@,
        input_cursor(r) == value@.len(),
{
    Input::new(value)
}

/// `Input::value`: the text.
#[verifier::external_body]
pub(crate) fn input_value(input: &Input) -> (r: &str)
    ensures
        r@ == input_text(*input),
{
    input.value()
}

/// `Input::cursor`: the cursor's position, counted in characters.
#[verifier::external_body]
pub(crate) fn input_cursor_of(input: &Input) -> (r: usize)
    ensures
        r as nat == input_cursor(*input),
{
    input.cursor()
}

/// Whether the cursor lies within the text (see `input_ok`).
pub fn input_within(input: &Input) -> (r: bool)
    ensures
        r == input_ok(*input),
{
    let cursor = input_cursor_of(input);
    let text = crate::text::chars_of(input_value(input));
    cursor <= text.len()
}

/// `Input::handle`: applies an edit as `edited_input` describes (the crate's
/// source performs exactly these insertions, removals and cursor moves).
#[verifier::external_body]
pub(crate) fn input_handle(input: &mut Input, edit: InputEdit)
    requires
        input_ok(*old(input)),
    ensures
        (input_text(*final(input)), input_cursor(*final(input))) == edited_input(
            input_text(*old(input)),
            input_cursor(*old(input)),
            edit,
        ),
{
    let request = match edit {
        InputEdit::InsertChar(c) => InputRequest::InsertChar(c),
        InputEdit::DeletePrevChar => InputRequest::DeletePrevChar,
        InputEdit::DeleteNextChar => InputRequest::DeleteNextChar,
        InputEdit::GoToPrevChar => InputRequest::GoToPrevChar,
        InputEdit::GoToNextChar => InputRequest::GoToNextChar,
        InputEdit::GoToStart => InputRequest::GoToStart,
        InputEdit::GoToEnd => InputRequest::GoToEnd,
    };
    input.handle(request);
}

/// Deleting the previous character undoes typing one: the text and cursor
/// come back as they were.
pub proof fn lemma_delete_undoes_insert(text: Seq<char>, cursor: nat, c: char)
    requires
        cursor <= text.len(),
    ensures
        ({
            let typed = edited_input(text, cursor, InputEdit::InsertChar(c));
            edited_input(typed.0, typed.1, InputEdit::DeletePrevChar) == (text, cursor)
        }),
{
    let typed = edited_input(text, cursor, InputEdit::InsertChar(c));
    assert(typed.0.remove(cursor as int) =~= text);
}

/// Edits keep the cursor within the text.
pub proof fn lemma_edit_keeps_cursor(text: Seq<char>, cursor: nat, edit: InputEdit)
    requires
        cursor <= text.len(),
    ensures
        edited_input(text, cursor, edit).1 <= edited_input(text, cursor, edit).0.len(),
{
}

} // verus!
