//! How the issue form answers key commands and command-line commands, on each of
//! its surfaces: the form itself, the text pop-up and an open drop-down.

use vstd::prelude::*;

use crate::form::{
    field_after_highlight, form_after_choice, form_after_edit, form_motion, highlighted_by,
    highlighted_of, insert_edit,
    is_dropdown, moved_highlight_by, next_selected_by, options_of, prev_selected_by,
    selected_replaced, with_highlighted, FieldType, FormField, HighlightMove,
};
use crate::interaction::{ActionId, Command, CommandLineCommand, InsertMode, KeyCode, Mode, ScreenState};
use crate::model::{AppErrorState, IssueMutation};
use crate::screens::issue_form::state::{
    closed_dropdown, form_unchanged, opened_dropdown, overlay_closed, submission_matches,
    IssueFormState, IssueFormSurface,
};
use crate::form::{cursor_index, text_chars, CursorState};
use crate::text::{
    byte_len, edit_result, lemma_backspace_undoes_insert, lemma_byte_len_concat, lemma_byte_len_of_prefix,
    lemma_index_at_byte_bound, lemma_index_at_byte_of_prefix, str_eq, TextEdit,
};

verus! {

/// The edit a key typed into a text field performs.
pub open spec fn typed_edit(code: KeyCode) -> Option<TextEdit> {
    match code {
        KeyCode::Char(c) => Some(TextEdit::Insert(c)),
        KeyCode::Tab => Some(TextEdit::Insert('\t')),
        KeyCode::Enter => Some(TextEdit::Insert('\n')),
        KeyCode::Backspace => Some(TextEdit::Backspace),
        KeyCode::Delete => Some(TextEdit::Delete),
        _ => None,
    }
}

/// The cursor motion an action performs in the text pop-up, where up and down
/// move between lines and top and bottom go to the ends of the line.
pub open spec fn popup_motion(action: ActionId, n: usize) -> Option<TextEdit> {
    match action {
        ActionId::MoveUp => Some(TextEdit::Up(n)),
        ActionId::MoveDown => Some(TextEdit::Down(n)),
        ActionId::MoveTop => Some(TextEdit::LineStart),
        ActionId::MoveBottom => Some(TextEdit::LineEnd),
        _ => form_motion(action, n),
    }
}

/// `after` applied `edit`, if there is one, to the form of `before`, on the same
/// surface.
pub open spec fn edited(before: IssueFormState, edit: Option<TextEdit>, after: IssueFormState) -> bool {
    &&& after.surface() == before.surface()
    &&& match edit {
        Some(e) => form_after_edit(before.form_view(), e, after.form_view()),
        None => after.form_view() == before.form_view(),
    }
}

/// `after` chose the highlighted option of the selected drop-down of `before`.
pub open spec fn chose(before: IssueFormState, after: IssueFormState) -> bool {
    &&& after.surface() == before.surface()
    &&& form_after_choice(before.form_view(), after.form_view())
}

/// `after` moved the highlight of the selected drop-down `n` times.
pub open spec fn highlight_moved(
    before: IssueFormState,
    m: HighlightMove,
    n: nat,
    after: IssueFormState,
) -> bool {
    let f = before.form_view();
    &&& after.surface() == before.surface()
    &&& selected_replaced(f, after.form_view(), highlighted_by(f.field_seq()[f.selected() as int], m, n))
}

/// Confirm on the form: a drop-down opens its option list; a text field enters
/// insert mode after the cursor, in the pop-up for the summary and description.
pub open spec fn confirmed_on_form(before: IssueFormState, after: IssueFormState, r: ScreenState) -> bool {
    let f = before.form_view();
    let sel = f.selected();
    if sel < f.field_seq().len() {
        let field = f.field_seq()[sel as int];
        if is_dropdown(field.field_type) {
            r == ScreenState::Refresh && opened_dropdown(before, after)
        } else {
            &&& r == ScreenState::SwitchMode(Mode::Insert)
            &&& form_after_edit(f, TextEdit::AfterCursor, after.form_view())
            &&& after.surface() == if field.label@ == "Summary"@ || field.label@ == "Description"@ {
                IssueFormSurface::TextPopup { field_index: sel as usize }
            } else {
                before.surface()
            }
        }
    } else {
        r == ScreenState::Stay && after.form_view() == f && after.surface() == before.surface()
    }
}

/// `after` selected field `sel` of the unchanged fields, and asks for a redraw.
pub open spec fn moved_to(before: IssueFormState, after: IssueFormState, r: ScreenState, sel: nat) -> bool {
    &&& r == ScreenState::Refresh
    &&& after.surface() == before.surface()
    &&& after.form_view().field_seq() == before.form_view().field_seq()
    &&& after.form_view().selected() == sel
}

/// What a command does on the form surface.
pub open spec fn form_surface_outcome(
    before: IssueFormState,
    c: Command,
    after: IssueFormState,
    r: ScreenState,
) -> bool {
    let f = before.form_view();
    let g = after.form_view();
    let len = f.field_seq().len();
    match c.action {
        ActionId::MoveDown => moved_to(before, after, r, next_selected_by(f.selected(), len, c.repeat as nat)),
        ActionId::MoveUp => moved_to(before, after, r, prev_selected_by(f.selected(), len, c.repeat as nat)),
        ActionId::MoveTop => moved_to(before, after, r, 0),
        ActionId::MoveBottom => moved_to(
            before,
            after,
            r,
            if len == 0 {
                f.selected()
            } else {
                (len - 1) as nat
            },
        ),
        ActionId::MoveLeft | ActionId::MoveRight | ActionId::MoveLineStart | ActionId::MoveLineEnd
        | ActionId::MoveWordForward | ActionId::MoveWordBackward | ActionId::MoveWordEnd => r
            == ScreenState::Refresh && edited(before, form_motion(c.action, c.repeat), after),
        ActionId::EnterInsert(m) => r == ScreenState::Refresh && edited(before, insert_edit(m), after),
        ActionId::RawInput(code) => r == ScreenState::Refresh && edited(before, typed_edit(code), after),
        ActionId::Confirm => confirmed_on_form(before, after, r),
        _ => r == ScreenState::Stay && g == f && after.surface() == before.surface(),
    }
}

/// What a command does while the text pop-up is open.
pub open spec fn popup_outcome(
    before: IssueFormState,
    c: Command,
    mode: Mode,
    after: IssueFormState,
    r: ScreenState,
) -> bool {
    let unchanged = after.form_view() == before.form_view() && after.surface() == before.surface();
    match c.action {
        ActionId::MoveUp | ActionId::MoveDown | ActionId::MoveLeft | ActionId::MoveRight
        | ActionId::MoveTop | ActionId::MoveBottom | ActionId::MoveLineStart | ActionId::MoveLineEnd
        | ActionId::MoveWordForward | ActionId::MoveWordBackward | ActionId::MoveWordEnd => r
            == ScreenState::Refresh && edited(before, popup_motion(c.action, c.repeat), after),
        ActionId::EnterInsert(m) => r == ScreenState::Refresh && edited(before, insert_edit(m), after),
        ActionId::RawInput(code) => r == ScreenState::Refresh && edited(before, typed_edit(code), after),
        ActionId::Quit => if mode == Mode::Normal {
            r == ScreenState::Refresh && after.surface() == IssueFormSurface::Form && after.form_view()
                == before.form_view()
        } else {
            r == ScreenState::Stay && unchanged
        },
        ActionId::Confirm => r == ScreenState::SwitchMode(Mode::Insert) && unchanged,
        _ => r == ScreenState::Stay && unchanged,
    }
}

/// What a command does while a drop-down is open.
pub open spec fn dropdown_outcome(
    before: IssueFormState,
    c: Command,
    mode: Mode,
    after: IssueFormState,
    r: ScreenState,
) -> bool {
    let f = before.form_view();
    let sel = f.selected();
    let unchanged = after.form_view() == f && after.surface() == before.surface();
    let on_multi = sel < f.field_seq().len() && f.field_seq()[sel as int].field_type is MultiSelect;
    match c.action {
        ActionId::MoveUp => r == ScreenState::Refresh && highlight_moved(
            before,
            HighlightMove::Up,
            c.repeat as nat,
            after,
        ),
        ActionId::MoveDown => r == ScreenState::Refresh && highlight_moved(
            before,
            HighlightMove::Down,
            c.repeat as nat,
            after,
        ),
        ActionId::MoveTop => r == ScreenState::Refresh && highlight_moved(before, HighlightMove::Top, 1, after),
        ActionId::MoveBottom => r == ScreenState::Refresh && highlight_moved(
            before,
            HighlightMove::Bottom,
            1,
            after,
        ),
        ActionId::Confirm => r == ScreenState::Refresh && if sel < f.field_seq().len()
            && f.field_seq()[sel as int].field_type is Select {
            exists|mid: IssueFormState| #[trigger] chose(before, mid) && closed_dropdown(mid, after)
        } else {
            chose(before, after)
        },
        ActionId::RawInput(code) => r == ScreenState::Refresh && if code == KeyCode::Char(' ') && on_multi {
            chose(before, after)
        } else {
            unchanged
        },
        ActionId::Quit => if mode == Mode::Normal {
            r == ScreenState::Refresh && closed_dropdown(before, after)
        } else {
            r == ScreenState::Stay && unchanged
        },
        _ => r == ScreenState::Stay && unchanged,
    }
}

/// What a key command does to the form: Esc in normal mode closes an open
/// overlay; otherwise the active surface decides. The error is always cleared.
pub open spec fn command_outcome(
    before: IssueFormState,
    c: Command,
    mode: Mode,
    after: IssueFormState,
    r: ScreenState,
) -> bool {
    &&& after.error_view() is None
    &&& after.same_setup(&before)
    &&& if mode == Mode::Normal && c.action == ActionId::RawInput(KeyCode::Esc) && !(before.surface() is Form) {
        r == ScreenState::Refresh && overlay_closed(before, after)
    } else {
        match before.surface() {
            IssueFormSurface::Form => form_surface_outcome(before, c, after, r),
            IssueFormSurface::TextPopup { .. } => popup_outcome(before, c, mode, after, r),
            IssueFormSurface::Dropdown { .. } => dropdown_outcome(before, c, mode, after, r),
        }
    }
}

/// What saving does once `submission` answered `sub`: a mutation is handed on; an
/// unchanged form closes on `:wq` and stays on `:w`; an invalid one shows the
/// message as a validation error.
pub open spec fn saved(
    sub: Result<Option<IssueMutation>, String>,
    close_when_unchanged: bool,
    after: IssueFormState,
    r: ScreenState,
) -> bool {
    match sub {
        Ok(Some(m)) => r == ScreenState::Mutate(m) && after.error_view() is None,
        Ok(None) => after.error_view() is None && r == if close_when_unchanged {
            ScreenState::Close
        } else {
            ScreenState::Refresh
        },
        Err(message) => {
            &&& r == ScreenState::Refresh
            &&& after.error_view() matches Some(e)
            &&& e.title@ == "Validation Error"@
            &&& e.message == message
        },
    }
}

/// Handles commands for the issue form.
pub struct IssueFormController;

impl IssueFormController {
    /// Handles a key command in the given mode.
    pub fn handle_command(state: &mut IssueFormState, command: Command, mode: Mode) -> (r: ScreenState)
        ensures
            command_outcome(*old(state), command, mode, *final(state), r),
    {
        state.clear_error();
        let esc = match command.action {
            ActionId::RawInput(KeyCode::Esc) => true,
            _ => false,
        };
        let on_form = match state.active_surface() {
            IssueFormSurface::Form => true,
            _ => false,
        };
        if mode == Mode::Normal && esc && !on_form {
            state.close_active_overlay();
            return ScreenState::Refresh;
        }
        let ghost cleared = *state;
        let r = match state.active_surface() {
            IssueFormSurface::Form => handle_form_surface(state, command),
            IssueFormSurface::TextPopup { .. } => handle_text_popup_surface(state, command, mode),
            IssueFormSurface::Dropdown { .. } => handle_dropdown_surface(state, command, mode),
        };
        proof {
            let f = cleared.form_view();
            if cleared.surface() is Dropdown && command.action == ActionId::Confirm && f.selected()
                < f.field_seq().len() && f.field_seq()[f.selected() as int].field_type is Select {
                let mid = choose|mid: IssueFormState| #[trigger]
                    chose(cleared, mid) && closed_dropdown(mid, *state);
                assert(chose(*old(state), mid));
            }
        }
        r
    }

    /// Handles `:w`, `:wq` and `:q`.
    pub fn handle_command_line(state: &mut IssueFormState, cmd: CommandLineCommand) -> (r: ScreenState)
        ensures
            final(state).same_setup(old(state)),
            final(state).form_view() == old(state).form_view(),
            final(state).surface() == old(state).surface(),
            match cmd {
                CommandLineCommand::Quit => r == ScreenState::Close && final(state).error_view()
                    == old(state).error_view(),
                _ => exists|sub: Result<Option<IssueMutation>, String>|
                    #[trigger] submission_matches(*old(state), sub) && saved(
                        sub,
                        cmd == CommandLineCommand::WriteQuit,
                        *final(state),
                        r,
                    ),
            },
    {
        match cmd {
            CommandLineCommand::Quit => ScreenState::Close,
            _ => {
                let close_when_unchanged = cmd == CommandLineCommand::WriteQuit;
                state.clear_error();
                let sub = state.submission();
                let ghost g = sub;
                let r = match sub {
                    Ok(Some(mutation)) => ScreenState::Mutate(mutation),
                    Ok(None) => if close_when_unchanged {
                        ScreenState::Close
                    } else {
                        ScreenState::Refresh
                    },
                    Err(err) => {
                        state.set_error(AppErrorState::new("Validation Error", err));
                        ScreenState::Refresh
                    },
                };
                assert(submission_matches(*old(state), g));
                r
            },
        }
    }
}

/// The field the form has selected.
pub open spec fn selected_field_of(s: IssueFormState) -> FormField {
    s.form_view().field_seq()[s.form_view().selected() as int]
}

/// Backspace undoes a typed character: on the form or in the text pop-up, typing
/// a character other than a newline into a single-line text field and then
/// pressing Backspace gives back the field's text and puts the cursor back on
/// the character it was at; the other fields stay as they were and both keys
/// ask for a redraw. (The text is assumed to fit in memory with room for one
/// more character.)
pub proof fn lemma_backspace_undoes_typing_in_the_form(
    s0: IssueFormState,
    s1: IssueFormState,
    s2: IssueFormState,
    c: char,
    n1: usize,
    n2: usize,
    m1: Mode,
    m2: Mode,
    r1: ScreenState,
    r2: ScreenState,
)
    requires
        s0.surface() is Form || s0.surface() is TextPopup,
        s0.form_view().selected() < s0.form_view().field_seq().len(),
        selected_field_of(s0).field_type is Text,
        selected_field_of(s0).value is Text,
        selected_field_of(s0).cursor is Text,
        byte_len(text_chars(selected_field_of(s0).value)) + 4 <= usize::MAX,
        c != '\n',
        command_outcome(s0, Command { action: ActionId::RawInput(KeyCode::Char(c)), repeat: n1 }, m1, s1, r1),
        command_outcome(s1, Command { action: ActionId::RawInput(KeyCode::Backspace), repeat: n2 }, m2, s2, r2),
    ensures
        r1 == ScreenState::Refresh,
        r2 == ScreenState::Refresh,
        s2.surface() == s0.surface(),
        s2.form_view().selected() == s0.form_view().selected(),
        s2.form_view().field_seq().len() == s0.form_view().field_seq().len(),
        text_chars(selected_field_of(s2).value) == text_chars(selected_field_of(s0).value),
        cursor_index(selected_field_of(s2)) == cursor_index(selected_field_of(s0)),
        selected_field_of(s2).label == selected_field_of(s0).label,
        forall|i: int|
            0 <= i < s0.form_view().field_seq().len() && i != s0.form_view().selected() ==> #[trigger] s2.form_view().field_seq()[i]
                == s0.form_view().field_seq()[i],
{
    let sel = s0.form_view().selected();
    let f0 = selected_field_of(s0);
    let t0 = text_chars(f0.value);
    let k0 = cursor_index(f0);
    lemma_index_at_byte_bound(t0, f0.cursor->position as nat);
    assert(k0 <= t0.len());
    let f1 = s1.form_view().field_seq()[sel as int];
    let t1 = t0.take(k0 as int) + seq![c] + t0.skip(k0 as int);
    assert(edit_result(t0, k0, TextEdit::Insert(c), false) == (t1, k0 + 1));
    assert(text_chars(f1.value) == t1);
    assert(f1.cursor == cursor_state_for_text(t1, k0 + 1));
    assert(byte_len(t1) <= byte_len(t0) + 4) by {
        lemma_byte_len_concat(t0.take(k0 as int) + seq![c], t0.skip(k0 as int));
        lemma_byte_len_concat(t0.take(k0 as int), seq![c]);
        lemma_byte_len_concat(t0.take(k0 as int), t0.skip(k0 as int));
        assert(t0.take(k0 as int) + t0.skip(k0 as int) =~= t0);
        assert(seq![c].drop_last() =~= Seq::<char>::empty());
        assert(byte_len(Seq::<char>::empty()) == 0);
    }
    lemma_byte_len_of_prefix(t1, (k0 + 1) as int);
    lemma_index_at_byte_of_prefix(t1, k0 + 1);
    assert(cursor_index(f1) == k0 + 1);
    lemma_backspace_undoes_insert(t0, k0, c, false);
    let f2 = s2.form_view().field_seq()[sel as int];
    assert(edit_result(t1, k0 + 1, TextEdit::Backspace, false) == (t0, k0));
    assert(text_chars(f2.value) == t0);
    lemma_byte_len_of_prefix(t0, k0 as int);
    lemma_index_at_byte_of_prefix(t0, k0);
    assert(cursor_index(f2) == k0);
}

/// The cursor of a single-line field at character `k` of `cs`.
pub open spec fn cursor_state_for_text(cs: Seq<char>, k: nat) -> CursorState {
    crate::form::cursor_state_for(FieldType::Text { masked: false }, cs, k)
}

/// The edit a key typed into a text field performs.
fn typed_edit_of(code: KeyCode) -> (r: Option<TextEdit>)
    ensures
        r == typed_edit(code),
{
    match code {
        KeyCode::Char(c) => Some(TextEdit::Insert(c)),
        KeyCode::Tab => Some(TextEdit::Insert('\t')),
        KeyCode::Enter => Some(TextEdit::Insert('\n')),
        KeyCode::Backspace => Some(TextEdit::Backspace),
        KeyCode::Delete => Some(TextEdit::Delete),
        _ => None,
    }
}

/// Applies an edit, if there is one, to the selected field.
fn apply_to_form(state: &mut IssueFormState, edit: Option<TextEdit>)
    ensures
        edited(*old(state), edit, *final(state)),
        final(state).error_view() == old(state).error_view(),
        final(state).same_setup(old(state)),
{
    match edit {
        Some(e) => state.form_mut().edit_selected(e),
        None => {},
    }
}

/// Typed keys: a drop-down toggles a multiple choice on space; a text field is
/// edited.
fn handle_raw_input(state: &mut IssueFormState, code: KeyCode)
    ensures
        final(state).error_view() == old(state).error_view(),
        final(state).same_setup(old(state)),
        if old(state).surface() is Dropdown {
            let f = old(state).form_view();
            if code == KeyCode::Char(' ') && f.selected() < f.field_seq().len()
                && f.field_seq()[f.selected() as int].field_type is MultiSelect {
                chose(*old(state), *final(state))
            } else {
                final(state).form_view() == f && final(state).surface() == old(state).surface()
            }
        } else {
            edited(*old(state), typed_edit(code), *final(state))
        },
{
    if state.is_dropdown_open() {
        let on_multi = match state.form().selected_field() {
            Some(field) => match &field.field_type {
                FieldType::MultiSelect { .. } => true,
                _ => false,
            },
            None => false,
        };
        if code == KeyCode::Char(' ') && on_multi {
            state.form_mut().select_option();
        }
        return;
    }
    let edit = typed_edit_of(code);
    apply_to_form(state, edit);
}

/// Enters insert mode, placing the cursor as `insert_mode` says.
fn enter_insert_mode(state: &mut IssueFormState, insert_mode: InsertMode)
    ensures
        edited(*old(state), insert_edit(insert_mode), *final(state)),
        final(state).error_view() == old(state).error_view(),
        final(state).same_setup(old(state)),
{
    let form = state.form_mut();
    match insert_mode {
        InsertMode::Before => form.enter_insert_before(),
        InsertMode::After => form.enter_insert_after(),
        InsertMode::LineStart => form.enter_insert_line_start(),
        InsertMode::LineEnd => form.enter_insert_line_end(),
    }
}

/// Confirm on the form surface (see `confirmed_on_form`).
fn handle_confirm(state: &mut IssueFormState) -> (r: ScreenState)
    ensures
        confirmed_on_form(*old(state), *final(state), r),
        final(state).error_view() == old(state).error_view(),
        final(state).same_setup(old(state)),
{
    let (is_choice, should_open_popup) = match state.form().selected_field() {
        Some(field) => match &field.field_type {
            FieldType::Select { .. } | FieldType::MultiSelect { .. } => (true, false),
            FieldType::Text { .. } | FieldType::TextArea { .. } => (
                false,
                str_eq(field.label.as_str(), "Summary") || str_eq(field.label.as_str(), "Description"),
            ),
        },
        None => {
            return ScreenState::Stay;
        },
    };
    if is_choice {
        state.open_dropdown();
        return ScreenState::Refresh;
    }
    state.form_mut().enter_insert_after();
    if should_open_popup {
        state.open_text_popup();
    }
    ScreenState::SwitchMode(Mode::Insert)
}

/// The cursor motion of an action on the form surface.
fn form_motion_of(action: ActionId, n: usize) -> (r: Option<TextEdit>)
    ensures
        r == form_motion(action, n),
{
    match action {
        ActionId::MoveLeft => Some(TextEdit::Left(n)),
        ActionId::MoveRight => Some(TextEdit::Right(n)),
        ActionId::MoveLineStart => Some(TextEdit::LineStart),
        ActionId::MoveLineEnd => Some(TextEdit::LineEnd),
        ActionId::MoveWordForward => Some(TextEdit::WordForward(n)),
        ActionId::MoveWordBackward => Some(TextEdit::WordBackward(n)),
        ActionId::MoveWordEnd => Some(TextEdit::WordEnd(n)),
        _ => None,
    }
}

/// The cursor motion of an action in the text pop-up.
fn popup_motion_of(action: ActionId, n: usize) -> (r: Option<TextEdit>)
    ensures
        r == popup_motion(action, n),
{
    match action {
        ActionId::MoveUp => Some(TextEdit::Up(n)),
        ActionId::MoveDown => Some(TextEdit::Down(n)),
        ActionId::MoveTop => Some(TextEdit::LineStart),
        ActionId::MoveBottom => Some(TextEdit::LineEnd),
        _ => form_motion_of(action, n),
    }
}

fn handle_form_surface(state: &mut IssueFormState, command: Command) -> (r: ScreenState)
    requires
        old(state).surface() is Form,
    ensures
        form_surface_outcome(*old(state), command, *final(state), r),
        final(state).error_view() == old(state).error_view(),
        final(state).same_setup(old(state)),
{
    let ghost f0 = state.form_view();
    match command.action {
        ActionId::MoveDown => {
            let mut i: usize = 0;
            while i < command.repeat
                invariant
                    i <= command.repeat,
                    state.form_view().field_seq() == f0.field_seq(),
                    state.form_view().selected() == next_selected_by(
                        f0.selected(),
                        f0.field_seq().len(),
                        i as nat,
                    ),
                    state.surface() == old(state).surface(),
                    state.error_view() == old(state).error_view(),
                    state.same_setup(old(state)),
                decreases command.repeat - i,
            {
                state.form_mut().move_next();
                i += 1;
            }
            ScreenState::Refresh
        },
        ActionId::MoveUp => {
            let mut i: usize = 0;
            while i < command.repeat
                invariant
                    i <= command.repeat,
                    state.form_view().field_seq() == f0.field_seq(),
                    state.form_view().selected() == prev_selected_by(
                        f0.selected(),
                        f0.field_seq().len(),
                        i as nat,
                    ),
                    state.surface() == old(state).surface(),
                    state.error_view() == old(state).error_view(),
                    state.same_setup(old(state)),
                decreases command.repeat - i,
            {
                state.form_mut().move_prev();
                i += 1;
            }
            ScreenState::Refresh
        },
        ActionId::MoveTop => {
            state.form_mut().move_top();
            ScreenState::Refresh
        },
        ActionId::MoveBottom => {
            state.form_mut().move_bottom();
            ScreenState::Refresh
        },
        ActionId::MoveLeft | ActionId::MoveRight | ActionId::MoveLineStart | ActionId::MoveLineEnd
        | ActionId::MoveWordForward | ActionId::MoveWordBackward | ActionId::MoveWordEnd => {
            let edit = form_motion_of(command.action, command.repeat);
            apply_to_form(state, edit);
            ScreenState::Refresh
        },
        ActionId::EnterInsert(insert_mode) => {
            enter_insert_mode(state, insert_mode);
            ScreenState::Refresh
        },
        ActionId::RawInput(code) => {
            handle_raw_input(state, code);
            ScreenState::Refresh
        },
        ActionId::Confirm => handle_confirm(state),
        _ => ScreenState::Stay,
    }
}

fn handle_text_popup_surface(state: &mut IssueFormState, command: Command, mode: Mode) -> (r: ScreenState)
    requires
        old(state).surface() is TextPopup,
    ensures
        popup_outcome(*old(state), command, mode, *final(state), r),
        final(state).error_view() == old(state).error_view(),
        final(state).same_setup(old(state)),
{
    match command.action {
        ActionId::MoveUp | ActionId::MoveDown | ActionId::MoveLeft | ActionId::MoveRight
        | ActionId::MoveTop | ActionId::MoveBottom | ActionId::MoveLineStart | ActionId::MoveLineEnd
        | ActionId::MoveWordForward | ActionId::MoveWordBackward | ActionId::MoveWordEnd => {
            let edit = popup_motion_of(command.action, command.repeat);
            apply_to_form(state, edit);
            ScreenState::Refresh
        },
        ActionId::EnterInsert(insert_mode) => {
            enter_insert_mode(state, insert_mode);
            ScreenState::Refresh
        },
        ActionId::RawInput(code) => {
            handle_raw_input(state, code);
            ScreenState::Refresh
        },
        ActionId::Quit => {
            if mode == Mode::Normal {
                state.close_text_popup();
                ScreenState::Refresh
            } else {
                ScreenState::Stay
            }
        },
        ActionId::Confirm => ScreenState::SwitchMode(Mode::Insert),
        _ => ScreenState::Stay,
    }
}

/// Moves the highlight of the selected drop-down `n` times.
fn move_highlight_by(state: &mut IssueFormState, m: HighlightMove, n: usize)
    ensures
        highlight_moved(*old(state), m, n as nat, *final(state)),
        final(state).error_view() == old(state).error_view(),
        final(state).same_setup(old(state)),
{
    let ghost f0 = state.form_view();
    let ghost sel = f0.selected() as int;
    let mut i: usize = 0;
    while i < n
        invariant
            i <= n,
            sel == f0.selected(),
            f0 == old(state).form_view(),
            selected_replaced(f0, state.form_view(), highlighted_by(f0.field_seq()[sel], m, i as nat)),
            state.surface() == old(state).surface(),
            state.error_view() == old(state).error_view(),
            state.same_setup(old(state)),
        decreases n - i,
    {
        match m {
            HighlightMove::Up => state.form_mut().move_selection_up(),
            HighlightMove::Down => state.form_mut().move_selection_down(),
            HighlightMove::Top => state.form_mut().move_selection_top(),
            HighlightMove::Bottom => state.form_mut().move_selection_bottom(),
        }
        proof {
            if sel < f0.field_seq().len() {
                lemma_highlighted_step(f0.field_seq()[sel], m, i as nat, state.form_view().field_seq()[sel]);
            }
        }
        i += 1;
    }
}

/// One more highlight movement after `n` of them is `n + 1` of them.
proof fn lemma_highlighted_step(f: FormField, m: HighlightMove, n: nat, after: FormField)
    requires
        field_after_highlight(highlighted_by(f, m, n), m, after),
    ensures
        after == highlighted_by(f, m, n + 1),
{
    if is_dropdown(f.field_type) {
        let t = f.field_type;
        match t {
            FieldType::Select { options, .. } => assert(options.len() == options@.len()),
            FieldType::MultiSelect { options, .. } => assert(options.len() == options@.len()),
            _ => {},
        }
        lemma_moved_highlight_by_bound(highlighted_of(t), options_of(t).len(), m, n);
        let h = moved_highlight_by(highlighted_of(t), options_of(t).len(), m, n);
        assert(highlighted_of(with_highlighted(t, h)) == h);
        assert(options_of(with_highlighted(t, h)) == options_of(t));
        lemma_moved_highlight_by_bound(highlighted_of(t), options_of(t).len(), m, n + 1);
    }
}

/// Highlight movements stay within the options, or at the starting highlight.
proof fn lemma_moved_highlight_by_bound(h: nat, count: nat, m: HighlightMove, n: nat)
    ensures
        moved_highlight_by(h, count, m, n) <= if h < count { count } else { h },
    decreases n,
{
    if n > 0 {
        lemma_moved_highlight_by_bound(h, count, m, (n - 1) as nat);
    }
}

fn handle_dropdown_surface(state: &mut IssueFormState, command: Command, mode: Mode) -> (r: ScreenState)
    requires
        old(state).surface() is Dropdown,
    ensures
        dropdown_outcome(*old(state), command, mode, *final(state), r),
        final(state).error_view() == old(state).error_view(),
        final(state).same_setup(old(state)),
{
    match command.action {
        ActionId::MoveUp => {
            move_highlight_by(state, HighlightMove::Up, command.repeat);
            ScreenState::Refresh
        },
        ActionId::MoveDown => {
            move_highlight_by(state, HighlightMove::Down, command.repeat);
            ScreenState::Refresh
        },
        ActionId::MoveTop => {
            move_highlight_by(state, HighlightMove::Top, 1);
            ScreenState::Refresh
        },
        ActionId::MoveBottom => {
            move_highlight_by(state, HighlightMove::Bottom, 1);
            ScreenState::Refresh
        },
        ActionId::Confirm => {
            state.form_mut().select_option();
            let ghost mid = *state;
            let single = match state.form().selected_field() {
                Some(field) => match &field.field_type {
                    FieldType::Select { .. } => true,
                    _ => false,
                },
                None => false,
            };
            if single {
                state.close_dropdown();
                assert(chose(*old(state), mid) && closed_dropdown(mid, *state));
            }
            ScreenState::Refresh
        },
        ActionId::RawInput(code) => {
            handle_raw_input(state, code);
            ScreenState::Refresh
        },
        ActionId::Quit => {
            if mode == Mode::Normal {
                state.close_dropdown();
                ScreenState::Refresh
            } else {
                ScreenState::Stay
            }
        },
        _ => ScreenState::Stay,
    }
}

} // verus!
