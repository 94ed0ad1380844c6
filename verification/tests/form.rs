use tuiji::form::{CursorState, FieldType, FieldValue, FormField, FormState, SelectOption};
use tuiji::interaction::{ActionId, Command, CommandLineCommand, FormPurpose, KeyCode, Mode, ScreenState};
use tuiji::menu::{Menu, MenuItem};
use tuiji::screens::issue_form::controller::IssueFormController;
use tuiji::screens::issue_form::state::{IssueFormState, IssueFormSurface};
use tuiji::screens::issue_form::view::{ActiveOverlay, IssueFormView};
use tuiji::screens::issue_form::IssueFormScreen;
use tuiji::text::{is_blank, str_eq, trim};
use tuiji::viewport::{scroll_to_show, step_down, step_up};

fn options(values: &[&str]) -> Vec<SelectOption> {
    values.iter().map(|v| SelectOption::new(v.to_string(), v.to_string())).collect()
}

fn cmd(action: ActionId, repeat: usize) -> Command {
    Command { action, repeat }
}

#[test]
fn form_selection_wraps_both_ways() {
    let mut form = FormState::new(vec![
        FormField::text("a", false),
        FormField::text("b", false),
        FormField::text("c", false),
    ]);
    form.move_prev();
    assert_eq!(form.selected_index(), 2);
    form.move_next();
    assert_eq!(form.selected_index(), 0);
    for _ in 0..3 {
        form.move_next();
    }
    assert_eq!(form.selected_index(), 0);
    form.move_bottom();
    assert_eq!(form.selected_index(), 2);
    form.move_top();
    assert_eq!(form.selected_index(), 0);
}

#[test]
fn form_text_editing_keeps_byte_cursors() {
    let mut form = FormState::new(vec![FormField::text("name", false)]);
    for c in "héllo wörld".chars() {
        form.insert_char(c);
    }
    assert_eq!(form.fields()[0].value.as_text(), Some("héllo wörld"));
    assert_eq!(form.fields()[0].cursor, CursorState::Text { position: "héllo wörld".len() });
    form.move_word_left(1);
    assert_eq!(form.fields()[0].cursor, CursorState::Text { position: "héllo ".len() });
    form.move_cursor_line_start();
    form.move_word_end(1);
    assert_eq!(form.fields()[0].cursor, CursorState::Text { position: "héll".len() });
    form.move_word_right(1);
    assert_eq!(form.fields()[0].cursor, CursorState::Text { position: "héllo ".len() });
    form.backspace();
    assert_eq!(form.fields()[0].value.as_text(), Some("héllowörld"));
    form.delete();
    assert_eq!(form.fields()[0].value.as_text(), Some("hélloörld"));
    form.insert_char('\n');
    assert!(!form.fields()[0].value.as_text().unwrap().contains('\n'));
}

#[test]
fn form_textarea_moves_between_lines() {
    let mut form = FormState::new(vec![FormField::textarea("body", 4)]);
    for c in "abc\nd".chars() {
        form.insert_char(c);
    }
    assert_eq!(form.fields()[0].cursor, CursorState::TextArea { row: 1, col: 1 });
    form.move_cursor_up(1);
    assert_eq!(form.fields()[0].cursor, CursorState::TextArea { row: 0, col: 1 });
    form.move_cursor_line_end();
    assert_eq!(form.fields()[0].cursor, CursorState::TextArea { row: 0, col: 3 });
    form.move_cursor_down(3);
    assert_eq!(form.fields()[0].cursor, CursorState::TextArea { row: 1, col: 1 });
    form.enter_insert_line_start();
    assert_eq!(form.fields()[0].cursor, CursorState::TextArea { row: 1, col: 0 });
}

#[test]
fn form_multi_select_toggles_choices() {
    let mut form = FormState::new(vec![FormField::multi_select("labels", options(&["x", "y"]))]);
    form.toggle_dropdown();
    assert!(form.fields()[0].field_type.is_expanded());
    form.select_option();
    form.move_selection_down();
    form.select_option();
    assert_eq!(form.fields()[0].value.as_multiple(), Some(&["x".to_string(), "y".to_string()][..]));
    form.move_selection_top();
    form.select_option();
    assert_eq!(form.fields()[0].value.as_multiple(), Some(&["y".to_string()][..]));
    form.move_selection_bottom();
    form.move_selection_up();
    form.select_option();
    assert_eq!(form.fields()[0].value.as_multiple(), Some(&["y".to_string(), "x".to_string()][..]));
}

#[test]
fn form_validation_messages() {
    let required = FormField::text("Summary", false).required();
    assert_eq!(required.validate().unwrap().message, "Summary is required");
    let filled = FormField::text("Summary", false).required().with_value("  x ");
    assert!(filled.validate().is_none());
    let optional = FormField::text("Notes", false);
    assert!(optional.validate().is_none());
    let choice = FormField::select("Type", options(&["a"])).required();
    assert_eq!(choice.validate().unwrap().message, "Type is required");
    assert_eq!(FieldValue::Single(Some("a".to_string())).as_single(), Some("a"));
    assert_eq!(FieldType::Text { masked: false }.is_expanded(), false);
}

#[test]
fn text_helpers() {
    assert_eq!(trim("  a b \t"), "a b");
    assert!(is_blank(" \n "));
    assert!(!is_blank(" x "));
    assert!(str_eq("ab", "ab"));
    assert!(!str_eq("ab", "abc"));
    assert_eq!(step_up(3, 0), 2);
    assert_eq!(step_up(3, 10), 0);
    assert_eq!(step_down(3, 10, 5), 4);
    assert_eq!(step_down(1, 2, 5), 3);
    assert_eq!(scroll_to_show(10, 7, 0, 3), 5);
    assert_eq!(scroll_to_show(10, 2, 5, 3), 2);
    assert_eq!(scroll_to_show(4, 3, 0, 10), 0);
}

#[test]
fn menu_moves_within_its_entries() {
    let mut menu = Menu::new(vec![MenuItem::new("a", "A"), MenuItem::new("b", "B").with_hint("b")]);
    assert_eq!(menu.height(), 2);
    menu.move_down(7);
    assert_eq!(menu.selected().map(|i| i.id), Some("b"));
    menu.move_up(0);
    assert_eq!(menu.selected_index(), 0);
    menu.move_bottom();
    assert_eq!(menu.selected().and_then(|i| i.hint), Some("b"));
    let mut empty = Menu::new(Vec::new());
    empty.move_down(1);
    assert_eq!(empty.selected(), None);
}

#[test]
fn issue_form_overlays() {
    let mut state = IssueFormState::with_issue_types(vec!["Bug".to_string()]);
    assert_eq!(IssueFormView::active_overlay(&state), None);
    state.open_text_popup();
    assert_eq!(state.hide_form_content_for(), Some(0));
    assert_eq!(IssueFormView::active_overlay(&state), Some(ActiveOverlay::TextPopup { field_index: 0, min_height: 5 }));
    state.close_active_overlay();
    state.form_mut().move_bottom();
    state.open_dropdown();
    assert_eq!(state.active_surface(), IssueFormSurface::Dropdown { field_index: 2 });
    assert_eq!(IssueFormView::active_overlay(&state), Some(ActiveOverlay::Dropdown { field_index: 2, option_count: 1 }));
    state.close_active_overlay();
    assert_eq!(state.active_surface(), IssueFormSurface::Form);
    assert!(!state.form().fields()[2].field_type.is_expanded());
    state.form_mut().move_top();
    state.open_dropdown();
    assert_eq!(state.active_surface(), IssueFormSurface::Form);
    state.form_mut().move_next();
    state.open_text_popup();
    assert_eq!(IssueFormView::active_overlay(&state), Some(ActiveOverlay::TextPopup { field_index: 1, min_height: 10 }));
}

#[test]
fn issue_form_edit_of_description_only() {
    let mut state = IssueFormState::edit("K-1".to_string(), "S".to_string(), None);
    assert_eq!(state.screen_name(), "Edit Issue");
    assert_eq!(
        IssueFormController::handle_command_line(&mut state, CommandLineCommand::Write),
        ScreenState::Refresh
    );
    state.form_mut().move_next();
    IssueFormController::handle_command(&mut state, cmd(ActionId::RawInput(KeyCode::Char('d')), 1), Mode::Insert);
    let result = IssueFormController::handle_command_line(&mut state, CommandLineCommand::Write);
    let ScreenState::Mutate(tuiji::model::IssueMutation::Patch { key, patch }) = result else {
        panic!("expected a patch");
    };
    assert_eq!(key, "K-1");
    assert_eq!(patch.summary, None);
    assert_eq!(patch.description, Some("d".to_string()));
}

#[test]
fn issue_form_create_drops_blank_description() {
    let mut state = IssueFormState::create(Some("P".to_string()), vec!["Bug".to_string()]);
    state.form_mut().fields_mut()[0].value = FieldValue::Text("Crash".to_string());
    state.form_mut().fields_mut()[1].value = FieldValue::Text("  ".to_string());
    state.form_mut().fields_mut()[2].value = FieldValue::Single(Some("Bug".to_string()));
    let Ok(Some(tuiji::model::IssueMutation::Create(draft))) = state.submission() else {
        panic!("expected a draft");
    };
    assert_eq!(draft.description, None);
    assert_eq!(draft.summary, "Crash");
    state.form_mut().fields_mut()[1].value = FieldValue::Text("Steps".to_string());
    let Ok(Some(tuiji::model::IssueMutation::Create(draft))) = state.submission() else {
        panic!("expected a draft");
    };
    assert_eq!(draft.description, Some("Steps".to_string()));
    state.form_mut().fields_mut()[0].value = FieldValue::Single(None);
    assert_eq!(state.submission(), Err("Summary field is unavailable".to_string()));
}

#[test]
fn issue_form_screen_keeps_mode_and_hints() {
    let mut screen = IssueFormScreen::default();
    assert_eq!(screen.name(), "Create Issue");
    screen.set_mode(Mode::Insert);
    assert_eq!(screen.mode(), Mode::Insert);
    screen.handle_command(cmd(ActionId::RawInput(KeyCode::Char('z')), 1));
    assert_eq!(screen.state().form().fields()[0].value.as_text(), Some("z"));
    let edit = IssueFormScreen::new(FormPurpose::Edit("K-2".to_string()), None, Vec::new(), "S".to_string(), Some("D".to_string()));
    assert_eq!(edit.name(), "Edit Issue");
    assert_eq!(edit.state().title(), "Edit Issue K-2");
    assert_eq!(screen.handle_command_line(CommandLineCommand::Quit), ScreenState::Close);
}
