use tuiji::form::{FormField, FormState, SelectOption};
use tuiji::input::{input_within, InputEdit};
use tuiji::screens::issue_form::state::{IssueFormState, IssueFormSurface};
use tuiji::screens::search_issues::SearchIssuesState;
use tuiji::text::whitespace_char;
use tuiji::viewport::scroll_to_show;

fn options(values: &[&str]) -> Vec<SelectOption> {
    values.iter().map(|v| SelectOption::new(v.to_string(), v.to_string())).collect()
}

#[test]
fn backspace_undoes_a_typed_character() {
    let mut form = FormState::new(vec![FormField::text("summary", false)]);
    for c in "héllo".chars() {
        form.insert_char(c);
    }
    form.move_cursor_line_start();
    form.move_word_end(1);
    let before = form.fields()[0].clone();
    form.insert_char('ß');
    assert_eq!(form.fields()[0].value.as_text(), Some("héllßo"));
    form.backspace();
    assert_eq!(form.fields()[0], before);
}

#[test]
fn deleting_the_previous_character_undoes_typing_it() {
    let mut state = SearchIssuesState::new("ab".to_string(), Vec::new(), None);
    let cursor = state.input().cursor();
    state.edit(InputEdit::InsertChar('z'));
    assert_eq!(state.input().value(), "abz");
    state.edit(InputEdit::DeletePrevChar);
    assert_eq!(state.input().value(), "ab");
    assert_eq!(state.input().cursor(), cursor);
}

#[test]
fn input_edits_keep_the_cursor_in_the_text() {
    let mut state = SearchIssuesState::new(String::new(), Vec::new(), None);
    state.edit(InputEdit::DeletePrevChar);
    state.edit(InputEdit::GoToNextChar);
    assert_eq!(state.input().cursor(), 0);
    state.edit(InputEdit::InsertChar('q'));
    state.edit(InputEdit::GoToNextChar);
    assert_eq!(state.input().cursor(), 1);
}

#[test]
fn choosing_an_option_twice_restores_the_choice() {
    let mut form = FormState::new(vec![FormField::multi_select("labels", options(&["x", "y", "z"]))]);
    form.toggle_dropdown();
    form.move_selection_down();
    form.select_option();
    assert_eq!(form.fields()[0].value.as_multiple(), Some(&["y".to_string()][..]));
    form.move_selection_down();
    form.select_option();
    form.select_option();
    assert_eq!(form.fields()[0].value.as_multiple(), Some(&["y".to_string()][..]));
}

#[test]
fn moving_next_as_many_times_as_fields_comes_back() {
    let mut form = FormState::new(vec![
        FormField::text("a", false),
        FormField::text("b", false),
        FormField::text("c", false),
        FormField::text("d", false),
    ]);
    form.move_next();
    for _ in 0..4 {
        form.move_next();
    }
    assert_eq!(form.selected_index(), 1);
    form.move_next();
    form.move_prev();
    assert_eq!(form.selected_index(), 1);
}

#[test]
fn closing_a_dropdown_undoes_opening_it() {
    let mut state = IssueFormState::with_issue_types(vec!["Bug".to_string(), "Task".to_string()]);
    state.form_mut().move_bottom();
    let fields = state.form().fields().to_vec();
    state.open_dropdown();
    assert!(state.is_dropdown_open());
    state.close_dropdown();
    assert_eq!(state.active_surface(), IssueFormSurface::Form);
    assert_eq!(state.form().fields(), &fields[..]);
    assert_eq!(state.form().selected_index(), 2);
}

#[test]
fn scrolling_shows_the_selection_and_keeps_a_shown_one() {
    assert_eq!(scroll_to_show(20, 15, 0, 5), 11);
    assert_eq!(scroll_to_show(20, 2, 10, 5), 2);
    assert_eq!(scroll_to_show(20, 12, 10, 5), 10);
}

#[test]
fn white_space_agrees_with_std_on_every_char() {
    for u in 0..=0x10FFFFu32 {
        if let Some(c) = char::from_u32(u) {
            assert_eq!(whitespace_char(c), c.is_whitespace(), "U+{u:04X}");
        }
    }
}

#[test]
fn states_handed_out_are_well_formed() {
    assert!(input_within(&tui_input::Input::new("héllo".to_string()).with_cursor(2)));
    assert!(input_within(&tui_input::Input::default()));
    let mut state = tuiji::screens::issue_detail::IssueDetailState::unavailable("gone".to_string());
    assert!(state.is_wf());
    state.update_bounds(40, 10);
    assert!(state.is_wf());
    assert_eq!(state.scroll_percentage(), 0);
}
