use tuiji::interaction::{ActionId, Command, KeyCode, Mode, ScreenState};
use tuiji::model::IssueSummary;
use tuiji::model::IssueComment;
use tuiji::screens::current_sprint::{
    detail_modal_lines, needs_scrollbar, sprint_card, sprint_row, CurrentSprintController, CurrentSprintScreen, CurrentSprintState, TableView,
};
use tuiji::screens::issue_detail::view::SegmentStyle;

fn issue(key: &str) -> IssueSummary {
    IssueSummary {
        key: key.to_string(),
        summary: format!("Summary for {key}"),
        status: "TODO".to_string(),
        issue_type: "Task".to_string(),
        assignee: "Alex".to_string(),
        priority: "Medium".to_string(),
        epic: None,
        description: None,
        project_key: Some("DEMO".to_string()),
        parent_key: None,
        labels: Vec::new(),
        fix_versions: Vec::new(),
        story_points: None,
        story_points_short: None,
        comments: Vec::new(),
        dirty: false,
        conflict: false,
        remote_snapshot: None,
    }
}

#[test]
fn confirm_should_toggle_detail_modal() {
    let mut state = CurrentSprintState::new(vec![issue("DEMO-1")]);

    let opened = CurrentSprintController::handle_command(
        &mut state,
        Command {
            action: ActionId::Confirm,
            repeat: 1,
        },
    );
    assert_eq!(opened, ScreenState::Refresh);
    assert!(state.detail_open());

    let closed = CurrentSprintController::handle_command(
        &mut state,
        Command {
            action: ActionId::Confirm,
            repeat: 1,
        },
    );
    assert_eq!(closed, ScreenState::Refresh);
    assert!(!state.detail_open());
}

#[test]
fn move_bottom_should_adjust_scroll_window() {
    let mut state = CurrentSprintState::new(vec![issue("1"), issue("2"), issue("3"), issue("4")]);
    CurrentSprintController::update_rows_visible(&mut state, 2);

    let result = CurrentSprintController::handle_command(
        &mut state,
        Command {
            action: ActionId::MoveBottom,
            repeat: 1,
        },
    );

    assert_eq!(result, ScreenState::Refresh);
    assert_eq!(state.selected_index(), 3);
    assert_eq!(state.scroll_offset(), 2);
}

#[test]
fn sprint_detail_closes_on_escape_and_ignores_motion() {
    let mut state = CurrentSprintState::new(vec![issue("1"), issue("2")]);
    CurrentSprintController::handle_command(&mut state, Command { action: ActionId::Confirm, repeat: 1 });
    let down = Command { action: ActionId::MoveDown, repeat: 1 };
    assert_eq!(CurrentSprintController::handle_command(&mut state, down), ScreenState::Stay);
    assert_eq!(state.selected_index(), 0);
    let esc = Command { action: ActionId::RawInput(KeyCode::Esc), repeat: 1 };
    assert_eq!(CurrentSprintController::handle_command(&mut state, esc), ScreenState::Refresh);
    assert!(!state.detail_open());
}

#[test]
fn sprint_empty_list_has_no_detail() {
    let mut state = CurrentSprintState::new(Vec::new());
    let confirm = Command { action: ActionId::Confirm, repeat: 1 };
    assert_eq!(CurrentSprintController::handle_command(&mut state, confirm), ScreenState::Refresh);
    assert!(!state.detail_open());
    assert_eq!(state.selected_issue(), None);
}

#[test]
fn sprint_update_rows_visible_clamps_selection_and_scroll() {
    let mut state = CurrentSprintState::new(vec![issue("1"), issue("2"), issue("3"), issue("4"), issue("5")]);
    state.set_selected_index(9);
    state.set_scroll_offset(7);
    CurrentSprintController::update_rows_visible(&mut state, 0);
    assert_eq!(state.rows_visible(), 1);
    assert_eq!(state.selected_index(), 4);
    assert_eq!(state.scroll_offset(), 4);
    CurrentSprintController::update_rows_visible(&mut state, 3);
    assert_eq!(state.scroll_offset(), 2);
    assert_eq!(TableView::window(&state), 2..5);
    assert_eq!(TableView::highlighted_row(&state), Some(2));
}

#[test]
fn sprint_motions_repeat_and_stop_at_the_ends() {
    let mut state = CurrentSprintState::new((1..=6).map(|i| issue(&i.to_string())).collect());
    CurrentSprintController::update_rows_visible(&mut state, 2);
    CurrentSprintController::handle_command(&mut state, Command { action: ActionId::MoveDown, repeat: 3 });
    assert_eq!(state.selected_index(), 3);
    assert_eq!(state.scroll_offset(), 2);
    CurrentSprintController::handle_command(&mut state, Command { action: ActionId::MoveDown, repeat: 10 });
    assert_eq!(state.selected_index(), 5);
    assert_eq!(state.scroll_offset(), 4);
    CurrentSprintController::handle_command(&mut state, Command { action: ActionId::MoveUp, repeat: 0 });
    assert_eq!(state.selected_index(), 4);
    assert_eq!(state.scroll_offset(), 4);
    CurrentSprintController::handle_command(&mut state, Command { action: ActionId::MoveTop, repeat: 1 });
    assert_eq!(state.selected_index(), 0);
    assert_eq!(state.scroll_offset(), 0);
}

#[test]
fn sprint_screen_fits_rows_to_frame_height() {
    let mut screen = CurrentSprintScreen::new((1..=20).map(|i| issue(&i.to_string())).collect(), Mode::Normal);
    assert_eq!(screen.name(), "Current Sprint");
    screen.fit_to_height(30);
    assert_eq!(screen.state().rows_visible(), 12);
    screen.fit_to_height(4);
    assert_eq!(screen.state().rows_visible(), 1);
}

fn modal_texts(issue: &IssueSummary) -> Vec<String> {
    detail_modal_lines(issue)
        .iter()
        .map(|l| l.segments.iter().map(|s| s.text.as_str()).collect::<String>())
        .collect()
}

#[test]
fn detail_modal_defaults() {
    let mut i = issue("DEMO-1");
    i.description = Some(" \n ".to_string());
    assert_eq!(
        modal_texts(&i),
        [
            "Summary for DEMO-1",
            "",
            "Status: TODO",
            "Type: Task",
            "Priority: Medium",
            "Assignee: Alex",
            "Epic: none",
            "Story Points: n/a",
            "Labels: none",
            "Fix Versions: none",
            "Comments: 0",
            "",
            "Description",
            "No description",
            "",
            "Enter / Esc close",
        ]
    );
    let lines = detail_modal_lines(&i);
    assert_eq!(lines[2].segments[0].style, SegmentStyle::Accent);
    assert_eq!(lines[15].segments[1].style, SegmentStyle::Muted);
}

#[test]
fn detail_modal_with_values() {
    let mut i = issue("DEMO-2");
    i.epic = Some("EPIC-7".to_string());
    i.story_points_short = Some("2.5".to_string());
    i.labels = vec!["ui".to_string(), "tui".to_string()];
    i.fix_versions = vec!["1.0".to_string()];
    i.description = Some("Fix it".to_string());
    let comment = IssueComment {
        id: "c".to_string(),
        author: "Ann".to_string(),
        body: "ok".to_string(),
        created_at: None,
        conflict: false,
        remote_snapshot: None,
    };
    i.comments = vec![comment; 12];
    let t = modal_texts(&i);
    assert_eq!(t[6], "Epic: EPIC-7");
    assert_eq!(t[7], "Story Points: 2.5");
    assert_eq!(t[8], "Labels: ui, tui");
    assert_eq!(t[9], "Fix Versions: 1.0");
    assert_eq!(t[10], "Comments: 12");
    assert_eq!(t[13], "Fix it");
}

#[test]
fn sprint_card_defaults_and_upper_cases() {
    let card = sprint_card("K-1".to_string(), None, None, None);
    assert_eq!((card.summary.as_str(), card.status.as_str(), card.assignee.as_str()), ("", "TODO", "Unassigned"));
    let card = sprint_card(
        "K-2".to_string(),
        Some("Fix".to_string()),
        Some("In Progress".to_string()),
        Some("Bea".to_string()),
    );
    assert_eq!(card.key, "K-2");
    assert_eq!((card.summary.as_str(), card.status.as_str(), card.assignee.as_str()), ("Fix", "IN PROGRESS", "Bea"));
    assert_eq!(sprint_card("K-3".to_string(), None, Some("straße".to_string()), None).status, "STRASSE");
}

#[test]
fn sprint_rows_show_meta_and_points() {
    let mut i = issue("DEMO-3");
    let row = sprint_row(&i);
    assert_eq!(row.meta, "0 comments");
    assert_eq!(row.story_points, "-");
    i.dirty = true;
    i.conflict = true;
    i.story_points_short = Some("3".to_string());
    let comment = IssueComment {
        id: "c".to_string(),
        author: "Ann".to_string(),
        body: "ok".to_string(),
        created_at: None,
        conflict: false,
        remote_snapshot: None,
    };
    i.comments = vec![comment; 2];
    let row = sprint_row(&i);
    assert_eq!(row.meta, "2 comments  dirty  conflict");
    assert_eq!(row.story_points, "3");
    assert_eq!((row.key.as_str(), row.issue_type.as_str(), row.status.as_str()), ("DEMO-3", "Task", "TODO"));
    let mut state = CurrentSprintState::new(vec![issue("A"), issue("B"), issue("C")]);
    CurrentSprintController::update_rows_visible(&mut state, 2);
    assert!(needs_scrollbar(&state));
    CurrentSprintController::update_rows_visible(&mut state, 3);
    assert!(!needs_scrollbar(&state));
}
