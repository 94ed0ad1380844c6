use tuiji::interaction::{ActionId, Command, ScreenState};
use tuiji::model::IssueSummary;
use tuiji::screens::issues_table::{IssueWorkspaceState, IssuesTableController, IssuesTableState};

fn issue(key: &str) -> IssueSummary {
    IssueSummary {
        key: key.to_string(),
        summary: format!("Summary for {key}"),
        status: "TODO".to_string(),
        issue_type: "Task".to_string(),
        assignee: "Alex".to_string(),
        priority: "Medium".to_string(),
        epic: None,
        description: None,
        project_key: Some("TEST".to_string()),
        parent_key: None,
        labels: Vec::new(),
        fix_versions: Vec::new(),
        story_points: None,
        story_points_short: None,
        comments: Vec::new(),
        dirty: false,
        conflict: false,
        remote_snapshot: None,
    }
}

#[test]
fn workspace_should_keep_selection_visible_when_moving_to_bottom() {
    let mut workspace = IssueWorkspaceState::new(vec![
        issue("TEST-1"),
        issue("TEST-2"),
        issue("TEST-3"),
        issue("TEST-4"),
    ]);
    workspace.set_rows_visible(2);

    workspace.move_bottom();

    assert_eq!(workspace.selected_index(), 3);
    assert_eq!(workspace.scroll_offset(), 2);
    assert_eq!(workspace.visible_range(), 2..4);
}

#[test]
fn workspace_should_clamp_scroll_when_rows_visible_grow() {
    let mut workspace = IssueWorkspaceState::new(vec![
        issue("TEST-1"),
        issue("TEST-2"),
        issue("TEST-3"),
        issue("TEST-4"),
        issue("TEST-5"),
    ]);
    workspace.set_rows_visible(2);
    workspace.move_bottom();

    workspace.set_rows_visible(4);

    assert_eq!(workspace.selected_index(), 4);
    assert_eq!(workspace.scroll_offset(), 1);
    assert_eq!(workspace.visible_range(), 1..5);
}

#[test]
fn issues_table_confirm_should_open_selected_issue() {
    let mut state = IssuesTableState::my_issues(vec![issue("TEST-1")]);

    let result = IssuesTableController::handle_command(
        &mut state,
        Command {
            action: ActionId::Confirm,
            repeat: 1,
        },
    );

    assert_eq!(result, ScreenState::ViewIssue("TEST-1".to_string()));
    assert_eq!(
        state.selected_issue().map(|issue| issue.key.as_str()),
        Some("TEST-1")
    );
}

#[test]
fn issues_table_selection_should_follow_workspace_navigation() {
    let mut state = IssuesTableState::search_issues(vec![
        issue("TEST-1"),
        issue("TEST-2"),
        issue("TEST-3"),
    ]);
    state.set_rows_visible(2);

    let result = IssuesTableController::handle_command(
        &mut state,
        Command {
            action: ActionId::MoveBottom,
            repeat: 1,
        },
    );

    assert_eq!(result, ScreenState::Refresh);
    assert_eq!(state.selected_index(), 2);
    assert_eq!(state.scroll_offset(), 1);
    assert_eq!(state.visible_selected_index(), 1);
}

#[test]
fn issues_table_moves_keep_the_window_on_the_selection() {
    let mut state = IssuesTableState::my_issues((1..=10).map(|i| issue(&format!("TEST-{i}"))).collect());
    state.set_rows_visible(3);
    let down = Command { action: ActionId::MoveDown, repeat: 4 };
    assert_eq!(IssuesTableController::handle_command(&mut state, down), ScreenState::Refresh);
    assert_eq!(state.selected_index(), 4);
    assert_eq!(state.scroll_offset(), 2);
    let up = Command { action: ActionId::MoveUp, repeat: 0 };
    IssuesTableController::handle_command(&mut state, up);
    assert_eq!(state.selected_index(), 3);
    assert_eq!(state.scroll_offset(), 2);
    let top = Command { action: ActionId::MoveTop, repeat: 1 };
    IssuesTableController::handle_command(&mut state, top);
    assert_eq!(state.selected_index(), 0);
    assert_eq!(state.scroll_offset(), 0);
    let rows: Vec<&str> = state.visible_rows().iter().map(|r| r.key.as_str()).collect();
    assert_eq!(rows, ["TEST-1", "TEST-2", "TEST-3"]);
}

#[test]
fn issues_table_empty_list_ignores_motion_and_confirm() {
    let mut state = IssuesTableState::search_issues(Vec::new());
    assert!(state.is_empty());
    assert_eq!(state.title(), "Search Issues");
    assert_eq!(state.empty_title(), "No issues");
    let confirm = Command { action: ActionId::Confirm, repeat: 1 };
    assert_eq!(IssuesTableController::handle_command(&mut state, confirm), ScreenState::Stay);
    let down = Command { action: ActionId::MoveDown, repeat: 3 };
    assert_eq!(IssuesTableController::handle_command(&mut state, down), ScreenState::Refresh);
    assert_eq!(state.selected_index(), 0);
    let other = Command { action: ActionId::AddComment, repeat: 1 };
    assert_eq!(IssuesTableController::handle_command(&mut state, other), ScreenState::Stay);
}
