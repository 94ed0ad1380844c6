use tuiji::interaction::{ActionId, Command, CommandLineCommand, ScreenState};
use tuiji::model::{CommentSnapshot, IssueComment, IssueSnapshot, IssueSummary};
use tuiji::screens::conflicts::view::{ConflictsView, DiffRowKind};
use tuiji::screens::conflicts::{ConflictsController, ConflictsScreen, ConflictsState, PendingResolve};

fn issue(key: &str) -> IssueSummary {
    IssueSummary {
        key: key.to_string(),
        summary: format!("Summary for {key}"),
        status: "TODO".to_string(),
        issue_type: "Task".to_string(),
        assignee: "Alex".to_string(),
        priority: "Medium".to_string(),
        epic: None,
        description: None,
        project_key: Some("DEMO".to_string()),
        parent_key: None,
        labels: Vec::new(),
        fix_versions: Vec::new(),
        story_points: None,
        story_points_short: None,
        comments: Vec::new(),
        dirty: false,
        conflict: false,
        remote_snapshot: None,
    }
}

fn conflicting(key: &str) -> IssueSummary {
    let mut i = issue(key);
    i.conflict = true;
    i.remote_snapshot = Some(IssueSnapshot {
        summary: "Remote summary".to_string(),
        status: "TODO".to_string(),
        priority: "High".to_string(),
        assignee: "Alex".to_string(),
        description: Some("Remote text".to_string()),
    });
    i.comments = vec![
        IssueComment {
            id: "c1".to_string(),
            author: "Ann".to_string(),
            body: "local body".to_string(),
            created_at: None,
            conflict: true,
            remote_snapshot: Some(CommentSnapshot { body: "remote body".to_string() }),
        },
        IssueComment {
            id: "c2".to_string(),
            author: "Bob".to_string(),
            body: "same".to_string(),
            created_at: None,
            conflict: false,
            remote_snapshot: None,
        },
    ];
    i
}

fn cmd(action: ActionId) -> Command {
    Command { action, repeat: 1 }
}

#[test]
fn conflicts_diffs_follow_the_selected_issue() {
    let state = ConflictsState::new(vec![conflicting("DEMO-1"), issue("DEMO-2")]);
    let diffs: Vec<(&str, &str, &str)> =
        state.issue_diffs().iter().map(|d| (d.field.as_str(), d.local.as_str(), d.remote.as_str())).collect();
    assert_eq!(
        diffs,
        [
            ("Summary", "Summary for DEMO-1", "Remote summary"),
            ("Priority", "Medium", "High"),
            ("Description", "", "Remote text"),
        ]
    );
    assert_eq!(state.comment_diffs().len(), 1);
    assert_eq!(state.comment_diffs()[0].id, "c1");
    assert_eq!(state.comment_diffs()[0].diffs[0].local, "local body");
    assert_eq!(state.comment_diffs()[0].diffs[0].remote, "remote body");

    let mut state = state;
    state.move_down(1);
    assert_eq!(state.selected_issue_key(), Some("DEMO-2"));
    assert!(state.issue_diffs().is_empty());
    assert!(state.comment_diffs().is_empty());
}

#[test]
fn conflicts_confirming_a_pending_resolution_resolves_the_selected_issue() {
    let mut state = ConflictsState::new(vec![conflicting("DEMO-1")]);
    assert_eq!(ConflictsController::handle_command(&mut state, cmd(ActionId::ResolveConflictLocal)), ScreenState::Refresh);
    assert_eq!(state.pending_resolve(), Some(PendingResolve::Local));
    assert_eq!(ConflictsController::handle_command(&mut state, cmd(ActionId::MoveDown)), ScreenState::Stay);
    assert_eq!(ConflictsController::handle_command(&mut state, cmd(ActionId::ResolveConflictRemote)), ScreenState::Refresh);
    assert_eq!(
        ConflictsController::handle_command(&mut state, cmd(ActionId::Confirm)),
        ScreenState::ResolveConflictRemote("DEMO-1".to_string())
    );
    assert_eq!(state.pending_resolve(), None);

    state.request_resolve(PendingResolve::Local);
    assert_eq!(ConflictsController::handle_command(&mut state, cmd(ActionId::Quit)), ScreenState::Refresh);
    assert_eq!(state.pending_resolve(), None);
    state.request_resolve(PendingResolve::Local);
    assert_eq!(
        ConflictsController::handle_command(&mut state, cmd(ActionId::Confirm)),
        ScreenState::ResolveConflictLocal("DEMO-1".to_string())
    );
}

#[test]
fn conflicts_set_issues_keeps_selection_in_range_and_drops_pending() {
    let mut state = ConflictsState::new(vec![issue("A"), issue("B"), conflicting("C")]);
    state.move_bottom();
    state.request_resolve(PendingResolve::Remote);
    state.set_issues(vec![conflicting("X"), issue("Y")]);
    assert_eq!(state.selected_index(), 1);
    assert_eq!(state.pending_resolve(), None);
    state.move_up(5);
    assert_eq!(state.selected_issue_key(), Some("X"));
    assert_eq!(state.issue_diffs().len(), 3);
    state.set_issues(Vec::new());
    assert!(state.is_empty());
    assert_eq!(state.selected_index(), 0);
    assert_eq!(state.selected_issue_key(), None);
    let mut empty = state;
    empty.request_resolve(PendingResolve::Local);
    assert_eq!(ConflictsController::handle_command(&mut empty, cmd(ActionId::Confirm)), ScreenState::Stay);
}

#[test]
fn conflicts_view_lists_and_tabulates() {
    let state = ConflictsState::new(vec![conflicting("DEMO-1"), issue("DEMO-2")]);
    let items = ConflictsView::list_items(&state);
    assert_eq!(items[0].text, "DEMO-1 Summary for DEMO-1");
    assert!(items[0].issue_conflict);
    assert_eq!(items[0].conflicting_comments, 1);
    assert_eq!(items[1].conflicting_comments, 0);

    let rows = ConflictsView::issue_diff_rows(&state);
    assert_eq!(rows.len(), 3);
    assert_eq!(rows[0].kind, DiffRowKind::Change);
    let comment_rows = ConflictsView::comment_diff_rows(state.comment_diffs());
    assert_eq!(comment_rows.len(), 2);
    assert_eq!(comment_rows[0].kind, DiffRowKind::Label);
    assert_eq!(comment_rows[0].field, "Comment c1");
    assert_eq!(comment_rows[1].field, "Body");

    let calm = ConflictsState::new(vec![issue("DEMO-2")]);
    let rows = ConflictsView::issue_diff_rows(&calm);
    assert_eq!(rows.len(), 1);
    assert_eq!(rows[0].kind, DiffRowKind::NoChanges);
    assert_eq!(rows[0].field, "No changes");
    let rows = ConflictsView::comment_diff_rows(calm.comment_diffs());
    assert_eq!(rows[0].field, "No changes");
}

#[test]
fn conflicts_screen_command_line() {
    let mut screen = ConflictsScreen::new(vec![issue("A")]);
    assert_eq!(screen.name(), "Conflicts Screen");
    assert_eq!(screen.handle_command_line(CommandLineCommand::Write), ScreenState::Stay);
    assert_eq!(screen.handle_command_line(CommandLineCommand::WriteQuit), ScreenState::Close);
    assert_eq!(screen.handle_command_line(CommandLineCommand::Quit), ScreenState::Close);
    assert_eq!(screen.handle_command(cmd(ActionId::ResolveConflictLocal)), ScreenState::Refresh);
    assert_eq!(screen.handle_command(cmd(ActionId::Confirm)), ScreenState::ResolveConflictLocal("A".to_string()));
}
