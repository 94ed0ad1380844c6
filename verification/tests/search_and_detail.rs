use tuiji::input::InputEdit;
use tuiji::interaction::{ActionId, Command, FormPurpose, KeyCode, Mode, ScreenState};
use tuiji::model::{IssueComment, IssueMutation, IssueSummary, TransitionChoice};
use tuiji::screens::issue_detail::view::{author_color, look_of, IssueDetailView, SegmentStyle, TextColor, TextLook};
use tuiji::screens::issue_detail::{IssueDetailController, IssueDetailScreen, IssueDetailState};
use tuiji::screens::my_issues::{MyIssuesController, MyIssuesScreen, MyIssuesState, MyIssuesView};
use tuiji::screens::search_issues::{SearchIssuesController, SearchIssuesState, SearchIssuesView};

fn issue(key: &str) -> IssueSummary {
    IssueSummary {
        key: key.to_string(),
        summary: format!("Summary for {key}"),
        status: "TODO".to_string(),
        issue_type: "Task".to_string(),
        assignee: "Alex".to_string(),
        priority: "Medium".to_string(),
        epic: None,
        description: None,
        project_key: Some("DEMO".to_string()),
        parent_key: None,
        labels: Vec::new(),
        fix_versions: Vec::new(),
        story_points: None,
        story_points_short: None,
        comments: Vec::new(),
        dirty: false,
        conflict: false,
        remote_snapshot: None,
    }
}

fn cmd(action: ActionId, repeat: usize) -> Command {
    Command { action, repeat }
}

fn key(code: KeyCode) -> Command {
    cmd(ActionId::RawInput(code), 1)
}

#[test]
fn my_issues_confirm_opens_the_selected_issue() {
    let mut state = MyIssuesState::new(vec![issue("A-1"), issue("A-2")], None);
    MyIssuesController::handle_command(&mut state, cmd(ActionId::MoveDown, 1));
    assert_eq!(
        MyIssuesController::handle_command(&mut state, cmd(ActionId::Confirm, 1)),
        ScreenState::ViewIssue("A-2".to_string())
    );
    assert_eq!(MyIssuesView::empty_state(&state), ("No assigned issues".to_string(), "No unresolved issues are assigned to you.".to_string()));
    let failed = MyIssuesState::new(Vec::new(), Some("offline".to_string()));
    assert_eq!(failed.error(), Some("offline"));
    assert_eq!(MyIssuesView::empty_state(&failed), ("Unable to load My Issues".to_string(), "offline".to_string()));
    let mut screen = MyIssuesScreen::new(vec![issue("A-1")], Mode::Normal);
    assert_eq!(screen.name(), "My Issues");
    MyIssuesView::fit_to_height(screen.state_mut(), 10);
    assert_eq!(screen.state().table().rows_visible(), 6);
}

#[test]
fn search_typing_edits_and_enter_runs_the_query() {
    let mut state = SearchIssuesState::new("project = X".to_string(), vec![issue("X-1")], None);
    assert_eq!(state.active_query(), "project = X");
    let ins = Mode::Insert;
    assert_eq!(SearchIssuesController::handle_command(&mut state, key(KeyCode::Home), ins), ScreenState::Refresh);
    SearchIssuesController::handle_command(&mut state, key(KeyCode::Char(' ')), ins);
    SearchIssuesController::handle_command(&mut state, key(KeyCode::End), ins);
    SearchIssuesController::handle_command(&mut state, key(KeyCode::Backspace), ins);
    SearchIssuesController::handle_command(&mut state, key(KeyCode::Char('Y')), ins);
    assert_eq!(state.input().value(), " project = Y");
    assert_eq!(
        SearchIssuesController::handle_command(&mut state, key(KeyCode::Enter), ins),
        ScreenState::RunSearch("project = Y".to_string())
    );
    assert_eq!(SearchIssuesController::handle_command(&mut state, key(KeyCode::Tab), ins), ScreenState::Stay);
}

#[test]
fn search_blank_query_reports_an_error() {
    let mut state = SearchIssuesState::new("  ".to_string(), Vec::new(), Some("load failed".to_string()));
    assert_eq!(state.error(), Some("load failed"));
    assert_eq!(SearchIssuesController::handle_command(&mut state, key(KeyCode::Enter), Mode::Insert), ScreenState::Refresh);
    assert_eq!(state.error(), Some("Enter a JQL query."));
    state.edit(InputEdit::InsertChar('a'));
    assert_eq!(state.error(), Some("load failed"));
    assert_eq!(state.submit_query(), Some("a".to_string()));
}

#[test]
fn search_normal_mode_focuses_and_navigates() {
    let mut state = SearchIssuesState::new(String::new(), vec![issue("X-1"), issue("X-2")], None);
    let normal = Mode::Normal;
    assert_eq!(
        SearchIssuesController::handle_command(&mut state, cmd(ActionId::FocusQuery, 1), normal),
        ScreenState::SwitchMode(Mode::Insert)
    );
    SearchIssuesController::handle_command(&mut state, cmd(ActionId::MoveDown, 1), normal);
    assert_eq!(
        SearchIssuesController::handle_command(&mut state, cmd(ActionId::Confirm, 1), normal),
        ScreenState::ViewIssue("X-2".to_string())
    );
}

fn detailed() -> IssueSummary {
    let mut i = issue("D-1");
    i.epic = Some("E-1".to_string());
    i.description = Some("Intro\r\n# Title\n```\ncode\n```\n- item\n".to_string());
    i.labels = vec!["a".to_string(), "b".to_string()];
    i.comments = vec![IssueComment {
        id: "1".to_string(),
        author: "Ann".to_string(),
        body: "hi\n```\nx\n```".to_string(),
        created_at: None,
        conflict: false,
        remote_snapshot: None,
    }];
    i
}

fn texts(lines: &[tuiji::screens::issue_detail::view::ContentLine]) -> Vec<String> {
    lines.iter().map(|l| l.segments.iter().map(|s| s.text.as_str()).collect::<String>()).collect()
}

#[test]
fn detail_content_lines() {
    let lines = IssueDetailView::build_content_lines(&detailed());
    assert_eq!(
        texts(&lines),
        [
            "Status: TODO  Type: Task  Priority: Medium",
            "",
            "Assignee: Alex",
            "Epic: E-1",
            "",
            "Description:",
            "",
            "Intro",
            "# Title",
            "```",
            "  code",
            "```",
            "- item",
            "",
            "Labels: a, b",
            "",
            "Comments:",
            "",
            "Ann - Unknown",
            "  hi",
            "  ```",
            "    x",
            "  ```",
            "",
        ]
    );
    assert_eq!(lines[8].segments[0].style, SegmentStyle::Heading1);
    assert_eq!(lines[10].segments[0].style, SegmentStyle::Code);
    assert_eq!(lines[12].segments[0].style, SegmentStyle::ListItem);
    assert_eq!(lines[18].segments[0].style, SegmentStyle::Author(5));
}

#[test]
fn detail_browse_link_and_scrolling() {
    let mut state = IssueDetailState::new(issue("D-1"), Some("https://x.net//".to_string()), None);
    assert_eq!(state.browse_url(), Some("https://x.net/browse/D-1"));
    assert_eq!(
        IssueDetailController::handle_command(&mut state, cmd(ActionId::OpenInBrowser, 1)),
        ScreenState::OpenInBrowser("https://x.net/browse/D-1".to_string())
    );
    state.update_bounds(50, 10);
    assert_eq!(state.scroll_percentage(), 0);
    IssueDetailController::handle_command(&mut state, cmd(ActionId::PageDown, 3));
    assert_eq!(state.scroll_offset(), 30);
    IssueDetailController::handle_command(&mut state, cmd(ActionId::MoveDown, 20));
    assert_eq!(state.scroll_offset(), 40);
    assert_eq!(state.scroll_percentage(), 100);
    IssueDetailController::handle_command(&mut state, cmd(ActionId::MoveUp, 5));
    assert_eq!(state.scroll_offset(), 35);
    assert_eq!(state.scroll_percentage(), 87);
    state.update_bounds(20, 10);
    assert_eq!(state.scroll_offset(), 10);
    IssueDetailController::handle_command(&mut state, cmd(ActionId::MoveRight, 2));
    assert_eq!(state.horizontal_offset(), 8);
    IssueDetailController::handle_command(&mut state, cmd(ActionId::MoveLeft, 1));
    assert_eq!(state.horizontal_offset(), 4);
    IssueDetailController::handle_command(&mut state, cmd(ActionId::MoveLineStart, 1));
    assert_eq!(state.horizontal_offset(), 0);
    assert_eq!(
        IssueDetailController::handle_command(&mut state, cmd(ActionId::EditIssue, 1)),
        ScreenState::OpenIssueForm(FormPurpose::Edit("D-1".to_string()))
    );
    assert_eq!(
        IssueDetailController::handle_command(&mut state, cmd(ActionId::AssignToMe, 1)),
        ScreenState::Mutate(IssueMutation::AssignToMe { key: "D-1".to_string() })
    );
    assert_eq!(IssueDetailController::handle_command(&mut state, cmd(ActionId::Quit, 1)), ScreenState::Close);
}

#[test]
fn detail_comment_box() {
    let mut state = IssueDetailState::new(issue("D-1"), None, None);
    assert_eq!(
        IssueDetailController::handle_command(&mut state, cmd(ActionId::AddComment, 1)),
        ScreenState::SwitchMode(Mode::Insert)
    );
    assert_eq!(IssueDetailController::handle_command(&mut state, key(KeyCode::Enter)), ScreenState::Stay);
    for c in " ok ".chars() {
        IssueDetailController::handle_command(&mut state, key(KeyCode::Char(c)));
    }
    IssueDetailController::handle_command(&mut state, key(KeyCode::Left));
    IssueDetailController::handle_command(&mut state, key(KeyCode::Delete));
    assert_eq!(state.comment_input().map(|i| i.value()), Some(" ok"));
    assert_eq!(
        IssueDetailController::handle_command(&mut state, cmd(ActionId::Confirm, 1)),
        ScreenState::Mutate(IssueMutation::Comment { key: "D-1".to_string(), body: "ok".to_string() })
    );
    assert!(state.comment_input().is_none());
    IssueDetailController::handle_command(&mut state, cmd(ActionId::AddComment, 1));
    assert_eq!(
        IssueDetailController::handle_command(&mut state, key(KeyCode::Esc)),
        ScreenState::SwitchMode(Mode::Normal)
    );
    assert!(state.comment_input().is_none());
}

#[test]
fn detail_transition_picker() {
    let choices = vec![
        TransitionChoice { id: "11".to_string(), name: "Start".to_string(), to_status: "In Progress".to_string() },
        TransitionChoice { id: "21".to_string(), name: "Finish".to_string(), to_status: "Done".to_string() },
    ];
    let mut state = IssueDetailState::new(issue("D-1"), None, Some(Ok(choices)));
    assert!(state.transition_picker_open());
    assert_eq!(
        IssueDetailView::transition_lines(&state),
        ["> Start → In Progress".to_string(), "  Finish → Done".to_string()]
    );
    IssueDetailController::handle_command(&mut state, cmd(ActionId::MoveDown, 4));
    assert_eq!(state.transition_selected(), 1);
    assert_eq!(
        IssueDetailController::handle_command(&mut state, cmd(ActionId::Confirm, 1)),
        ScreenState::Mutate(IssueMutation::Transition {
            key: "D-1".to_string(),
            id: "21".to_string(),
            to_status: "Done".to_string()
        })
    );
    assert_eq!(IssueDetailController::handle_command(&mut state, cmd(ActionId::Quit, 1)), ScreenState::Refresh);
    assert!(!state.transition_picker_open());
    IssueDetailController::handle_command(&mut state, cmd(ActionId::TransitionIssue, 1));
    assert!(state.transition_picker_open());

    let mut pending = IssueDetailState::new(issue("D-2"), None, None);
    IssueDetailController::handle_command(&mut pending, cmd(ActionId::TransitionIssue, 1));
    assert!(pending.transitions_requested());
    assert!(!pending.transition_picker_open());

    let failed = IssueDetailState::new(issue("D-3"), None, Some(Err("offline".to_string())));
    assert_eq!(IssueDetailView::transition_lines(&failed), ["offline".to_string()]);
    let none = IssueDetailState::new(issue("D-4"), None, Some(Ok(Vec::new())));
    assert_eq!(IssueDetailView::transition_lines(&none), ["No transitions are available".to_string()]);
}

#[test]
fn detail_unavailable_screen() {
    let mut screen = IssueDetailScreen::unavailable("gone".to_string(), Mode::Normal);
    assert_eq!(screen.state().unavailable_message(), Some("gone"));
    assert_eq!(screen.handle_command(cmd(ActionId::AddComment, 1)), ScreenState::Stay);
    assert_eq!(screen.handle_command(cmd(ActionId::EditIssue, 1)), ScreenState::Stay);
    assert!(!screen.transitions_requested());
    assert_eq!(screen.name(), "Issue Detail");
}

#[test]
fn author_colour_is_the_byte_sum_modulo_ten() {
    assert_eq!(author_color("Ann"), 5);
    assert_eq!(author_color("Zoë"), 7);
    assert_eq!(author_color(""), 0);
    assert_eq!(author_color("Ann"), author_color("Ann"));
}

#[test]
fn search_results_line_and_empty_states() {
    let fresh = SearchIssuesState::new(String::new(), Vec::new(), None);
    assert_eq!(SearchIssuesView::results_line(&fresh), "Results: no query run yet");
    assert_eq!(
        SearchIssuesView::empty_state(&fresh),
        Some(("Search Jira".to_string(), "Press /, enter a JQL query, then press Enter.".to_string()))
    );
    let nothing = SearchIssuesState::new("project = X".to_string(), Vec::new(), None);
    assert_eq!(SearchIssuesView::results_line(&nothing), "Results for: project = X");
    assert_eq!(
        SearchIssuesView::empty_state(&nothing),
        Some(("No matching issues".to_string(), "Jira returned no issues for this query.".to_string()))
    );
    let failed = SearchIssuesState::new("project = X".to_string(), Vec::new(), Some("HTTP 400".to_string()));
    assert_eq!(
        SearchIssuesView::empty_state(&failed),
        Some(("Unable to search Jira".to_string(), "HTTP 400".to_string()))
    );
    let mut blank = SearchIssuesState::new(String::new(), Vec::new(), None);
    SearchIssuesController::handle_command(&mut blank, key(KeyCode::Enter), Mode::Insert);
    assert_eq!(
        SearchIssuesView::empty_state(&blank),
        Some(("Unable to search Jira".to_string(), "Enter a JQL query.".to_string()))
    );
    let found = SearchIssuesState::new("project = X".to_string(), vec![issue("X-1")], Some("stale".to_string()));
    assert_eq!(SearchIssuesView::empty_state(&found), None);
}

#[test]
fn detail_shows_story_points_after_the_assignee() {
    let mut i = issue("P-1");
    i.story_points = Some("2.5".to_string());
    let lines = IssueDetailView::build_content_lines(&i);
    assert_eq!(texts(&lines)[2..4], ["Assignee: Alex".to_string(), "Story Points: 2.5".to_string()]);
    assert_eq!(lines[3].segments[0].style, SegmentStyle::Label);
}

#[test]
fn segment_looks() {
    let plain = TextLook { color: TextColor::Default, bold: false, underlined: false };
    assert_eq!(look_of(SegmentStyle::Plain), plain);
    assert_eq!(look_of(SegmentStyle::Heading), TextLook { color: TextColor::Default, bold: true, underlined: true });
    assert_eq!(look_of(SegmentStyle::Code), TextLook { color: TextColor::Green, ..plain });
    assert_eq!(look_of(SegmentStyle::CodeFence), TextLook { color: TextColor::DarkGray, ..plain });
    assert_eq!(look_of(SegmentStyle::Heading1), TextLook { color: TextColor::Cyan, bold: true, underlined: false });
    assert_eq!(look_of(SegmentStyle::Heading2), TextLook { color: TextColor::Cyan, ..plain });
    assert_eq!(look_of(SegmentStyle::ListItem), TextLook { color: TextColor::White, ..plain });
    assert_eq!(look_of(SegmentStyle::Author(5)), TextLook { color: TextColor::LightYellow, ..plain });
    assert_eq!(look_of(SegmentStyle::Author(13)), TextLook { color: TextColor::Blue, ..plain });
}

#[test]
fn my_issues_empty_texts_and_confirm_keeps_state() {
    let state = MyIssuesState::new(Vec::new(), None);
    assert_eq!(state.table().title(), "My Issues");
    assert_eq!(state.table().empty_title(), "No issues");
    assert_eq!(state.table().empty_message(), "Sync to load issues.");
    let mut state = MyIssuesState::new(vec![issue("M-1"), issue("M-2")], None);
    MyIssuesController::handle_command(&mut state, cmd(ActionId::MoveDown, 1));
    assert_eq!(
        MyIssuesController::handle_command(&mut state, cmd(ActionId::Confirm, 1)),
        ScreenState::ViewIssue("M-2".to_string())
    );
    assert_eq!(state.table().selected_index(), 1);
    assert_eq!(state.table().empty_title(), "No issues");
}
