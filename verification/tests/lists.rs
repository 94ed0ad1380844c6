use tuiji::interaction::{ActionId, Command, CommandLineCommand, ScreenState};
use tuiji::model::{BoardSummary, JiraConfig, ProfileConfig};
use tuiji::screens::board_selection::{BoardSelectionController, BoardSelectionScreen, BoardSelectionState};
use tuiji::screens::profile_picker::ProfileScreen;
use tuiji::screens::profiles::{ProfilesController, ProfilesScreen, ProfilesState};
use tuiji::model::AppConfig;

fn profile(id: &str, name: &str) -> ProfileConfig {
    ProfileConfig {
        id: id.to_string(),
        name: name.to_string(),
        jira: JiraConfig {
            base_url: "https://example.atlassian.net".to_string(),
            username: "me@example.com".to_string(),
            api_token: "token".to_string(),
        },
        sync_mode: None,
    }
}

fn cmd(action: ActionId, repeat: usize) -> Command {
    Command { action, repeat }
}

#[test]
fn profiles_mark_the_active_profile() {
    let profiles = vec![profile("a", "Work"), profile("b", "Home")];
    let state = ProfilesState::new(&profiles, Some("b"));
    assert_eq!(state.list_items(), ["Work".to_string(), "Home (active)".to_string()]);
    assert_eq!(state.message(), "Enter to activate • e to edit • d to delete • n to add");
    assert!(!state.is_empty());
    assert_eq!(state.selected_profile_id(), Some("a"));
    assert_eq!(state.selected_menu_id(), Some("profile"));
}

#[test]
fn profiles_empty_list_offers_choices() {
    let mut state = ProfilesState::new(&[], None);
    assert!(state.is_empty());
    assert_eq!(
        state.list_items(),
        ["No profiles found".to_string(), "New profile".to_string(), "Quit".to_string()]
    );
    assert_eq!(state.message(), "No profiles available.\nCreate one to continue.");
    assert_eq!(state.selected_profile_id(), None);
    assert_eq!(ProfilesController::handle_command(&mut state, cmd(ActionId::MoveDown, 1)), ScreenState::Refresh);
    assert_eq!(state.selected_menu_id(), Some("new"));
    ProfilesController::handle_command(&mut state, cmd(ActionId::MoveBottom, 1));
    assert_eq!(state.selected_menu_id(), Some("quit"));
    assert_eq!(ProfilesController::handle_command(&mut state, cmd(ActionId::Confirm, 1)), ScreenState::Stay);
}

#[test]
fn profiles_refresh_follows_the_selected_profile() {
    let mut screen = ProfilesScreen::new(&[profile("a", "A"), profile("b", "B"), profile("c", "C")], None);
    screen.move_bottom();
    assert_eq!(screen.selected_profile_id(), Some("c"));
    screen.refresh(&[profile("c", "C"), profile("a", "A")], Some("a"), Some("a"));
    assert_eq!(screen.selected_profile_id(), Some("a"));
    assert_eq!(screen.state().list_items()[1], "A (active)");
    screen.refresh(&[profile("c", "C")], None, Some("zzz"));
    assert_eq!(screen.state().selected_index(), 1);
    assert_eq!(screen.selected_profile_id(), None);
    assert_eq!(screen.name(), "Profiles");
}

#[test]
fn boards_are_labelled_with_their_type() {
    let boards = vec![
        BoardSummary { id: 7, name: "Team".to_string(), board_type: Some("scrum".to_string()) },
        BoardSummary { id: 9, name: "Ops".to_string(), board_type: None },
    ];
    let mut state = BoardSelectionState::new(boards);
    assert_eq!(state.list_items(), ["Team (scrum)".to_string(), "Ops".to_string()]);
    assert_eq!(state.message(), "Select a board to continue");
    assert_eq!(state.selected_board_id(), Some(7));
    assert_eq!(BoardSelectionController::handle_command(&mut state, cmd(ActionId::MoveDown, 5)), ScreenState::Refresh);
    assert_eq!(state.selected_board_id(), Some(9));
    state.set_items(vec!["only".to_string()]);
    assert_eq!(state.selected_index(), 0);
    state.refresh_items(&[]);
    assert!(state.is_empty());
}

#[test]
fn boards_empty_list() {
    let mut screen = BoardSelectionScreen::new(Vec::new());
    assert_eq!(screen.state().message(), "");
    assert_eq!(screen.selected_board_id(), None);
    screen.move_down(1);
    assert_eq!(screen.state().selected_index(), 0);
    assert_eq!(screen.handle_command_line(CommandLineCommand::Write), ScreenState::Stay);
    assert_eq!(screen.handle_command_line(CommandLineCommand::Quit), ScreenState::Close);
    assert_eq!(screen.name(), "Board Selection");
}

#[test]
fn profile_picker_only_refreshes_and_quits() {
    let mut screen = ProfileScreen::new(AppConfig { profiles: Vec::new() });
    assert_eq!(screen.name(), "Profile Picker");
    assert_eq!(screen.handle_command(cmd(ActionId::Refresh, 1)), ScreenState::Refresh);
    assert_eq!(screen.handle_command(cmd(ActionId::Quit, 1)), ScreenState::Quit);
    assert_eq!(screen.handle_command(cmd(ActionId::Confirm, 1)), ScreenState::Stay);
}
