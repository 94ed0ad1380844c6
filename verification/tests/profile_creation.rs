use tuiji::form::{CursorState, FieldType, FieldValue};
use tuiji::interaction::{ActionId, Command, CommandLineCommand, InsertMode, KeyCode, ScreenState};
use tuiji::model::{JiraConfig, ProfileConfig};
use tuiji::screens::profile_creation::{
    build_profile, check_url, validate_email, validate_url, ProfileCreationController, ProfileCreationScreen,
    ProfileCreationState,
};

fn cmd(action: ActionId, repeat: usize) -> Command {
    Command { action, repeat }
}

fn set_field(state: &mut ProfileCreationState, index: usize, value: &str) {
    state.form_mut().fields_mut()[index].value = FieldValue::Text(value.to_string());
}

fn filled() -> ProfileCreationState {
    let mut state = ProfileCreationState::new(None);
    set_field(&mut state, 0, "  Work  ");
    set_field(&mut state, 1, "https://example.atlassian.net ");
    set_field(&mut state, 2, "me@example.com");
    set_field(&mut state, 3, " secret ");
    state
}

fn error_of(state: &mut ProfileCreationState) -> String {
    assert_eq!(
        ProfileCreationController::handle_command_line(state, CommandLineCommand::Write),
        ScreenState::Refresh
    );
    let error = state.error().expect("validation error");
    assert_eq!(error.title, "Validation Error");
    error.message.clone()
}

#[test]
fn profile_form_starts_with_four_fields() {
    let state = ProfileCreationState::default();
    let labels: Vec<&str> = state.form().fields().iter().map(|f| f.label.as_str()).collect();
    assert_eq!(labels, ["Profile Name", "Jira URL", "Email", "API Token"]);
    assert_eq!(state.form().fields()[3].field_type, FieldType::Text { masked: true });
    assert_eq!(state.title(), "Profile Creation");
    assert_eq!(state.profile_id(), None);
}

#[test]
fn profile_form_from_profile_puts_cursors_at_the_end() {
    let profile = ProfileConfig {
        id: "p1".to_string(),
        name: "Wörk".to_string(),
        jira: JiraConfig {
            base_url: "https://x.net".to_string(),
            username: "a@b.c".to_string(),
            api_token: "t".to_string(),
        },
        sync_mode: Some("manual".to_string()),
    };
    let screen = ProfileCreationScreen::new(Some(profile));
    let state = screen.state();
    assert_eq!(state.title(), "Edit Profile");
    assert_eq!(screen.name(), "Edit Profile");
    assert_eq!(state.profile_id(), Some("p1"));
    assert_eq!(state.sync_mode(), Some(&"manual".to_string()));
    assert_eq!(state.form().fields()[0].value.as_text(), Some("Wörk"));
    assert_eq!(state.form().fields()[0].cursor, CursorState::Text { position: "Wörk".len() });
    assert_eq!(state.form().fields()[1].cursor, CursorState::Text { position: 13 });
}

#[test]
fn profile_save_trims_and_keeps_the_saved_id() {
    let mut state = filled();
    state.set_profile_id("p1".to_string());
    let result = ProfileCreationController::handle_command_line(&mut state, CommandLineCommand::WriteQuit);
    assert_eq!(
        result,
        ScreenState::SaveProfileAndClose(ProfileConfig {
            id: "p1".to_string(),
            name: "Work".to_string(),
            jira: JiraConfig {
                base_url: "https://example.atlassian.net".to_string(),
                username: "me@example.com".to_string(),
                api_token: "secret".to_string(),
            },
            sync_mode: None,
        })
    );
}

#[test]
fn profile_save_gives_a_new_profile_a_uuid() {
    let mut state = filled();
    let ScreenState::SaveProfile(profile) =
        ProfileCreationController::handle_command_line(&mut state, CommandLineCommand::Write)
    else {
        panic!("expected a saved profile");
    };
    assert_eq!(profile.id.len(), 36);
    for (i, c) in profile.id.chars().enumerate() {
        if [8, 13, 18, 23].contains(&i) {
            assert_eq!(c, '-');
        } else {
            assert!(c.is_ascii_hexdigit() && !c.is_ascii_uppercase());
        }
    }
    assert_eq!(profile.name, "Work");
    let again = build_profile(&state).expect("valid");
    assert_ne!(again.id, profile.id);
}

#[test]
fn profile_validation_errors_in_order() {
    let mut state = filled();
    set_field(&mut state, 0, "   ");
    assert_eq!(error_of(&mut state), "Profile name is required");

    let mut state = filled();
    set_field(&mut state, 1, "");
    assert_eq!(error_of(&mut state), "Jira base URL is required");

    let mut state = filled();
    set_field(&mut state, 1, "not a url");
    assert_eq!(error_of(&mut state), "Jira base URL is invalid");

    let mut state = filled();
    set_field(&mut state, 1, "ftp://example.net");
    assert_eq!(error_of(&mut state), "Jira base URL must start with http:// or https://");

    let mut state = filled();
    set_field(&mut state, 2, " ");
    assert_eq!(error_of(&mut state), "Email is required");

    let mut state = filled();
    set_field(&mut state, 2, "me@example");
    assert_eq!(error_of(&mut state), "Email address is invalid");

    let mut state = filled();
    set_field(&mut state, 3, "");
    assert_eq!(error_of(&mut state), "Jira API token is required");

    assert_eq!(
        ProfileCreationController::handle_command_line(&mut state, CommandLineCommand::Quit),
        ScreenState::Close
    );
}

#[test]
fn profile_url_and_email_checks() {
    assert_eq!(check_url("https://x", Some("https")), Ok(()));
    assert_eq!(check_url("http://x", Some("http")), Ok(()));
    assert_eq!(check_url("", None), Err("Jira base URL is required".to_string()));
    assert_eq!(check_url("x", None), Err("Jira base URL is invalid".to_string()));
    assert_eq!(
        check_url("file:///x", Some("file")),
        Err("Jira base URL must start with http:// or https://".to_string())
    );
    assert_eq!(validate_email("a@b.c"), Ok(()));
    assert_eq!(validate_email("a b@c.d"), Err("Email must not contain spaces".to_string()));
    for bad in ["ab.c", "@b.c", "a@", "a@b@c.d", "a@.bc", "a@bc.", "a@bc"] {
        assert_eq!(validate_email(bad), Err("Email address is invalid".to_string()), "{bad}");
    }
}

#[test]
fn profile_typing_edits_the_selected_field() {
    let mut state = ProfileCreationState::default();
    ProfileCreationController::handle_command(&mut state, cmd(ActionId::EnterInsert(InsertMode::Before), 1));
    for c in "ab".chars() {
        ProfileCreationController::handle_command(&mut state, cmd(ActionId::RawInput(KeyCode::Char(c)), 1));
    }
    ProfileCreationController::handle_command(&mut state, cmd(ActionId::RawInput(KeyCode::Enter), 1));
    ProfileCreationController::handle_command(&mut state, cmd(ActionId::RawInput(KeyCode::Backspace), 1));
    assert_eq!(state.form().fields()[0].value.as_text(), Some("a"));
    assert_eq!(ProfileCreationController::handle_command(&mut state, cmd(ActionId::MoveDown, 5)), ScreenState::Refresh);
    assert_eq!(state.form().selected_index(), 1);
    assert_eq!(ProfileCreationController::handle_command(&mut state, cmd(ActionId::Confirm, 1)), ScreenState::Stay);
}

#[test]
fn validate_url_parses_and_checks_the_scheme() {
    assert_eq!(validate_url("https://example.atlassian.net"), Ok(()));
    assert_eq!(validate_url("http://localhost:8080/jira"), Ok(()));
    assert_eq!(validate_url(""), Err("Jira base URL is required".to_string()));
    assert_eq!(validate_url("not a url"), Err("Jira base URL is invalid".to_string()));
    assert_eq!(
        validate_url("ftp://example.com"),
        Err("Jira base URL must start with http:// or https://".to_string())
    );
}
