use tuiji::interaction::{ActionId, Command, ScreenState, ScreenType};
use tuiji::model::{AppConfig, AppConfigState, JiraConfig, ProfileConfig};
use tuiji::screens::home::{HomeController, HomeScreen, HomeState, HomeVariant, HomeView, RowSpec};

fn profile(id: &str) -> ProfileConfig {
    ProfileConfig {
        id: id.to_string(),
        name: format!("Profile {id}"),
        jira: JiraConfig {
            base_url: "https://example.atlassian.net".to_string(),
            username: "me@example.com".to_string(),
            api_token: "token".to_string(),
        },
        sync_mode: None,
    }
}

fn cmd(action: ActionId, repeat: usize) -> Command {
    Command { action, repeat }
}

#[test]
fn home_without_profiles_welcomes() {
    let missing = HomeState::new(&AppConfigState::Missing("/tmp/none.toml".to_string()), 0);
    assert_eq!(missing.variant(), HomeVariant::Welcome);
    let empty = HomeState::new(&AppConfigState::Loaded(AppConfig { profiles: Vec::new() }), 0);
    assert_eq!(empty.variant(), HomeVariant::Welcome);
    let ids: Vec<&str> = empty.menu().items().iter().map(|i| i.id).collect();
    assert_eq!(ids, ["ok", "quit"]);
    assert!(empty.welcome_text().starts_with("Welcome!"));
    let loaded = HomeState::new(&AppConfigState::Loaded(AppConfig { profiles: vec![profile("a")] }), 2);
    assert_eq!(loaded.variant(), HomeVariant::Default);
    assert_eq!(loaded.menu().items().len(), 7);
    assert_eq!(loaded.menu().items()[4].label, "Sync Status");
    assert_eq!(loaded.menu().items()[4].hint, Some("t"));
    assert_eq!(HomeVariant::default(), HomeVariant::Default);
}

#[test]
fn home_confirm_goes_where_the_entry_says() {
    let mut welcome = HomeState::with_variant(HomeVariant::Welcome);
    assert_eq!(
        HomeController::handle_command(&mut welcome, cmd(ActionId::Confirm, 1)),
        ScreenState::SwitchTo(ScreenType::ProfileCreation)
    );
    HomeController::handle_command(&mut welcome, cmd(ActionId::MoveDown, 1));
    assert_eq!(HomeController::handle_command(&mut welcome, cmd(ActionId::Confirm, 1)), ScreenState::Quit);

    let mut main = HomeState::with_variant(HomeVariant::Default);
    let targets = [
        ScreenState::SwitchTo(ScreenType::CurrentSprint),
        ScreenState::SwitchTo(ScreenType::MyIssues),
        ScreenState::SwitchTo(ScreenType::NewIssue),
        ScreenState::SwitchTo(ScreenType::BoardSelection),
        ScreenState::SwitchTo(ScreenType::SyncStatus),
        ScreenState::SwitchTo(ScreenType::Settings),
        ScreenState::Quit,
    ];
    for (i, target) in targets.iter().enumerate() {
        assert_eq!(main.menu().selected_index(), i);
        assert_eq!(&HomeController::handle_command(&mut main, cmd(ActionId::Confirm, 1)), target);
        HomeController::handle_command(&mut main, cmd(ActionId::MoveDown, 1));
    }
    assert_eq!(main.menu().selected_index(), 6);
}

#[test]
fn home_menu_motions() {
    let mut screen = HomeScreen::new(&AppConfigState::Loaded(AppConfig { profiles: vec![profile("a")] }), 0);
    assert_eq!(screen.name(), "Home Screen");
    assert_eq!(screen.handle_command(cmd(ActionId::MoveDown, 3)), ScreenState::Refresh);
    assert_eq!(screen.state().menu().selected_index(), 3);
    screen.handle_command(cmd(ActionId::MoveUp, 0));
    assert_eq!(screen.state().menu().selected_index(), 2);
    screen.handle_command(cmd(ActionId::MoveBottom, 1));
    assert_eq!(screen.state().menu().selected_index(), 6);
    screen.handle_command(cmd(ActionId::MoveTop, 1));
    assert_eq!(screen.state().menu().selected_index(), 0);
    assert_eq!(screen.handle_command(cmd(ActionId::Refresh, 1)), ScreenState::Refresh);
    assert_eq!(screen.handle_command(cmd(ActionId::EditIssue, 1)), ScreenState::Stay);
}

#[test]
fn home_bands_depend_on_the_variant() {
    let welcome = HomeState::with_variant(HomeVariant::Welcome);
    assert_eq!(
        HomeView::bands(&welcome),
        [RowSpec::Length(10), RowSpec::Fill(1), RowSpec::Length(2), RowSpec::Length(2), RowSpec::Fill(1)]
    );
    let main = HomeState::with_variant(HomeVariant::Default);
    assert_eq!(HomeView::bands(&main), [RowSpec::Length(10), RowSpec::Fill(1), RowSpec::Length(7), RowSpec::Fill(1)]);
}
