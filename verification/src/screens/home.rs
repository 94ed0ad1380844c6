//! The Home screen: a welcome menu before any profile exists, otherwise the main
//! menu of screens.

use vstd::prelude::*;
use vstd::string::*;

use crate::interaction::{ActionHint, ActionId, Command, ScreenState, ScreenType};
use crate::menu::{Menu, MenuItem};
use crate::model::AppConfigState;
use crate::text::str_eq;
use crate::viewport::{index_down, index_up};

verus! {

/// Which menu the home screen shows.
#[derive(Clone, Copy, Debug, PartialEq, Eq, Structural)]
pub enum HomeVariant {
    /// No profile is configured yet.
    Welcome,
    /// The main menu.
    Default,
}

impl Default for HomeVariant {
    fn default() -> (r: Self)
        ensures
            r == HomeVariant::Default,
    {
        HomeVariant::Default
    }
}

/// The entries of a variant's menu, as (identifier, label, hint).
pub open spec fn menu_entries(variant: HomeVariant) -> Seq<(Seq<char>, Seq<char>, Option<Seq<char>>)> {
    match variant {
        HomeVariant::Welcome => seq![("ok"@, "Ok"@, None), ("quit"@, "Quit"@, None)],
        HomeVariant::Default => seq![
            ("current_sprint"@, "Current Sprint"@, Some("c"@)),
            ("my_issues"@, "My issues"@, Some("i"@)),
            ("new_issue"@, "New Issue"@, Some("n"@)),
            ("boards"@, "Boards"@, Some("b"@)),
            ("sync_status"@, "Sync Status"@, Some("t"@)),
            ("settings"@, "Settings"@, Some(","@)),
            ("quit"@, "Quit"@, Some("q"@)),
        ],
    }
}

/// The view of a menu entry.
pub open spec fn entry_of(item: MenuItem) -> (Seq<char>, Seq<char>, Option<Seq<char>>) {
    (
        item.id@,
        item.label@,
        match item.hint {
            Some(h) => Some(h@),
            None => None,
        },
    )
}

/// The welcome message shown before any profile exists.
pub open spec fn welcome_message() -> Seq<char> {
    "Welcome! It looks like this is your first time here — let’s create a config to get you set up for work."@
}

/// The variant for a configuration: the welcome menu when no configuration was
/// found or it has no profile.
pub open spec fn variant_for(cfg: AppConfigState) -> HomeVariant {
    match cfg {
        AppConfigState::Loaded(c) => if c.profiles@.len() == 0 {
            HomeVariant::Welcome
        } else {
            HomeVariant::Default
        },
        AppConfigState::Missing(_) => HomeVariant::Welcome,
    }
}

/// Where confirming the entry `id` of a variant's menu leads.
pub open spec fn confirm_target(variant: HomeVariant, id: Seq<char>) -> ScreenState {
    match variant {
        HomeVariant::Welcome => if id == "ok"@ {
            ScreenState::SwitchTo(ScreenType::ProfileCreation)
        } else if id == "quit"@ {
            ScreenState::Quit
        } else {
            ScreenState::Stay
        },
        HomeVariant::Default => if id == "current_sprint"@ {
            ScreenState::SwitchTo(ScreenType::CurrentSprint)
        } else if id == "my_issues"@ {
            ScreenState::SwitchTo(ScreenType::MyIssues)
        } else if id == "new_issue"@ {
            ScreenState::SwitchTo(ScreenType::NewIssue)
        } else if id == "boards"@ {
            ScreenState::SwitchTo(ScreenType::BoardSelection)
        } else if id == "sync_status"@ {
            ScreenState::SwitchTo(ScreenType::SyncStatus)
        } else if id == "settings"@ {
            ScreenState::SwitchTo(ScreenType::Settings)
        } else if id == "quit"@ {
            ScreenState::Quit
        } else {
            ScreenState::Stay
        },
    }
}

/// The home screen's menu, variant and welcome text.
pub struct HomeState {
    menu: Menu,
    variant: HomeVariant,
    welcome_text: String,
}

impl HomeState {
    pub closed spec fn menu_view(&self) -> Menu {
        self.menu
    }

    pub closed spec fn variant_view(&self) -> HomeVariant {
        self.variant
    }

    pub closed spec fn welcome_view(&self) -> Seq<char> {
        self.welcome_text@
    }

    /// The menu's selection is an entry.
    pub open spec fn wf(&self) -> bool {
        self.menu_view().wf()
    }

    /// The menu of a variant, its first entry selected.
    pub open spec fn fresh(&self, variant: HomeVariant) -> bool {
        &&& self.wf()
        &&& self.variant_view() == variant
        &&& self.menu_view().item_seq().map_values(|i: MenuItem| entry_of(i)) == menu_entries(variant)
        &&& self.menu_view().selected_at() == 0
        &&& self.welcome_view() == welcome_message()
    }

    /// The home state for a configuration (see `variant_for`).
    pub fn new(cfg: &AppConfigState, conflict_count: usize) -> (r: Self)
        ensures
            r.fresh(variant_for(*cfg)),
    {
        let variant = match cfg {
            AppConfigState::Loaded(c) => if c.profiles.len() == 0 {
                HomeVariant::Welcome
            } else {
                HomeVariant::Default
            },
            AppConfigState::Missing(_) => HomeVariant::Welcome,
        };
        Self::with_variant(variant)
    }

    pub fn menu(&self) -> (r: &Menu)
        ensures
            *r == self.menu_view(),
    {
        &self.menu
    }

    pub fn menu_mut(&mut self) -> (r: &mut Menu)
        ensures
            *r == old(self).menu_view(),
            final(self).menu_view() == *final(r),
            final(self).variant_view() == old(self).variant_view(),
            final(self).welcome_view() == old(self).welcome_view(),
    {
        &mut self.menu
    }

    pub fn variant(&self) -> (r: HomeVariant)
        ensures
            r == self.variant_view(),
    {
        self.variant
    }

    pub fn welcome_text(&self) -> (r: &str)
        ensures
            r@ == self.welcome_view(),
    {
        self.welcome_text.as_str()
    }

    /// The home state showing a variant's menu.
    pub fn with_variant(variant: HomeVariant) -> (r: Self)
        ensures
            r.fresh(variant),
    {
        let menu = Self::menu_for_variant(variant);
        HomeState {
            menu,
            variant,
            welcome_text: String::from_str(
                "Welcome! It looks like this is your first time here — let’s create a config to get you set up for work.",
            ),
        }
    }

    fn menu_for_variant(variant: HomeVariant) -> (r: Menu)
        ensures
            r.wf(),
            r.selected_at() == 0,
            r.item_seq().map_values(|i: MenuItem| entry_of(i)) == menu_entries(variant),
    {
        let items = match variant {
            HomeVariant::Welcome => vec![MenuItem::new("ok", "Ok"), MenuItem::new("quit", "Quit")],
            HomeVariant::Default => vec![
                MenuItem::new("current_sprint", "Current Sprint").with_hint("c"),
                MenuItem::new("my_issues", "My issues").with_hint("i"),
                MenuItem::new("new_issue", "New Issue").with_hint("n"),
                MenuItem::new("boards", "Boards").with_hint("b"),
                MenuItem::new("sync_status", "Sync Status").with_hint("t"),
                MenuItem::new("settings", "Settings").with_hint(","),
                MenuItem::new("quit", "Quit").with_hint("q"),
            ],
        };
        let menu = Menu::new(items);
        assert(menu.item_seq().map_values(|i: MenuItem| entry_of(i)) =~= menu_entries(variant));
        menu
    }
}

/// What a key command does on the home screen: the motions move the menu's
/// selection, and Enter goes where the selected entry says.
pub open spec fn home_outcome(b: HomeState, c: Command, a: HomeState, r: ScreenState) -> bool {
    let m = b.menu_view();
    let len = m.item_seq().len();
    let moved = |sel: nat|
        a.menu_view().item_seq() == m.item_seq() && a.menu_view().selected_at() == sel && r
            == ScreenState::Refresh;
    &&& a.variant_view() == b.variant_view()
    &&& a.welcome_view() == b.welcome_view()
    &&& match c.action {
        ActionId::Refresh => a.menu_view() == m && r == ScreenState::Refresh,
        ActionId::MoveUp => moved(if len == 0 { 0 } else { index_up(m.selected_at(), c.repeat as nat) }),
        ActionId::MoveDown => moved(
            if len == 0 {
                0
            } else {
                index_down(m.selected_at(), c.repeat as nat, len)
            },
        ),
        ActionId::MoveTop => moved(0),
        ActionId::MoveBottom => moved(if len == 0 { 0 } else { (len - 1) as nat }),
        ActionId::Confirm => a.menu_view() == m && r == if m.selected_at() < len {
            confirm_target(b.variant_view(), m.item_seq()[m.selected_at() as int].id@)
        } else {
            ScreenState::Stay
        },
        _ => a.menu_view() == m && r == ScreenState::Stay,
    }
}

/// Handles commands for the home screen.
pub struct HomeController;

impl HomeController {
    /// Handles a key command (see `home_outcome`).
    pub fn handle_command(state: &mut HomeState, command: Command) -> (r: ScreenState)
        requires
            old(state).wf(),
        ensures
            final(state).wf(),
            home_outcome(*old(state), command, *final(state), r),
    {
        match command.action {
            ActionId::Refresh => ScreenState::Refresh,
            ActionId::MoveUp => {
                state.menu_mut().move_up(command.repeat);
                ScreenState::Refresh
            },
            ActionId::MoveDown => {
                state.menu_mut().move_down(command.repeat);
                ScreenState::Refresh
            },
            ActionId::MoveTop => {
                state.menu_mut().move_top();
                ScreenState::Refresh
            },
            ActionId::MoveBottom => {
                state.menu_mut().move_bottom();
                ScreenState::Refresh
            },
            ActionId::Confirm => Self::handle_confirm(state),
            _ => ScreenState::Stay,
        }
    }

    /// Where Enter on the selected entry leads (see `confirm_target`).
    fn handle_confirm(state: &HomeState) -> (r: ScreenState)
        ensures
            r == if state.menu_view().selected_at() < state.menu_view().item_seq().len() {
                confirm_target(
                    state.variant_view(),
                    state.menu_view().item_seq()[state.menu_view().selected_at() as int].id@,
                )
            } else {
                ScreenState::Stay
            },
    {
        let item = match state.menu().selected() {
            Some(item) => item,
            None => {
                return ScreenState::Stay;
            },
        };
        let id = item.id;
        match state.variant() {
            HomeVariant::Welcome => if str_eq(id, "ok") {
                ScreenState::SwitchTo(ScreenType::ProfileCreation)
            } else if str_eq(id, "quit") {
                ScreenState::Quit
            } else {
                ScreenState::Stay
            },
            HomeVariant::Default => if str_eq(id, "current_sprint") {
                ScreenState::SwitchTo(ScreenType::CurrentSprint)
            } else if str_eq(id, "my_issues") {
                ScreenState::SwitchTo(ScreenType::MyIssues)
            } else if str_eq(id, "new_issue") {
                ScreenState::SwitchTo(ScreenType::NewIssue)
            } else if str_eq(id, "boards") {
                ScreenState::SwitchTo(ScreenType::BoardSelection)
            } else if str_eq(id, "sync_status") {
                ScreenState::SwitchTo(ScreenType::SyncStatus)
            } else if str_eq(id, "settings") {
                ScreenState::SwitchTo(ScreenType::Settings)
            } else if str_eq(id, "quit") {
                ScreenState::Quit
            } else {
                ScreenState::Stay
            },
        }
    }
}

/// The home screen: the state behind the logo and menu.
pub struct HomeScreen {
    state: HomeState,
}

impl HomeScreen {
    pub closed spec fn state_view(&self) -> HomeState {
        self.state
    }

    pub open spec fn wf(&self) -> bool {
        self.state_view().wf()
    }

    /// The home screen for a configuration (see `HomeState::new`).
    pub fn new(cfg: &AppConfigState, conflict_count: usize) -> (r: Self)
        ensures
            r.wf(),
            r.state_view().fresh(variant_for(*cfg)),
    {
        HomeScreen { state: HomeState::new(cfg, conflict_count) }
    }

    pub fn state(&self) -> (r: &HomeState)
        ensures
            *r == self.state_view(),
    {
        &self.state
    }

    pub fn name(&self) -> (r: &'static str)
        ensures
            r@ == "Home Screen"@,
    {
        "Home Screen"
    }

    /// The home screen shows no key hints.
    pub fn set_action_hints(&mut self, actions: Vec<ActionHint>)
        ensures
            *final(self) == *old(self),
    {
    }

    /// Handles a key command (see `home_outcome`).
    pub fn handle_command(&mut self, command: Command) -> (r: ScreenState)
        requires
            old(self).wf(),
        ensures
            final(self).wf(),
            home_outcome(old(self).state_view(), command, final(self).state_view(), r),
    {
        HomeController::handle_command(&mut self.state, command)
    }
}

/// How tall a band of the home screen is: a fixed number of rows, or a share of
/// what the fixed bands leave.
#[derive(Clone, Copy, Debug, PartialEq, Eq, Structural)]
pub enum RowSpec {
    Length(u16),
    Fill(u16),
}

/// The bands of the home screen, top to bottom: a margin, the logo, the welcome
/// text (welcome menu only), the menu, and the rest.
pub open spec fn home_bands(variant: HomeVariant, menu_height: u16) -> Seq<RowSpec> {
    match variant {
        HomeVariant::Welcome => seq![
            RowSpec::Length(10),
            RowSpec::Fill(1),
            RowSpec::Length(2),
            RowSpec::Length(menu_height),
            RowSpec::Fill(1),
        ],
        HomeVariant::Default => seq![
            RowSpec::Length(10),
            RowSpec::Fill(1),
            RowSpec::Length(menu_height),
            RowSpec::Fill(1),
        ],
    }
}

/// Lays out the home screen; drawing belongs to the terminal front end.
pub struct HomeView;

impl HomeView {
    /// The bands of the home screen for `state` (see `home_bands`).
    pub fn bands(state: &HomeState) -> (r: Vec<RowSpec>)
        ensures
            r@ == home_bands(
                state.variant_view(),
                if state.menu_view().item_seq().len() <= u16::MAX {
                    state.menu_view().item_seq().len() as u16
                } else {
                    u16::MAX
                },
            ),
    {
        let h = state.menu().height();
        let r = match state.variant() {
            HomeVariant::Welcome => vec![
                RowSpec::Length(10),
                RowSpec::Fill(1),
                RowSpec::Length(2),
                RowSpec::Length(h),
                RowSpec::Fill(1),
            ],
            HomeVariant::Default => vec![RowSpec::Length(10), RowSpec::Fill(1), RowSpec::Length(h), RowSpec::Fill(1)],
        };
        assert(r@ =~= home_bands(state.variant_view(), h));
        r
    }
}

} // verus!
