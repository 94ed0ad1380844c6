//! The My Issues screen: the issues assigned to the user in a table, opened with
//! Enter.

use vstd::prelude::*;
use vstd::string::*;

use crate::interaction::{ActionHint, ActionId, Command, CommandLineCommand, Mode, ScreenState};
use crate::model::IssueSummary;
use crate::screens::issues_table::{
    table_rows_for_height, workspace_command_result, IssuesTableController, IssuesTableState,
    IssuesTableView,
};
use crate::viewport::step_of;

verus! {

/// The My Issues table and the error met while loading it, if any.
pub struct MyIssuesState {
    table: IssuesTableState,
    error: Option<String>,
}

impl MyIssuesState {
    pub closed spec fn table_view(&self) -> IssuesTableState {
        self.table
    }

    pub closed spec fn error_view(&self) -> Option<Seq<char>> {
        match self.error {
            Some(e) => Some(e@),
            None => None,
        }
    }

    pub open spec fn wf(&self) -> bool {
        self.table_view().wf()
    }

    /// The My Issues table over `issues`, with the load error if there was one.
    pub fn new(issues: Vec<IssueSummary>, error: Option<String>) -> (r: Self)
        ensures
            r.wf(),
            r.table_view().workspace_view().issue_seq() == issues@,
            r.table_view().workspace_view().selected() == 0,
            r.table_view().workspace_view().scroll() == 0,
            r.table_view().title_view() == "My Issues"@,
            r.table_view().empty_title_view() == "No issues"@,
            r.table_view().empty_message_view() == "Sync to load issues."@,
            r.error_view() == match error {
                Some(e) => Some(e@),
                None => None,
            },
    {
        MyIssuesState { table: IssuesTableState::my_issues(issues), error }
    }

    pub fn table(&self) -> (r: &IssuesTableState)
        ensures
            *r == self.table_view(),
    {
        &self.table
    }

    pub fn table_mut(&mut self) -> (r: &mut IssuesTableState)
        ensures
            *r == old(self).table_view(),
            final(self).table_view() == *final(r),
            final(self).error_view() == old(self).error_view(),
    {
        &mut self.table
    }

    pub fn error(&self) -> (r: Option<&str>)
        ensures
            match r {
                Some(e) => self.error_view() == Some(e@),
                None => self.error_view() is None,
            },
    {
        match &self.error {
            Some(e) => Some(e.as_str()),
            None => None,
        }
    }
}

/// Handles commands for the My Issues screen.
pub struct MyIssuesController;

impl MyIssuesController {
    /// Enter opens the selected issue; other commands go to the table.
    pub fn handle_command(state: &mut MyIssuesState, command: Command) -> (r: ScreenState)
        requires
            old(state).wf(),
        ensures
            final(state).wf(),
            final(state).error_view() == old(state).error_view(),
            final(state).table_view().row_seq() == old(state).table_view().row_seq(),
            final(state).table_view().title_view() == old(state).table_view().title_view(),
            final(state).table_view().empty_title_view() == old(state).table_view().empty_title_view(),
            final(state).table_view().empty_message_view() == old(state).table_view().empty_message_view(),
            command.action == ActionId::Confirm ==> *final(state) == *old(state),
            workspace_command_result(
                old(state).table_view().workspace_view(),
                final(state).table_view().workspace_view(),
                command,
                r,
            ),
    {
        if command.action == ActionId::Confirm {
            return match state.table().selected_issue() {
                Some(issue) => ScreenState::ViewIssue(issue.key.clone()),
                None => ScreenState::Stay,
            };
        }
        IssuesTableController::handle_command(state.table_mut(), command)
    }
}

/// The My Issues screen: its state, the key hints it shows and the mode.
pub struct MyIssuesScreen {
    state: MyIssuesState,
    actions: Vec<ActionHint>,
    mode: Mode,
}

impl MyIssuesScreen {
    pub closed spec fn state_view(&self) -> MyIssuesState {
        self.state
    }

    pub closed spec fn actions_view(&self) -> Seq<ActionHint> {
        self.actions@
    }

    pub closed spec fn mode_view(&self) -> Mode {
        self.mode
    }

    pub open spec fn wf(&self) -> bool {
        self.state_view().wf()
    }

    /// A screen over `issues`, which the caller has loaded.
    pub fn new(issues: Vec<IssueSummary>, mode: Mode) -> (r: Self)
        ensures
            r.wf(),
            r.state_view().table_view().workspace_view().issue_seq() == issues@,
            r.state_view().table_view().workspace_view().selected() == 0,
            r.state_view().error_view() is None,
            r.mode_view() == mode,
            r.actions_view().len() == 0,
    {
        MyIssuesScreen { state: MyIssuesState::new(issues, None), actions: Vec::new(), mode }
    }

    pub fn state(&self) -> (r: &MyIssuesState)
        ensures
            *r == self.state_view(),
    {
        &self.state
    }

    pub fn state_mut(&mut self) -> (r: &mut MyIssuesState)
        ensures
            *r == old(self).state_view(),
            final(self).state_view() == *final(r),
            final(self).mode_view() == old(self).mode_view(),
            final(self).actions_view() == old(self).actions_view(),
    {
        &mut self.state
    }

    pub fn actions(&self) -> (r: &[ActionHint])
        ensures
            r@ == self.actions_view(),
    {
        self.actions.as_slice()
    }

    pub fn mode(&self) -> (r: Mode)
        ensures
            r == self.mode_view(),
    {
        self.mode
    }

    pub fn name(&self) -> (r: &'static str)
        ensures
            r@ == "My Issues"@,
    {
        "My Issues"
    }

    pub fn set_action_hints(&mut self, actions: Vec<ActionHint>)
        ensures
            final(self).actions_view() == actions@,
            final(self).state_view() == old(self).state_view(),
            final(self).mode_view() == old(self).mode_view(),
    {
        self.actions = actions;
    }

    pub fn set_mode(&mut self, mode: Mode)
        ensures
            final(self).mode_view() == mode,
            final(self).state_view() == old(self).state_view(),
            final(self).actions_view() == old(self).actions_view(),
    {
        self.mode = mode;
    }

    /// `:w` stays; `:wq` and `:q` close the screen.
    pub fn handle_command_line(&mut self, cmd: CommandLineCommand) -> (r: ScreenState)
        ensures
            r == if cmd == CommandLineCommand::Write {
                ScreenState::Stay
            } else {
                ScreenState::Close
            },
            *final(self) == *old(self),
    {
        match cmd {
            CommandLineCommand::Write => ScreenState::Stay,
            CommandLineCommand::WriteQuit => ScreenState::Close,
            CommandLineCommand::Quit => ScreenState::Close,
        }
    }

    /// Handles a key command (see `MyIssuesController::handle_command`).
    pub fn handle_command(&mut self, command: Command) -> (r: ScreenState)
        requires
            old(self).wf(),
        ensures
            final(self).wf(),
            final(self).mode_view() == old(self).mode_view(),
            final(self).actions_view() == old(self).actions_view(),
            final(self).state_view().error_view() == old(self).state_view().error_view(),
            workspace_command_result(
                old(self).state_view().table_view().workspace_view(),
                final(self).state_view().table_view().workspace_view(),
                command,
                r,
            ),
    {
        MyIssuesController::handle_command(&mut self.state, command)
    }
}

/// Lays out the My Issues screen; drawing belongs to the terminal front end.
pub struct MyIssuesView;

impl MyIssuesView {
    /// Fits the table's window to a frame of `height` rows before it is drawn.
    pub fn fit_to_height(state: &mut MyIssuesState, height: u16)
        requires
            old(state).wf(),
        ensures
            final(state).wf(),
            final(state).error_view() == old(state).error_view(),
            final(state).table_view().row_seq() == old(state).table_view().row_seq(),
            final(state).table_view().workspace_view().issue_seq() == old(state).table_view().workspace_view().issue_seq(),
            final(state).table_view().workspace_view().selected() == old(state).table_view().workspace_view().selected(),
            final(state).table_view().workspace_view().rows() == step_of(table_rows_for_height(height as nat)),
    {
        IssuesTableView::fit_to_height(state.table_mut(), height);
    }

    /// The heading and message shown when there are no issues: the load error
    /// when there was one.
    pub fn empty_state(state: &MyIssuesState) -> (r: (String, String))
        ensures
            match state.error_view() {
                Some(e) => r.0@ == "Unable to load My Issues"@ && r.1@ == e,
                None => r.0@ == "No assigned issues"@ && r.1@ == "No unresolved issues are assigned to you."@,
            },
    {
        match state.error() {
            Some(e) => (String::from_str("Unable to load My Issues"), String::from_str(e)),
            None => (
                String::from_str("No assigned issues"),
                String::from_str("No unresolved issues are assigned to you."),
            ),
        }
    }
}

} // verus!
