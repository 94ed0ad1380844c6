//! The Create Issue / Edit Issue screen: its state, how it answers commands, and
//! which overlay it shows.

pub mod controller;
pub mod state;
pub mod view;

use vstd::prelude::*;

use crate::interaction::{ActionHint, Command, CommandLineCommand, FormPurpose, Mode, ScreenState};
use crate::model::AppErrorState;
use crate::screens::issue_form::controller::{command_outcome, IssueFormController};
use crate::screens::issue_form::state::{IssueFormState, IssueFormSurface};

verus! {

/// The issue form screen: the form state, the key hints it shows and the mode.
pub struct IssueFormScreen {
    state: IssueFormState,
    actions: Vec<ActionHint>,
    mode: Mode,
}

impl IssueFormScreen {
    pub closed spec fn state_view(&self) -> IssueFormState {
        self.state
    }

    pub closed spec fn actions_view(&self) -> Seq<ActionHint> {
        self.actions@
    }

    pub closed spec fn mode_view(&self) -> Mode {
        self.mode
    }

    /// A screen creating an issue (with `project_key` and `issue_types`) or
    /// editing one (with its `summary` and `description`), in normal mode.
    pub fn new(
        purpose: FormPurpose,
        project_key: Option<String>,
        issue_types: Vec<String>,
        summary: String,
        description: Option<String>,
    ) -> (r: Self)
        ensures
            r.mode_view() == Mode::Normal,
            r.actions_view().len() == 0,
            match purpose {
                FormPurpose::Create => crate::screens::issue_form::state::is_create_state(
                    r.state_view(),
                    project_key,
                    issue_types@,
                ),
                FormPurpose::Edit(key) => crate::screens::issue_form::state::is_edit_state(
                    r.state_view(),
                    key,
                    summary@,
                    match description {
                        Some(d) => d@,
                        None => Seq::<char>::empty(),
                    },
                ),
            },
    {
        let state = match purpose {
            FormPurpose::Create => IssueFormState::create(project_key, issue_types),
            FormPurpose::Edit(key) => IssueFormState::edit(key, summary, description),
        };
        IssueFormScreen { state, actions: Vec::new(), mode: Mode::Normal }
    }

    /// Shows an error raised while the screen was being built.
    pub fn set_error(&mut self, error: AppErrorState)
        ensures
            final(self).state_view().error_view() == Some(error),
            final(self).state_view().form_view() == old(self).state_view().form_view(),
            final(self).state_view().surface() == old(self).state_view().surface(),
            final(self).state_view().same_setup(&old(self).state_view()),
            final(self).mode_view() == old(self).mode_view(),
            final(self).actions_view() == old(self).actions_view(),
    {
        self.state.set_error(error);
    }

    /// "Create Issue" or "Edit Issue".
    pub fn name(&self) -> (r: &'static str)
        ensures
            r@ == (if self.state_view().purpose_view() is Create {
                "Create Issue"@
            } else {
                "Edit Issue"@
            }),
    {
        self.state.screen_name()
    }

    pub fn set_action_hints(&mut self, actions: Vec<ActionHint>)
        ensures
            final(self).actions_view() == actions@,
            final(self).state_view() == old(self).state_view(),
            final(self).mode_view() == old(self).mode_view(),
    {
        self.actions = actions;
    }

    pub fn set_mode(&mut self, mode: Mode)
        ensures
            final(self).mode_view() == mode,
            final(self).state_view() == old(self).state_view(),
            final(self).actions_view() == old(self).actions_view(),
    {
        self.mode = mode;
    }

    pub fn state(&self) -> (r: &IssueFormState)
        ensures
            *r == self.state_view(),
    {
        &self.state
    }

    pub fn actions(&self) -> (r: &[ActionHint])
        ensures
            r@ == self.actions_view(),
    {
        self.actions.as_slice()
    }

    pub fn mode(&self) -> (r: Mode)
        ensures
            r == self.mode_view(),
    {
        self.mode
    }

    /// Handles `:w`, `:wq` and `:q` (see `IssueFormController::handle_command_line`).
    pub fn handle_command_line(&mut self, cmd: CommandLineCommand) -> (r: ScreenState)
        ensures
            final(self).mode_view() == old(self).mode_view(),
            final(self).actions_view() == old(self).actions_view(),
            final(self).state_view().same_setup(&old(self).state_view()),
            final(self).state_view().form_view() == old(self).state_view().form_view(),
            final(self).state_view().surface() == old(self).state_view().surface(),
            match cmd {
                CommandLineCommand::Quit => r == ScreenState::Close
                    && final(self).state_view().error_view() == old(self).state_view().error_view(),
                _ => exists|sub: Result<Option<crate::model::IssueMutation>, String>|
                    #[trigger] crate::screens::issue_form::state::submission_matches(
                        old(self).state_view(),
                        sub,
                    ) && crate::screens::issue_form::controller::saved(
                        sub,
                        cmd == CommandLineCommand::WriteQuit,
                        final(self).state_view(),
                        r,
                    ),
            },
    {
        IssueFormController::handle_command_line(&mut self.state, cmd)
    }

    /// Handles a key command in the screen's mode.
    pub fn handle_command(&mut self, command: Command) -> (r: ScreenState)
        ensures
            command_outcome(old(self).state_view(), command, old(self).mode_view(), final(self).state_view(), r),
            final(self).mode_view() == old(self).mode_view(),
            final(self).actions_view() == old(self).actions_view(),
    {
        IssueFormController::handle_command(&mut self.state, command, self.mode)
    }
}

impl Default for IssueFormScreen {
    fn default() -> (r: Self)
        ensures
            r.mode_view() == Mode::Normal,
            r.actions_view().len() == 0,
            r.state_view().purpose_view() == FormPurpose::Create,
            r.state_view().project_key_view() is None,
            r.state_view().error_view() is None,
            r.state_view().surface() == IssueFormSurface::Form,
            crate::screens::issue_form::state::fresh_form(
                r.state_view().form_view(),
                Seq::empty(),
                Seq::empty(),
                Some(Seq::empty()),
            ),
    {
        Self::new(FormPurpose::Create, None, Vec::new(), String::new(), None)
    }
}

} // verus!
