//! The Search Issues screen: a JQL query line above the table of results.

use vstd::prelude::*;
use vstd::string::*;

use tui_input::Input;

use crate::input::{
    edited_input, input_cursor, input_handle, input_text, input_value, key_edit, key_edit_of,
    lemma_edit_keeps_cursor, new_input, InputEdit,
};
use crate::interaction::{ActionHint, ActionId, Command, CommandLineCommand, KeyCode, Mode, ScreenState};
use crate::model::IssueSummary;
use crate::screens::issues_table::{workspace_command_result, IssuesTableController, IssuesTableState};
use crate::text::{trim, trimmed};

verus! {

/// The results table, the query being typed, the query that produced the
/// results, and the load and input errors.
pub struct SearchIssuesState {
    table: IssuesTableState,
    input: Input,
    active_query: String,
    load_error: Option<String>,
    input_error: Option<String>,
}

/// The text of an optional string.
pub open spec fn opt_view(s: Option<String>) -> Option<Seq<char>> {
    match s {
        Some(t) => Some(t@),
        None => None,
    }
}

impl SearchIssuesState {
    pub closed spec fn table_view(&self) -> IssuesTableState {
        self.table
    }

    pub closed spec fn query_text(&self) -> Seq<char> {
        input_text(self.input)
    }

    pub closed spec fn query_cursor(&self) -> nat {
        input_cursor(self.input)
    }

    pub closed spec fn active_query_view(&self) -> Seq<char> {
        self.active_query@
    }

    pub closed spec fn load_error_view(&self) -> Option<Seq<char>> {
        opt_view(self.load_error)
    }

    pub closed spec fn input_error_view(&self) -> Option<Seq<char>> {
        opt_view(self.input_error)
    }

    /// The table is well formed and the query cursor lies within the query.
    pub open spec fn wf(&self) -> bool {
        &&& self.table_view().wf()
        &&& self.query_cursor() <= self.query_text().len()
    }

    /// The results of `query`, with the query in the input line and its cursor
    /// at the end.
    pub fn new(query: String, issues: Vec<IssueSummary>, load_error: Option<String>) -> (r: Self)
        ensures
            r.wf(),
            r.table_view().workspace_view().issue_seq() == issues@,
            r.table_view().workspace_view().selected() == 0,
            r.table_view().title_view() == "Search Issues"@,
            r.query_text() == query@,
            r.query_cursor() == query@.len(),
            r.active_query_view() == query@,
            r.load_error_view() == opt_view(load_error),
            r.input_error_view() is None,
    {
        let active_query = query.clone();
        SearchIssuesState {
            table: IssuesTableState::search_issues(issues),
            input: new_input(query),
            active_query,
            load_error,
            input_error: None,
        }
    }

    pub fn table(&self) -> (r: &IssuesTableState)
        ensures
            *r == self.table_view(),
    {
        &self.table
    }

    pub fn table_mut(&mut self) -> (r: &mut IssuesTableState)
        ensures
            *r == old(self).table_view(),
            final(self).table_view() == *final(r),
            final(self).query_text() == old(self).query_text(),
            final(self).query_cursor() == old(self).query_cursor(),
            final(self).active_query_view() == old(self).active_query_view(),
            final(self).load_error_view() == old(self).load_error_view(),
            final(self).input_error_view() == old(self).input_error_view(),
    {
        &mut self.table
    }

    pub fn input(&self) -> (r: &Input)
        ensures
            input_text(*r) == self.query_text(),
            input_cursor(*r) == self.query_cursor(),
    {
        &self.input
    }

    pub fn active_query(&self) -> (r: &str)
        ensures
            r@ == self.active_query_view(),
    {
        self.active_query.as_str()
    }

    /// The error to show: the input error, else the load error.
    pub fn error(&self) -> (r: Option<&str>)
        ensures
            match r {
                Some(e) => Some(e@) == if self.input_error_view() is Some {
                    self.input_error_view()
                } else {
                    self.load_error_view()
                },
                None => self.input_error_view() is None && self.load_error_view() is None,
            },
    {
        match &self.input_error {
            Some(e) => Some(e.as_str()),
            None => match &self.load_error {
                Some(e) => Some(e.as_str()),
                None => None,
            },
        }
    }

    /// Applies an edit to the query and clears the input error.
    pub fn edit(&mut self, request: InputEdit)
        requires
            old(self).wf(),
        ensures
            final(self).wf(),
            (final(self).query_text(), final(self).query_cursor()) == edited_input(
                old(self).query_text(),
                old(self).query_cursor(),
                request,
            ),
            final(self).input_error_view() is None,
            final(self).table_view() == old(self).table_view(),
            final(self).active_query_view() == old(self).active_query_view(),
            final(self).load_error_view() == old(self).load_error_view(),
    {
        proof {
            lemma_edit_keeps_cursor(self.query_text(), self.query_cursor(), request);
        }
        input_handle(&mut self.input, request);
        self.input_error = None;
    }

    /// The trimmed query to run, or `None` with "Enter a JQL query." as the
    /// input error when it is blank.
    pub fn submit_query(&mut self) -> (r: Option<String>)
        ensures
            match r {
                Some(q) => q@ == trimmed(old(self).query_text()) && q@.len() > 0 && final(self).input_error_view()
                    is None,
                None => trimmed(old(self).query_text()).len() == 0 && final(self).input_error_view()
                    == Some("Enter a JQL query."@),
            },
            final(self).table_view() == old(self).table_view(),
            final(self).query_text() == old(self).query_text(),
            final(self).query_cursor() == old(self).query_cursor(),
            final(self).active_query_view() == old(self).active_query_view(),
            final(self).load_error_view() == old(self).load_error_view(),
    {
        let query = trim(input_value(&self.input));
        if query.as_str().is_empty() {
            self.input_error = Some(String::from_str("Enter a JQL query."));
            None
        } else {
            self.input_error = None;
            Some(query)
        }
    }
}

/// Everything but the query line and its input error is as in `b`.
pub open spec fn same_results(b: SearchIssuesState, a: SearchIssuesState) -> bool {
    &&& a.table_view() == b.table_view()
    &&& a.active_query_view() == b.active_query_view()
    &&& a.load_error_view() == b.load_error_view()
}

/// What a key does in insert mode: typing edits the query; Enter runs it, or
/// reports a blank one.
pub open spec fn query_input_outcome(b: SearchIssuesState, action: ActionId, a: SearchIssuesState, r: ScreenState) -> bool {
    &&& same_results(b, a)
    &&& match action {
        ActionId::RawInput(KeyCode::Enter) => {
            &&& a.query_text() == b.query_text()
            &&& a.query_cursor() == b.query_cursor()
            &&& if trimmed(b.query_text()).len() == 0 {
                r == ScreenState::Refresh && a.input_error_view() == Some("Enter a JQL query."@)
            } else {
                r matches ScreenState::RunSearch(q) && q@ == trimmed(b.query_text()) && a.input_error_view() is None
            }
        },
        ActionId::RawInput(code) if key_edit(code) is Some => {
            &&& r == ScreenState::Refresh
            &&& (a.query_text(), a.query_cursor()) == edited_input(b.query_text(), b.query_cursor(), key_edit(code)->0)
            &&& a.input_error_view() is None
        },
        _ => {
            &&& r == ScreenState::Stay
            &&& a.query_text() == b.query_text()
            &&& a.query_cursor() == b.query_cursor()
            &&& a.input_error_view() == b.input_error_view()
        },
    }
}

/// What a key command does on the Search Issues screen: in insert mode keys
/// edit the query (see `query_input_outcome`); otherwise `/` focuses the query
/// and the other keys act on the table.
pub open spec fn search_outcome(b: SearchIssuesState, c: Command, mode: Mode, a: SearchIssuesState, r: ScreenState) -> bool {
    if mode == Mode::Insert {
        query_input_outcome(b, c.action, a, r)
    } else {
        &&& a.query_text() == b.query_text()
        &&& a.query_cursor() == b.query_cursor()
        &&& a.input_error_view() == b.input_error_view()
        &&& a.active_query_view() == b.active_query_view()
        &&& a.load_error_view() == b.load_error_view()
        &&& match c.action {
            ActionId::FocusQuery => r == ScreenState::SwitchMode(Mode::Insert)
                && a.table_view() == b.table_view(),
            _ => {
                &&& a.table_view().row_seq() == b.table_view().row_seq()
                &&& workspace_command_result(
                    b.table_view().workspace_view(),
                    a.table_view().workspace_view(),
                    c,
                    r,
                )
            },
        }
    }
}

/// In insert mode the query line edits like a text box: Left and Right move the
/// cursor one character (stopping at the ends), Home and End jump to the ends,
/// a character is typed at the cursor, Backspace deletes the character before
/// the cursor and Delete the one under it. Each of these keys asks for a redraw,
/// clears the input error and leaves the results as they were.
pub proof fn lemma_query_line_keys(b: SearchIssuesState, code: KeyCode, n: usize, a: SearchIssuesState, r: ScreenState)
    requires
        b.wf(),
        search_outcome(b, Command { action: ActionId::RawInput(code), repeat: n }, Mode::Insert, a, r),
        code is Left || code is Right || code is Home || code is End || code is Char || code is Backspace
            || code is Delete,
    ensures
        r == ScreenState::Refresh,
        a.input_error_view() is None,
        same_results(b, a),
        ({
            let t = b.query_text();
            let k = b.query_cursor();
            match code {
                KeyCode::Right => a.query_text() == t && a.query_cursor() == (if k < t.len() { k + 1 } else { k }),
                KeyCode::Left => a.query_text() == t && a.query_cursor() == (if k > 0 { (k - 1) as nat } else { 0 }),
                KeyCode::Home => a.query_text() == t && a.query_cursor() == 0,
                KeyCode::End => a.query_text() == t && a.query_cursor() == t.len(),
                KeyCode::Char(c) => a.query_text().len() == t.len() + 1 && a.query_text()[k as int] == c
                    && a.query_text().take(k as int) == t.take(k as int) && a.query_text().skip((k + 1) as int) == t.skip(
                    k as int,
                ) && a.query_cursor() == k + 1,
                KeyCode::Backspace => if k > 0 {
                    a.query_text().len() + 1 == t.len() && a.query_text().take(k - 1) == t.take(k - 1)
                        && a.query_text().skip(k - 1) == t.skip(k as int) && a.query_cursor() == k - 1
                } else {
                    a.query_text() == t && a.query_cursor() == 0
                },
                KeyCode::Delete => a.query_cursor() == k && if k < t.len() {
                    a.query_text().len() + 1 == t.len() && a.query_text().take(k as int) == t.take(k as int)
                        && a.query_text().skip(k as int) == t.skip((k + 1) as int)
                } else {
                    a.query_text() == t
                },
                _ => true,
            }
        }),
{
    let t = b.query_text();
    let k = b.query_cursor();
    match code {
        KeyCode::Char(c) => {
            let u = t.take(k as int) + seq![c] + t.skip(k as int);
            assert(u.take(k as int) =~= t.take(k as int));
            assert(u.skip((k + 1) as int) =~= t.skip(k as int));
        },
        KeyCode::Backspace => {
            if k > 0 {
                let u = t.remove(k - 1);
                assert(u.take(k - 1) =~= t.take(k - 1));
                assert(u.skip(k - 1) =~= t.skip(k as int));
            }
        },
        KeyCode::Delete => {
            if k < t.len() {
                let u = t.remove(k as int);
                assert(u.take(k as int) =~= t.take(k as int));
                assert(u.skip(k as int) =~= t.skip((k + 1) as int));
            }
        },
        _ => {},
    }
}

/// Handles commands for the Search Issues screen.
pub struct SearchIssuesController;

impl SearchIssuesController {
    /// In insert mode keys edit the query; otherwise `/` focuses the query,
    /// Enter opens the selected issue and the motions go to the table.
    pub fn handle_command(state: &mut SearchIssuesState, command: Command, mode: Mode) -> (r: ScreenState)
        requires
            old(state).wf(),
        ensures
            final(state).wf(),
            search_outcome(*old(state), command, mode, *final(state), r),
    {
        if mode == Mode::Insert {
            return handle_query_input(state, command.action);
        }
        match command.action {
            ActionId::FocusQuery => ScreenState::SwitchMode(Mode::Insert),
            ActionId::Confirm => match state.table().selected_issue() {
                Some(issue) => ScreenState::ViewIssue(issue.key.clone()),
                None => ScreenState::Stay,
            },
            _ => IssuesTableController::handle_command(state.table_mut(), command),
        }
    }
}

fn handle_query_input(state: &mut SearchIssuesState, action: ActionId) -> (r: ScreenState)
    requires
        old(state).wf(),
    ensures
        final(state).wf(),
        query_input_outcome(*old(state), action, *final(state), r),
{
    let request = match action {
        ActionId::RawInput(KeyCode::Enter) => {
            return match state.submit_query() {
                Some(query) => ScreenState::RunSearch(query),
                None => ScreenState::Refresh,
            };
        },
        ActionId::RawInput(code) => key_edit_of(code),
        _ => None,
    };
    match request {
        Some(request) => {
            state.edit(request);
            ScreenState::Refresh
        },
        None => ScreenState::Stay,
    }
}

/// The Search Issues screen: its state, the key hints it shows and the mode.
pub struct SearchIssuesScreen {
    state: SearchIssuesState,
    actions: Vec<ActionHint>,
    mode: Mode,
}

impl SearchIssuesScreen {
    pub closed spec fn state_view(&self) -> SearchIssuesState {
        self.state
    }

    pub closed spec fn actions_view(&self) -> Seq<ActionHint> {
        self.actions@
    }

    pub closed spec fn mode_view(&self) -> Mode {
        self.mode
    }

    pub open spec fn wf(&self) -> bool {
        self.state_view().wf()
    }

    /// The results of `query` (or the error that prevented loading them).
    pub fn new(mode: Mode, query: String, issues: Vec<IssueSummary>, error: Option<String>) -> (r: Self)
        ensures
            r.wf(),
            r.state_view().table_view().workspace_view().issue_seq() == issues@,
            r.state_view().query_text() == query@,
            r.state_view().active_query_view() == query@,
            r.state_view().load_error_view() == opt_view(error),
            r.state_view().input_error_view() is None,
            r.mode_view() == mode,
            r.actions_view().len() == 0,
    {
        SearchIssuesScreen { state: SearchIssuesState::new(query, issues, error), actions: Vec::new(), mode }
    }

    pub fn state(&self) -> (r: &SearchIssuesState)
        ensures
            *r == self.state_view(),
    {
        &self.state
    }

    pub fn state_mut(&mut self) -> (r: &mut SearchIssuesState)
        ensures
            *r == old(self).state_view(),
            final(self).state_view() == *final(r),
            final(self).mode_view() == old(self).mode_view(),
            final(self).actions_view() == old(self).actions_view(),
    {
        &mut self.state
    }

    pub fn actions(&self) -> (r: &[ActionHint])
        ensures
            r@ == self.actions_view(),
    {
        self.actions.as_slice()
    }

    pub fn mode(&self) -> (r: Mode)
        ensures
            r == self.mode_view(),
    {
        self.mode
    }

    pub fn name(&self) -> (r: &'static str)
        ensures
            r@ == "Search Issues"@,
    {
        "Search Issues"
    }

    pub fn set_action_hints(&mut self, actions: Vec<ActionHint>)
        ensures
            final(self).actions_view() == actions@,
            final(self).state_view() == old(self).state_view(),
            final(self).mode_view() == old(self).mode_view(),
    {
        self.actions = actions;
    }

    pub fn set_mode(&mut self, mode: Mode)
        ensures
            final(self).mode_view() == mode,
            final(self).state_view() == old(self).state_view(),
            final(self).actions_view() == old(self).actions_view(),
    {
        self.mode = mode;
    }

    /// `:w` stays; `:wq` and `:q` close the screen.
    pub fn handle_command_line(&mut self, cmd: CommandLineCommand) -> (r: ScreenState)
        ensures
            r == if cmd == CommandLineCommand::Write {
                ScreenState::Stay
            } else {
                ScreenState::Close
            },
            *final(self) == *old(self),
    {
        match cmd {
            CommandLineCommand::Write => ScreenState::Stay,
            CommandLineCommand::WriteQuit => ScreenState::Close,
            CommandLineCommand::Quit => ScreenState::Close,
        }
    }

    /// Handles a key command in the screen's mode (see
    /// `SearchIssuesController::handle_command`).
    pub fn handle_command(&mut self, command: Command) -> (r: ScreenState)
        requires
            old(self).wf(),
        ensures
            final(self).wf(),
            final(self).mode_view() == old(self).mode_view(),
            final(self).actions_view() == old(self).actions_view(),
            search_outcome(old(self).state_view(), command, old(self).mode_view(), final(self).state_view(), r),
    {
        SearchIssuesController::handle_command(&mut self.state, command, self.mode)
    }
}

/// The error the screen shows: the input error, else the load error.
pub open spec fn shown_error(state: SearchIssuesState) -> Option<Seq<char>> {
    if state.input_error_view() is Some {
        state.input_error_view()
    } else {
        state.load_error_view()
    }
}

/// The line above the results: "Results: no query run yet" before any query
/// ran, else "Results for: <query>".
pub open spec fn results_text(state: SearchIssuesState) -> Seq<char> {
    if state.active_query_view().len() == 0 {
        "Results: no query run yet"@
    } else {
        "Results for: "@ + state.active_query_view()
    }
}

/// The title and message shown in place of an empty result table: the error,
/// when there is one; an invitation to search before any query ran; else a note
/// that the query matched nothing. There is none while the table has rows.
pub open spec fn search_empty_state(state: SearchIssuesState) -> Option<(Seq<char>, Seq<char>)> {
    if state.table_view().workspace_view().issue_seq().len() > 0 {
        None
    } else {
        match shown_error(state) {
            Some(e) => Some(("Unable to search Jira"@, e)),
            None => if state.active_query_view().len() == 0 {
                Some(("Search Jira"@, "Press /, enter a JQL query, then press Enter."@))
            } else {
                Some(("No matching issues"@, "Jira returned no issues for this query."@))
            },
        }
    }
}

/// Lays out the search screen's texts; drawing belongs to the terminal front end.
pub struct SearchIssuesView;

impl SearchIssuesView {
    /// The line above the results (see `results_text`).
    pub fn results_line(state: &SearchIssuesState) -> (r: String)
        ensures
            r@ == results_text(*state),
    {
        let query = state.active_query();
        if query.is_empty() {
            String::from_str("Results: no query run yet")
        } else {
            let mut line = String::from_str("Results for: ");
            line.append(query);
            line
        }
    }

    /// The title and message of the empty result table (see `search_empty_state`).
    pub fn empty_state(state: &SearchIssuesState) -> (r: Option<(String, String)>)
        ensures
            match (r, search_empty_state(*state)) {
                (Some((t, m)), Some((st, sm))) => t@ == st && m@ == sm,
                (None, None) => true,
                _ => false,
            },
    {
        if !state.table().is_empty() {
            return None;
        }
        match state.error() {
            Some(e) => Some((String::from_str("Unable to search Jira"), String::from_str(e))),
            None => if state.active_query().is_empty() {
                Some((
                    String::from_str("Search Jira"),
                    String::from_str("Press /, enter a JQL query, then press Enter."),
                ))
            } else {
                Some((
                    String::from_str("No matching issues"),
                    String::from_str("Jira returned no issues for this query."),
                ))
            },
        }
    }
}

} // verus!
