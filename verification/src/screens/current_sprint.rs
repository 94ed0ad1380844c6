//! The Current Sprint screen: the sprint's issues in a scrolled table with a
//! detail pop-up for the selected one.

use vstd::prelude::*;
use vstd::string::*;
use std::ops::Range;

use crate::interaction::{ActionHint, ActionId, Command, CommandLineCommand, KeyCode, Mode, ScreenState};
use crate::model::IssueSummary;
use crate::screens::issue_detail::view::{
    join_strings, joined, lines_view, one, push_blank, push_line, seg, strings_text, ContentLine, Lines,
    Segment, SegmentStyle,
};
use crate::text::{decimal, decimal_text, is_blank, trimmed};
use crate::viewport::{
    index_down, index_up, lemma_scroll_for_shows_selection, sat_sub, scroll_for, scroll_to_show,
    step_down, step_up, viewport_ok,
};

verus! {

/// The sprint's issues, the selected row, the scrolled window and whether the
/// detail pop-up is open.
pub struct CurrentSprintState {
    issues: Vec<IssueSummary>,
    selected_index: usize,
    scroll_offset: usize,
    rows_visible: usize,
    detail_open: bool,
}

impl CurrentSprintState {
    /// The window always shows at least one row.
    #[verifier::type_invariant]
    spec fn rows_positive(&self) -> bool {
        self.rows_visible >= 1
    }

    pub closed spec fn issue_seq(&self) -> Seq<IssueSummary> {
        self.issues@
    }

    pub closed spec fn selected(&self) -> nat {
        self.selected_index as nat
    }

    pub closed spec fn scroll(&self) -> nat {
        self.scroll_offset as nat
    }

    pub closed spec fn rows(&self) -> nat {
        self.rows_visible as nat
    }

    pub closed spec fn detail(&self) -> bool {
        self.detail_open
    }

    /// The selection is in the list and inside the window.
    pub open spec fn selection_visible(&self) -> bool {
        viewport_ok(self.issue_seq().len(), self.selected(), self.scroll(), self.rows())
    }

    /// The sprint's issues, the first selected, a one-row window, no detail.
    pub fn new(issues: Vec<IssueSummary>) -> (r: Self)
        ensures
            r.issue_seq() == issues@,
            r.selected() == 0,
            r.scroll() == 0,
            r.rows() == 1,
            !r.detail(),
    {
        CurrentSprintState { issues, selected_index: 0, scroll_offset: 0, rows_visible: 1, detail_open: false }
    }

    pub fn issues(&self) -> (r: &[IssueSummary])
        ensures
            r@ == self.issue_seq(),
    {
        self.issues.as_slice()
    }

    pub fn is_empty(&self) -> (r: bool)
        ensures
            r == (self.issue_seq().len() == 0),
    {
        self.issues.len() == 0
    }

    pub fn selected_index(&self) -> (r: usize)
        ensures
            r == self.selected(),
    {
        self.selected_index
    }

    pub fn scroll_offset(&self) -> (r: usize)
        ensures
            r == self.scroll(),
    {
        self.scroll_offset
    }

    pub fn rows_visible(&self) -> (r: usize)
        ensures
            r == self.rows(),
            r >= 1,
    {
        proof {
            use_type_invariant(self);
        }
        self.rows_visible
    }

    pub fn detail_open(&self) -> (r: bool)
        ensures
            r == self.detail(),
    {
        self.detail_open
    }

    pub fn selected_issue(&self) -> (r: Option<&IssueSummary>)
        ensures
            r == (if self.selected() < self.issue_seq().len() {
                Some(&self.issue_seq()[self.selected() as int])
            } else {
                None
            }),
    {
        if self.selected_index < self.issues.len() {
            Some(&self.issues[self.selected_index])
        } else {
            None
        }
    }

    /// Sets the window height, at least one row.
    pub fn set_rows_visible(&mut self, rows_visible: usize)
        ensures
            final(self).rows() == if rows_visible == 0 {
                1
            } else {
                rows_visible as nat
            },
            final(self).issue_seq() == old(self).issue_seq(),
            final(self).selected() == old(self).selected(),
            final(self).scroll() == old(self).scroll(),
            final(self).detail() == old(self).detail(),
    {
        self.rows_visible = if rows_visible == 0 { 1 } else { rows_visible };
    }

    pub fn set_selected_index(&mut self, value: usize)
        ensures
            final(self).selected() == value,
            final(self).issue_seq() == old(self).issue_seq(),
            final(self).scroll() == old(self).scroll(),
            final(self).rows() == old(self).rows(),
            final(self).detail() == old(self).detail(),
    {
        proof {
            use_type_invariant(&*self);
        }
        self.selected_index = value;
    }

    pub fn set_scroll_offset(&mut self, value: usize)
        ensures
            final(self).scroll() == value,
            final(self).issue_seq() == old(self).issue_seq(),
            final(self).selected() == old(self).selected(),
            final(self).rows() == old(self).rows(),
            final(self).detail() == old(self).detail(),
    {
        proof {
            use_type_invariant(&*self);
        }
        self.scroll_offset = value;
    }

    /// Opens or closes the detail pop-up; an empty sprint has none to open.
    pub fn toggle_detail(&mut self)
        ensures
            final(self).detail() == if old(self).issue_seq().len() == 0 {
                old(self).detail()
            } else {
                !old(self).detail()
            },
            final(self).issue_seq() == old(self).issue_seq(),
            final(self).selected() == old(self).selected(),
            final(self).scroll() == old(self).scroll(),
            final(self).rows() == old(self).rows(),
    {
        proof {
            use_type_invariant(&*self);
        }
        if self.issues.len() > 0 {
            self.detail_open = !self.detail_open;
        }
    }

    pub fn close_detail(&mut self)
        ensures
            !final(self).detail(),
            final(self).issue_seq() == old(self).issue_seq(),
            final(self).selected() == old(self).selected(),
            final(self).scroll() == old(self).scroll(),
            final(self).rows() == old(self).rows(),
    {
        proof {
            use_type_invariant(&*self);
        }
        self.detail_open = false;
    }
}

/// The selection and window after a key command, for a non-empty sprint: where
/// the selection goes, and the window moved as little as needed to show it.
pub open spec fn moved_sprint(b: CurrentSprintState, a: CurrentSprintState, sel: nat) -> bool {
    &&& a.issue_seq() == b.issue_seq()
    &&& a.rows() == b.rows()
    &&& a.detail() == b.detail()
    &&& a.selected() == sel
    &&& a.scroll() == scroll_for(b.issue_seq().len(), sel, b.scroll(), b.rows())
}

/// Nothing but possibly the detail flag changes.
pub open spec fn same_window(b: CurrentSprintState, a: CurrentSprintState) -> bool {
    &&& a.issue_seq() == b.issue_seq()
    &&& a.rows() == b.rows()
    &&& a.selected() == b.selected()
    &&& a.scroll() == b.scroll()
}

/// What a key command does: with the detail open, Enter, `q` and Esc close it;
/// otherwise Enter toggles it and the motions move the selection.
pub open spec fn sprint_outcome(b: CurrentSprintState, c: Command, a: CurrentSprintState, r: ScreenState) -> bool {
    let len = b.issue_seq().len();
    if b.detail() {
        match c.action {
            ActionId::Confirm | ActionId::Quit | ActionId::RawInput(KeyCode::Esc) => same_window(b, a)
                && !a.detail() && r == ScreenState::Refresh,
            _ => same_window(b, a) && a.detail() == b.detail() && r == ScreenState::Stay,
        }
    } else {
        match c.action {
            ActionId::Confirm => same_window(b, a) && a.detail() == (len > 0) && r == ScreenState::Refresh,
            ActionId::Refresh => same_window(b, a) && a.detail() == b.detail() && r == ScreenState::Refresh,
            ActionId::MoveDown => r == ScreenState::Refresh && if len == 0 {
                same_window(b, a) && a.detail() == b.detail()
            } else {
                moved_sprint(b, a, index_down(b.selected(), c.repeat as nat, len))
            },
            ActionId::MoveUp => r == ScreenState::Refresh && if len == 0 {
                same_window(b, a) && a.detail() == b.detail()
            } else {
                moved_sprint(b, a, index_up(b.selected(), c.repeat as nat))
            },
            ActionId::MoveTop => r == ScreenState::Refresh && if len == 0 {
                same_window(b, a) && a.detail() == b.detail()
            } else {
                &&& a.issue_seq() == b.issue_seq()
                &&& a.rows() == b.rows()
                &&& a.detail() == b.detail()
                &&& a.selected() == 0
                &&& a.scroll() == 0
            },
            ActionId::MoveBottom => r == ScreenState::Refresh && if len == 0 {
                same_window(b, a) && a.detail() == b.detail()
            } else {
                moved_sprint(b, a, (len - 1) as nat)
            },
            _ => same_window(b, a) && a.detail() == b.detail() && r == ScreenState::Stay,
        }
    }
}

/// Handles commands for the current sprint.
pub struct CurrentSprintController;

impl CurrentSprintController {
    /// Handles a key command (see `sprint_outcome`).
    pub fn handle_command(state: &mut CurrentSprintState, command: Command) -> (r: ScreenState)
        ensures
            sprint_outcome(*old(state), command, *final(state), r),
    {
        if state.detail_open() {
            return match command.action {
                ActionId::Confirm | ActionId::Quit | ActionId::RawInput(KeyCode::Esc) => {
                    state.close_detail();
                    ScreenState::Refresh
                },
                _ => ScreenState::Stay,
            };
        }
        match command.action {
            ActionId::Confirm => {
                state.toggle_detail();
                ScreenState::Refresh
            },
            ActionId::Refresh => ScreenState::Refresh,
            ActionId::MoveDown => {
                Self::move_down(state, command.repeat);
                ScreenState::Refresh
            },
            ActionId::MoveUp => {
                Self::move_up(state, command.repeat);
                ScreenState::Refresh
            },
            ActionId::MoveTop => {
                Self::go_top(state);
                ScreenState::Refresh
            },
            ActionId::MoveBottom => {
                Self::go_bottom(state);
                ScreenState::Refresh
            },
            _ => ScreenState::Stay,
        }
    }

    /// Sets the window height (at least one row), brings the selection back into
    /// the list and the window over it; an empty sprint selects and scrolls to 0
    /// and closes the detail.
    pub fn update_rows_visible(state: &mut CurrentSprintState, rows_visible: usize)
        ensures
            final(state).issue_seq() == old(state).issue_seq(),
            final(state).rows() == if rows_visible == 0 {
                1
            } else {
                rows_visible as nat
            },
            final(state).selection_visible(),
            if old(state).issue_seq().len() == 0 {
                final(state).selected() == 0 && final(state).scroll() == 0 && !final(state).detail()
            } else {
                let sel = if old(state).selected() < old(state).issue_seq().len() {
                    old(state).selected()
                } else {
                    (old(state).issue_seq().len() - 1) as nat
                };
                &&& final(state).selected() == sel
                &&& final(state).scroll() == scroll_for(
                    old(state).issue_seq().len(),
                    sel,
                    old(state).scroll(),
                    final(state).rows(),
                )
                &&& final(state).detail() == old(state).detail()
            },
    {
        state.set_rows_visible(rows_visible);
        Self::clamp_selection(state);
        Self::ensure_selection_visible(state);
        proof {
            use_type_invariant(&*state);
            if state.issue_seq().len() > 0 {
                lemma_scroll_for_shows_selection(
                    state.issue_seq().len(),
                    state.selected(),
                    old(state).scroll(),
                    state.rows(),
                );
            }
        }
    }

    fn clamp_selection(state: &mut CurrentSprintState)
        ensures
            final(state).issue_seq() == old(state).issue_seq(),
            final(state).rows() == old(state).rows(),
            if old(state).issue_seq().len() == 0 {
                final(state).selected() == 0 && final(state).scroll() == 0 && !final(state).detail()
            } else {
                &&& final(state).selected() == if old(state).selected() < old(state).issue_seq().len() {
                    old(state).selected()
                } else {
                    (old(state).issue_seq().len() - 1) as nat
                }
                &&& final(state).scroll() == old(state).scroll()
                &&& final(state).detail() == old(state).detail()
            },
    {
        if state.is_empty() {
            state.set_selected_index(0);
            state.set_scroll_offset(0);
            state.close_detail();
        } else if state.selected_index() >= state.issues().len() {
            state.set_selected_index(state.issues().len() - 1);
        }
    }

    fn ensure_selection_visible(state: &mut CurrentSprintState)
        ensures
            final(state).issue_seq() == old(state).issue_seq(),
            final(state).rows() == old(state).rows(),
            final(state).selected() == old(state).selected(),
            final(state).detail() == old(state).detail(),
            final(state).scroll() == if old(state).issue_seq().len() == 0 {
                0
            } else {
                scroll_for(old(state).issue_seq().len(), old(state).selected(), old(state).scroll(), old(state).rows())
            },
    {
        if state.is_empty() {
            state.set_scroll_offset(0);
            return;
        }
        let rows = state.rows_visible();
        let s = scroll_to_show(state.issues().len(), state.selected_index(), state.scroll_offset(), rows);
        state.set_scroll_offset(s);
    }

    fn move_down(state: &mut CurrentSprintState, n: usize)
        ensures
            if old(state).issue_seq().len() == 0 {
                *final(state) == *old(state)
            } else {
                moved_sprint(*old(state), *final(state), index_down(old(state).selected(), n as nat, old(state).issue_seq().len()))
            },
    {
        if state.is_empty() {
            return;
        }
        let next = step_down(state.selected_index(), n, state.issues().len());
        state.set_selected_index(next);
        Self::ensure_selection_visible(state);
    }

    fn move_up(state: &mut CurrentSprintState, n: usize)
        ensures
            if old(state).issue_seq().len() == 0 {
                *final(state) == *old(state)
            } else {
                moved_sprint(*old(state), *final(state), index_up(old(state).selected(), n as nat))
            },
    {
        if state.is_empty() {
            return;
        }
        let next = step_up(state.selected_index(), n);
        state.set_selected_index(next);
        Self::ensure_selection_visible(state);
    }

    fn go_top(state: &mut CurrentSprintState)
        ensures
            if old(state).issue_seq().len() == 0 {
                *final(state) == *old(state)
            } else {
                &&& final(state).issue_seq() == old(state).issue_seq()
                &&& final(state).rows() == old(state).rows()
                &&& final(state).detail() == old(state).detail()
                &&& final(state).selected() == 0
                &&& final(state).scroll() == 0
            },
    {
        if state.is_empty() {
            return;
        }
        state.set_selected_index(0);
        state.set_scroll_offset(0);
    }

    fn go_bottom(state: &mut CurrentSprintState)
        ensures
            if old(state).issue_seq().len() == 0 {
                *final(state) == *old(state)
            } else {
                moved_sprint(*old(state), *final(state), (old(state).issue_seq().len() - 1) as nat)
            },
    {
        if state.is_empty() {
            return;
        }
        let last = state.issues().len() - 1;
        state.set_selected_index(last);
        Self::ensure_selection_visible(state);
    }
}

/// Commands keep the selection visible: from a state whose selection lies in the
/// window over the list, every key command leaves it so.
pub proof fn lemma_sprint_commands_keep_selection_visible(
    before: CurrentSprintState,
    c: Command,
    after: CurrentSprintState,
    r: ScreenState,
)
    requires
        before.selection_visible(),
        sprint_outcome(before, c, after, r),
    ensures
        after.selection_visible(),
{
    let len = before.issue_seq().len();
    if len > 0 && after.selected() < len && after.scroll() == scroll_for(len, after.selected(), before.scroll(), before.rows()) {
        lemma_scroll_for_shows_selection(len, after.selected(), before.scroll(), before.rows());
    }
}

/// The rows a frame of `height` rows gives the table: the body between the top
/// and bottom lines, less the table's borders and header, two rows per issue,
/// at least one.
pub open spec fn rows_for_height(height: nat) -> nat {
    let body = sat_sub(sat_sub(height as int, 2) as int, 3);
    if body / 2 == 0 {
        1
    } else {
        body / 2
    }
}

/// The Current Sprint screen: its state, the key hints it shows and the mode.
pub struct CurrentSprintScreen {
    state: CurrentSprintState,
    actions: Vec<ActionHint>,
    mode: Mode,
}

impl CurrentSprintScreen {
    pub closed spec fn state_view(&self) -> CurrentSprintState {
        self.state
    }

    pub closed spec fn actions_view(&self) -> Seq<ActionHint> {
        self.actions@
    }

    pub closed spec fn mode_view(&self) -> Mode {
        self.mode
    }

    /// A screen over the sprint's `issues`, which the caller has loaded.
    pub fn new(issues: Vec<IssueSummary>, mode: Mode) -> (r: Self)
        ensures
            r.state_view().issue_seq() == issues@,
            r.state_view().selected() == 0,
            r.state_view().scroll() == 0,
            r.state_view().rows() == 1,
            !r.state_view().detail(),
            r.mode_view() == mode,
            r.actions_view().len() == 0,
    {
        CurrentSprintScreen { state: CurrentSprintState::new(issues), actions: Vec::new(), mode }
    }

    /// Fits the table to a frame of `height` rows (see `rows_for_height`) before
    /// it is drawn.
    pub fn fit_to_height(&mut self, height: u16)
        ensures
            final(self).state_view().rows() == rows_for_height(height as nat),
            final(self).state_view().selection_visible(),
            final(self).state_view().issue_seq() == old(self).state_view().issue_seq(),
            final(self).mode_view() == old(self).mode_view(),
            final(self).actions_view() == old(self).actions_view(),
    {
        let body: u16 = if height > 2 { height - 2 } else { 0 };
        let content: u16 = if body > 3 { body - 3 } else { 0 };
        let rows = (content / 2) as usize;
        let rows = if rows == 0 { 1 } else { rows };
        CurrentSprintController::update_rows_visible(&mut self.state, rows);
    }

    pub fn state(&self) -> (r: &CurrentSprintState)
        ensures
            *r == self.state_view(),
    {
        &self.state
    }

    pub fn actions(&self) -> (r: &[ActionHint])
        ensures
            r@ == self.actions_view(),
    {
        self.actions.as_slice()
    }

    pub fn mode(&self) -> (r: Mode)
        ensures
            r == self.mode_view(),
    {
        self.mode
    }

    pub fn name(&self) -> (r: &'static str)
        ensures
            r@ == "Current Sprint"@,
    {
        "Current Sprint"
    }

    pub fn set_action_hints(&mut self, actions: Vec<ActionHint>)
        ensures
            final(self).actions_view() == actions@,
            final(self).state_view() == old(self).state_view(),
            final(self).mode_view() == old(self).mode_view(),
    {
        self.actions = actions;
    }

    pub fn set_mode(&mut self, mode: Mode)
        ensures
            final(self).mode_view() == mode,
            final(self).state_view() == old(self).state_view(),
            final(self).actions_view() == old(self).actions_view(),
    {
        self.mode = mode;
    }

    /// `:w` stays; `:wq` and `:q` close the screen.
    pub fn handle_command_line(&mut self, cmd: CommandLineCommand) -> (r: ScreenState)
        ensures
            r == if cmd == CommandLineCommand::Write {
                ScreenState::Stay
            } else {
                ScreenState::Close
            },
            *final(self) == *old(self),
    {
        match cmd {
            CommandLineCommand::Write => ScreenState::Stay,
            CommandLineCommand::WriteQuit => ScreenState::Close,
            CommandLineCommand::Quit => ScreenState::Close,
        }
    }

    /// Handles a key command (see `sprint_outcome`).
    pub fn handle_command(&mut self, command: Command) -> (r: ScreenState)
        ensures
            sprint_outcome(old(self).state_view(), command, final(self).state_view(), r),
            final(self).mode_view() == old(self).mode_view(),
            final(self).actions_view() == old(self).actions_view(),
    {
        CurrentSprintController::handle_command(&mut self.state, command)
    }
}

/// The rows of the sprint table on screen.
pub struct TableView;

impl TableView {
    /// The issues shown: the window from the scroll offset, cut at the end of the
    /// list.
    pub fn window(state: &CurrentSprintState) -> (r: Range<usize>)
        ensures
            r.start == if state.scroll() <= state.issue_seq().len() {
                state.scroll()
            } else {
                state.issue_seq().len()
            },
            r.end == if state.scroll() + state.rows() <= state.issue_seq().len() {
                state.scroll() + state.rows()
            } else {
                state.issue_seq().len()
            },
            r.start <= r.end <= state.issue_seq().len(),
    {
        let len = state.issues().len();
        let start = state.scroll_offset();
        let rows = state.rows_visible();
        let start = if start <= len { start } else { len };
        let end = if state.scroll_offset() <= len && rows <= len - state.scroll_offset() {
            state.scroll_offset() + rows
        } else {
            len
        };
        start..end
    }

    /// The highlighted row within the window, if any row is shown.
    pub fn highlighted_row(state: &CurrentSprintState) -> (r: Option<usize>)
        ensures
            r == if state.scroll() < state.issue_seq().len() {
                Some(sat_sub(state.selected() as int, state.scroll() as int) as usize)
            } else {
                None
            },
    {
        if state.scroll_offset() < state.issues().len() {
            let sel = state.selected_index();
            let s = state.scroll_offset();
            Some(if sel > s { sel - s } else { 0 })
        } else {
            None
        }
    }
}

/// What `str::to_uppercase` gives for a text: its Unicode upper-case mapping,
/// a function of the text alone.
pub uninterp spec fn uppercased(s: Seq<char>) -> Seq<char>;

/// `str::to_uppercase`: the text with each character mapped to upper case.
#[verifier::external_body]
fn to_uppercase(s: &str) -> (r: String)
    ensures
        r@ == uppercased(s@),
{
    s.to_uppercase()
}

/// A sprint card: what the board shows of an issue fetched from Jira.
#[derive(Clone, Debug, PartialEq, Eq)]
pub struct SprintCard {
    pub key: String,
    pub summary: String,
    pub status: String,
    pub assignee: String,
}

/// The card of a fetched issue: its summary or nothing, its status name in
/// upper case or "TODO", and its assignee's display name or "Unassigned".
pub open spec fn card_of(
    key: Seq<char>,
    summary: Option<Seq<char>>,
    status: Option<Seq<char>>,
    assignee: Option<Seq<char>>,
) -> (Seq<char>, Seq<char>, Seq<char>, Seq<char>) {
    (
        key,
        match summary {
            Some(s) => s,
            None => Seq::empty(),
        },
        match status {
            Some(s) => uppercased(s),
            None => "TODO"@,
        },
        match assignee {
            Some(a) => a,
            None => "Unassigned"@,
        },
    )
}

/// The text of an optional string.
pub open spec fn opt_chars(s: Option<String>) -> Option<Seq<char>> {
    match s {
        Some(t) => Some(t@),
        None => None,
    }
}

/// The card of a fetched issue from its key, summary, status name and
/// assignee's display name (see `card_of`).
pub fn sprint_card(
    key: String,
    summary: Option<String>,
    status: Option<String>,
    assignee: Option<String>,
) -> (r: SprintCard)
    ensures
        (r.key@, r.summary@, r.status@, r.assignee@) == card_of(
            key@,
            opt_chars(summary),
            opt_chars(status),
            opt_chars(assignee),
        ),
{
    let summary = match summary {
        Some(s) => s,
        None => String::new(),
    };
    let status = match status {
        Some(s) => to_uppercase(s.as_str()),
        None => String::from_str("TODO"),
    };
    let assignee = match assignee {
        Some(a) => a,
        None => String::from_str("Unassigned"),
    };
    SprintCard { key, summary, status, assignee }
}

/// A line "<label><value>" of the pop-up, the label in the accent colour.
pub open spec fn kv_line(label: Seq<char>, value: Seq<char>) -> Seq<(SegmentStyle, Seq<char>)> {
    seq![(SegmentStyle::Accent, label), (SegmentStyle::Plain, value)]
}

/// The items joined by ", ", or "none" when there are none.
pub open spec fn list_or_none(items: Seq<String>) -> Seq<char> {
    if items.len() == 0 {
        "none"@
    } else {
        joined(strings_text(items), ", "@)
    }
}

/// The description, or "No description" when there is none or it is blank.
pub open spec fn modal_description(issue: IssueSummary) -> Seq<char> {
    match issue.description {
        Some(d) => if trimmed(d@).len() > 0 {
            d@
        } else {
            "No description"@
        },
        None => "No description"@,
    }
}

/// The lines of the issue pop-up of the sprint screen: the summary; status,
/// type, priority, assignee, epic (or "none"), story points (or "n/a"), labels
/// and fix versions (or "none"), and the number of comments; the description
/// under its heading; and the keys that close the pop-up.
pub open spec fn detail_modal_of(issue: IssueSummary) -> Lines {
    seq![
        one(SegmentStyle::Plain, issue.summary@),
        seq![],
        kv_line("Status: "@, issue.status@),
        kv_line("Type: "@, issue.issue_type@),
        kv_line("Priority: "@, issue.priority@),
        kv_line("Assignee: "@, issue.assignee@),
        kv_line(
            "Epic: "@,
            match issue.epic {
                Some(e) => e@,
                None => "none"@,
            },
        ),
        kv_line(
            "Story Points: "@,
            match issue.story_points_short {
                Some(p) => p@,
                None => "n/a"@,
            },
        ),
        kv_line("Labels: "@, list_or_none(issue.labels@)),
        kv_line("Fix Versions: "@, list_or_none(issue.fix_versions@)),
        kv_line("Comments: "@, decimal(issue.comments@.len())),
        seq![],
        one(SegmentStyle::Accent, "Description"@),
        one(SegmentStyle::Plain, modal_description(issue)),
        seq![],
        seq![
            (SegmentStyle::Accent, "Enter"@),
            (SegmentStyle::Muted, " / "@),
            (SegmentStyle::Accent, "Esc"@),
            (SegmentStyle::Muted, " close"@),
        ],
    ]
}

/// Appends a line "<label><value>" of the pop-up.
fn push_kv(out: &mut Vec<ContentLine>, label: &str, value: String)
    ensures
        lines_view(final(out)@) == lines_view(old(out)@).push(kv_line(label@, value@)),
{
    let segments = vec![seg(SegmentStyle::Accent, String::from_str(label)), seg(SegmentStyle::Plain, value)];
    assert(segments@.map_values(|s: Segment| s@) =~= kv_line(label@, value@));
    push_line(out, segments);
}

/// The items joined by ", ", or "none" (see `list_or_none`).
fn list_text(items: &Vec<String>) -> (r: String)
    ensures
        r@ == list_or_none(items@),
{
    if items.len() == 0 {
        String::from_str("none")
    } else {
        join_strings(items.as_slice(), ", ")
    }
}

/// The lines of the issue pop-up of the sprint screen (see `detail_modal_of`).
pub fn detail_modal_lines(issue: &IssueSummary) -> (r: Vec<ContentLine>)
    ensures
        lines_view(r@) == detail_modal_of(*issue),
{
    let mut out: Vec<ContentLine> = Vec::new();
    let summary = vec![seg(SegmentStyle::Plain, issue.summary.clone())];
    assert(summary@.map_values(|s: Segment| s@) =~= one(SegmentStyle::Plain, issue.summary@));
    push_line(&mut out, summary);
    push_blank(&mut out);
    push_kv(&mut out, "Status: ", issue.status.clone());
    push_kv(&mut out, "Type: ", issue.issue_type.clone());
    push_kv(&mut out, "Priority: ", issue.priority.clone());
    push_kv(&mut out, "Assignee: ", issue.assignee.clone());
    let epic = match &issue.epic {
        Some(e) => e.clone(),
        None => String::from_str("none"),
    };
    push_kv(&mut out, "Epic: ", epic);
    let points = match &issue.story_points_short {
        Some(p) => p.clone(),
        None => String::from_str("n/a"),
    };
    push_kv(&mut out, "Story Points: ", points);
    push_kv(&mut out, "Labels: ", list_text(&issue.labels));
    push_kv(&mut out, "Fix Versions: ", list_text(&issue.fix_versions));
    push_kv(&mut out, "Comments: ", decimal_text(issue.comments.len()));
    push_blank(&mut out);
    let heading = vec![seg(SegmentStyle::Accent, String::from_str("Description"))];
    assert(heading@.map_values(|s: Segment| s@) =~= one(SegmentStyle::Accent, "Description"@));
    push_line(&mut out, heading);
    let description = match &issue.description {
        Some(d) => if is_blank(d.as_str()) {
            String::from_str("No description")
        } else {
            d.clone()
        },
        None => String::from_str("No description"),
    };
    let body = vec![seg(SegmentStyle::Plain, description)];
    assert(body@.map_values(|s: Segment| s@) =~= one(SegmentStyle::Plain, modal_description(*issue)));
    push_line(&mut out, body);
    push_blank(&mut out);
    let keys = vec![
        seg(SegmentStyle::Accent, String::from_str("Enter")),
        seg(SegmentStyle::Muted, String::from_str(" / ")),
        seg(SegmentStyle::Accent, String::from_str("Esc")),
        seg(SegmentStyle::Muted, String::from_str(" close")),
    ];
    assert(keys@.map_values(|s: Segment| s@) =~= detail_modal_of(*issue)[15]);
    push_line(&mut out, keys);
    assert(lines_view(out@) =~= detail_modal_of(*issue));
    out
}

/// The cells of a sprint table row: key, type, summary, the meta line under the
/// summary, status, story points, priority and assignee.
#[derive(Clone, Debug, PartialEq, Eq)]
pub struct SprintRow {
    pub key: String,
    pub issue_type: String,
    pub summary: String,
    pub meta: String,
    pub status: String,
    pub story_points: String,
    pub priority: String,
    pub assignee: String,
}

impl View for SprintRow {
    type V = Seq<Seq<char>>;

    open spec fn view(&self) -> Seq<Seq<char>> {
        seq![
            self.key@,
            self.issue_type@,
            self.summary@,
            self.meta@,
            self.status@,
            self.story_points@,
            self.priority@,
            self.assignee@,
        ]
    }
}

/// The meta line of an issue: "<n> comments", then "  dirty" and "  conflict"
/// when they apply.
pub open spec fn meta_of(issue: IssueSummary) -> Seq<char> {
    decimal(issue.comments@.len()) + " comments"@ + (if issue.dirty {
        "  dirty"@
    } else {
        Seq::empty()
    }) + (if issue.conflict {
        "  conflict"@
    } else {
        Seq::empty()
    })
}

/// The cells of an issue's row, story points shown as "-" when not estimated.
pub open spec fn sprint_row_of(issue: IssueSummary) -> Seq<Seq<char>> {
    seq![
        issue.key@,
        issue.issue_type@,
        issue.summary@,
        meta_of(issue),
        issue.status@,
        match issue.story_points_short {
            Some(p) => p@,
            None => "-"@,
        },
        issue.priority@,
        issue.assignee@,
    ]
}

/// The row of an issue in the sprint table (see `sprint_row_of`).
pub fn sprint_row(issue: &IssueSummary) -> (r: SprintRow)
    ensures
        r@ == sprint_row_of(*issue),
{
    let mut meta = decimal_text(issue.comments.len());
    meta.append(" comments");
    if issue.dirty {
        meta.append("  dirty");
    }
    if issue.conflict {
        meta.append("  conflict");
    }
    let story_points = match &issue.story_points_short {
        Some(p) => p.clone(),
        None => String::from_str("-"),
    };
    let r = SprintRow {
        key: issue.key.clone(),
        issue_type: issue.issue_type.clone(),
        summary: issue.summary.clone(),
        meta,
        status: issue.status.clone(),
        story_points,
        priority: issue.priority.clone(),
        assignee: issue.assignee.clone(),
    };
    assert(r@ =~= sprint_row_of(*issue));
    r
}

/// Whether the table needs a scrollbar: it has more issues than rows.
pub fn needs_scrollbar(state: &CurrentSprintState) -> (r: bool)
    ensures
        r == (state.issue_seq().len() > state.rows()),
{
    state.issues().len() > state.rows_visible()
}

/// What the current sprint screen shows besides its table.
pub struct CurrentSprintView;

impl CurrentSprintView {
    /// The issue whose detail pop-up is open.
    pub fn detail_issue(state: &CurrentSprintState) -> (r: Option<&IssueSummary>)
        ensures
            r == (if state.detail() && state.selected() < state.issue_seq().len() {
                Some(&state.issue_seq()[state.selected() as int])
            } else {
                None
            }),
    {
        if state.detail_open() {
            state.selected_issue()
        } else {
            None
        }
    }
}

} // verus!
