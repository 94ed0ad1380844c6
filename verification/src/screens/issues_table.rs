//! A scrollable, selectable table of issues shared by the My Issues and Search
//! Issues screens.

use vstd::prelude::*;
use vstd::slice::slice_subrange;
use std::ops::Range;

use crate::interaction::{ActionId, Command, ScreenState};
use crate::model::IssueSummary;
use crate::viewport::{index_down, index_up, lemma_scroll_for_shows_selection, sat_sub, scroll_for, scroll_to_show, step_down, step_of, step_up, viewport_ok};

verus! {

/// The issue list, the selected row and the scrolled window over it.
pub struct IssueWorkspaceState {
    issues: Vec<IssueSummary>,
    selected_index: usize,
    scroll_offset: usize,
    rows_visible: usize,
}

impl IssueWorkspaceState {
    /// The issues in display order.
    pub closed spec fn issue_seq(&self) -> Seq<IssueSummary> {
        self.issues@
    }

    pub closed spec fn selected(&self) -> nat {
        self.selected_index as nat
    }

    pub closed spec fn scroll(&self) -> nat {
        self.scroll_offset as nat
    }

    pub closed spec fn rows(&self) -> nat {
        self.rows_visible as nat
    }

    /// The selection is visible and the window stays within the list.
    pub open spec fn wf(&self) -> bool {
        viewport_ok(self.issue_seq().len(), self.selected(), self.scroll(), self.rows())
    }

    /// Starts with the first issue selected and a one-row window at the top.
    pub fn new(issues: Vec<IssueSummary>) -> (r: Self)
        ensures
            r.wf(),
            r.issue_seq() == issues@,
            r.selected() == 0,
            r.scroll() == 0,
            r.rows() == 1,
    {
        let mut workspace = IssueWorkspaceState {
            issues,
            selected_index: 0,
            scroll_offset: 0,
            rows_visible: 1,
        };
        workspace.clamp_viewport();
        workspace
    }

    pub fn issues(&self) -> (r: &[IssueSummary])
        ensures
            r@ == self.issue_seq(),
    {
        self.issues.as_slice()
    }

    pub fn is_empty(&self) -> (r: bool)
        ensures
            r == (self.issue_seq().len() == 0),
    {
        self.issues.len() == 0
    }

    pub fn selected_index(&self) -> (r: usize)
        ensures
            r == self.selected(),
    {
        self.selected_index
    }

    pub fn scroll_offset(&self) -> (r: usize)
        ensures
            r == self.scroll(),
    {
        self.scroll_offset
    }

    pub fn rows_visible(&self) -> (r: usize)
        ensures
            r == self.rows(),
    {
        self.rows_visible
    }

    /// The selected issue, if the list is not empty.
    pub fn selected_issue(&self) -> (r: Option<&IssueSummary>)
        ensures
            r == (if self.selected() < self.issue_seq().len() {
                Some(&self.issue_seq()[self.selected() as int])
            } else {
                None
            }),
    {
        if self.selected_index < self.issues.len() {
            Some(&self.issues[self.selected_index])
        } else {
            None
        }
    }

    /// The indices of the rows inside the window.
    pub fn visible_range(&self) -> (r: Range<usize>)
        ensures
            r.start == (if self.scroll() <= self.issue_seq().len() {
                self.scroll() as int
            } else {
                self.issue_seq().len() as int
            }),
            r.end == (if r.start + self.rows() <= self.issue_seq().len() {
                (r.start + self.rows()) as int
            } else {
                self.issue_seq().len() as int
            }),
    {
        let len = self.issues.len();
        let start = if self.scroll_offset < len { self.scroll_offset } else { len };
        let end = if self.rows_visible <= len - start { start + self.rows_visible } else { len };
        start..end
    }

    /// Resizes the window (at least one row) and scrolls to keep the selection in it.
    pub fn set_rows_visible(&mut self, rows_visible: usize)
        requires
            old(self).wf(),
        ensures
            final(self).wf(),
            final(self).issue_seq() == old(self).issue_seq(),
            final(self).rows() == step_of(rows_visible as nat),
            final(self).selected() == old(self).selected(),
            old(self).issue_seq().len() > 0 ==> final(self).scroll() == scroll_for(
                old(self).issue_seq().len(),
                old(self).selected(),
                old(self).scroll(),
                step_of(rows_visible as nat),
            ),
    {
        self.rows_visible = if rows_visible == 0 { 1 } else { rows_visible };
        self.clamp_viewport();
    }

    /// Moves the selection up `n` rows (at least one) and scrolls to keep it visible.
    pub fn move_up(&mut self, n: usize)
        requires
            old(self).wf(),
        ensures
            final(self).wf(),
            final(self).issue_seq() == old(self).issue_seq(),
            final(self).rows() == old(self).rows(),
            old(self).issue_seq().len() == 0 ==> *final(self) == *old(self),
            old(self).issue_seq().len() > 0 ==> {
                &&& final(self).selected() == index_up(old(self).selected(), n as nat)
                &&& final(self).scroll() == scroll_for(
                    old(self).issue_seq().len(),
                    final(self).selected(),
                    old(self).scroll(),
                    old(self).rows(),
                )
            },
    {
        if self.issues.len() == 0 {
            return;
        }
        self.selected_index = step_up(self.selected_index, n);
        self.clamp_viewport();
    }

    /// Moves the selection down `n` rows (at least one, stopping at the last row)
    /// and scrolls to keep it visible.
    pub fn move_down(&mut self, n: usize)
        requires
            old(self).wf(),
        ensures
            final(self).wf(),
            final(self).issue_seq() == old(self).issue_seq(),
            final(self).rows() == old(self).rows(),
            old(self).issue_seq().len() == 0 ==> *final(self) == *old(self),
            old(self).issue_seq().len() > 0 ==> {
                &&& final(self).selected() == index_down(
                    old(self).selected(),
                    n as nat,
                    old(self).issue_seq().len(),
                )
                &&& final(self).scroll() == scroll_for(
                    old(self).issue_seq().len(),
                    final(self).selected(),
                    old(self).scroll(),
                    old(self).rows(),
                )
            },
    {
        if self.issues.len() == 0 {
            return;
        }
        self.selected_index = step_down(self.selected_index, n, self.issues.len());
        self.clamp_viewport();
    }

    /// Selects the first row and scrolls to the top.
    pub fn move_top(&mut self)
        requires
            old(self).wf(),
        ensures
            final(self).wf(),
            final(self).issue_seq() == old(self).issue_seq(),
            final(self).rows() == old(self).rows(),
            old(self).issue_seq().len() == 0 ==> *final(self) == *old(self),
            old(self).issue_seq().len() > 0 ==> final(self).selected() == 0 && final(self).scroll()
                == 0,
    {
        if self.issues.len() == 0 {
            return;
        }
        self.selected_index = 0;
        self.clamp_viewport();
    }

    /// Selects the last row and scrolls so that it is the bottom row of the window.
    pub fn move_bottom(&mut self)
        requires
            old(self).wf(),
        ensures
            final(self).wf(),
            final(self).issue_seq() == old(self).issue_seq(),
            final(self).rows() == old(self).rows(),
            old(self).issue_seq().len() == 0 ==> *final(self) == *old(self),
            old(self).issue_seq().len() > 0 ==> {
                &&& final(self).selected() == old(self).issue_seq().len() - 1
                &&& final(self).scroll() == scroll_for(
                    old(self).issue_seq().len(),
                    final(self).selected(),
                    old(self).scroll(),
                    old(self).rows(),
                )
            },
    {
        if self.issues.len() == 0 {
            return;
        }
        self.selected_index = self.issues.len() - 1;
        self.clamp_viewport();
    }

    fn clamp_viewport(&mut self)
        requires
            old(self).rows_visible >= 1,
            old(self).issues@.len() == 0 || old(self).selected_index < old(self).issues@.len(),
        ensures
            final(self).wf(),
            final(self).issues == old(self).issues,
            final(self).rows_visible == old(self).rows_visible,
            old(self).issues@.len() > 0 ==> final(self).selected_index == old(self).selected_index,
            old(self).issues@.len() == 0 ==> final(self).selected_index == 0 && final(self).scroll_offset == 0,
            old(self).issues@.len() > 0 ==> final(self).scroll_offset == scroll_for(
                old(self).issues@.len() as nat,
                old(self).selected_index as nat,
                old(self).scroll_offset as nat,
                old(self).rows_visible as nat,
            ),
    {
        if self.issues.len() == 0 {
            self.selected_index = 0;
            self.scroll_offset = 0;
            return;
        }
        proof {
            lemma_scroll_for_shows_selection(
                self.issues@.len(),
                self.selected_index as nat,
                self.scroll_offset as nat,
                self.rows_visible as nat,
            );
        }
        self.scroll_offset = scroll_to_show(
            self.issues.len(),
            self.selected_index,
            self.scroll_offset,
            self.rows_visible,
        );
    }
}

/// One table row: the issue key, its summary and its status.
#[derive(Clone, Debug, PartialEq, Eq)]
pub struct IssueRow {
    pub key: String,
    pub summary: String,
    pub status: String,
}

/// The cells shown for an issue.
pub open spec fn row_of(issue: IssueSummary) -> (Seq<char>, Seq<char>, Seq<char>) {
    (issue.key@, issue.summary@, issue.status@)
}

/// The cells of a row.
pub open spec fn row_view(row: IssueRow) -> (Seq<char>, Seq<char>, Seq<char>) {
    (row.key@, row.summary@, row.status@)
}

/// A titled issue table: the rows to draw and the selection over them.
pub struct IssuesTableState {
    workspace: IssueWorkspaceState,
    rows: Vec<IssueRow>,
    title: &'static str,
    empty_title: &'static str,
    empty_message: &'static str,
}

impl IssuesTableState {
    pub closed spec fn workspace_view(&self) -> IssueWorkspaceState {
        self.workspace
    }

    pub closed spec fn row_seq(&self) -> Seq<IssueRow> {
        self.rows@
    }

    pub closed spec fn title_view(&self) -> Seq<char> {
        self.title@
    }

    pub closed spec fn empty_title_view(&self) -> Seq<char> {
        self.empty_title@
    }

    pub closed spec fn empty_message_view(&self) -> Seq<char> {
        self.empty_message@
    }

    /// The workspace is well formed and there is one row per issue, in order.
    pub open spec fn wf(&self) -> bool {
        &&& self.workspace_view().wf()
        &&& self.row_seq().len() == self.workspace_view().issue_seq().len()
        &&& forall|i: int|
            0 <= i < self.row_seq().len() ==> #[trigger] row_view(self.row_seq()[i]) == row_of(
                self.workspace_view().issue_seq()[i],
            )
    }

    /// The My Issues table.
    pub fn my_issues(issues: Vec<IssueSummary>) -> (r: Self)
        ensures
            r.wf(),
            r.workspace_view().issue_seq() == issues@,
            r.workspace_view().selected() == 0,
            r.workspace_view().scroll() == 0,
            r.title_view() == "My Issues"@,
            r.empty_title_view() == "No issues"@,
            r.empty_message_view() == "Sync to load issues."@,
    {
        Self::new("My Issues", "No issues", "Sync to load issues.", issues)
    }

    /// The Search Issues table.
    pub fn search_issues(issues: Vec<IssueSummary>) -> (r: Self)
        ensures
            r.wf(),
            r.workspace_view().issue_seq() == issues@,
            r.workspace_view().selected() == 0,
            r.workspace_view().scroll() == 0,
            r.title_view() == "Search Issues"@,
            r.empty_title_view() == "No issues"@,
            r.empty_message_view() == "Sync to load issues."@,
    {
        Self::new("Search Issues", "No issues", "Sync to load issues.", issues)
    }

    /// A table with the given title, empty-state texts and issues.
    pub fn new(
        title: &'static str,
        empty_title: &'static str,
        empty_message: &'static str,
        issues: Vec<IssueSummary>,
    ) -> (r: Self)
        ensures
            r.wf(),
            r.workspace_view().issue_seq() == issues@,
            r.workspace_view().selected() == 0,
            r.workspace_view().scroll() == 0,
            r.workspace_view().rows() == 1,
            r.title_view() == title@,
            r.empty_title_view() == empty_title@,
            r.empty_message_view() == empty_message@,
    {
        let rows = build_rows(&issues);
        IssuesTableState {
            workspace: IssueWorkspaceState::new(issues),
            rows,
            title,
            empty_title,
            empty_message,
        }
    }

    pub fn title(&self) -> (r: &'static str)
        ensures
            r@ == self.title_view(),
    {
        self.title
    }

    pub fn empty_title(&self) -> (r: &'static str)
        ensures
            r@ == self.empty_title_view(),
    {
        self.empty_title
    }

    pub fn empty_message(&self) -> (r: &'static str)
        ensures
            r@ == self.empty_message_view(),
    {
        self.empty_message
    }

    pub fn rows(&self) -> (r: &[IssueRow])
        ensures
            r@ == self.row_seq(),
    {
        self.rows.as_slice()
    }

    /// The rows inside the scrolled window.
    pub fn visible_rows(&self) -> (r: &[IssueRow])
        requires
            self.wf(),
        ensures
            r@ == self.row_seq().subrange(
                self.workspace_view().scroll() as int,
                (if self.workspace_view().scroll() + self.workspace_view().rows()
                    <= self.row_seq().len() {
                    self.workspace_view().scroll() + self.workspace_view().rows()
                } else {
                    self.row_seq().len()
                }) as int,
            ),
    {
        let range = self.workspace.visible_range();
        slice_subrange(self.rows.as_slice(), range.start, range.end)
    }

    pub fn issues(&self) -> (r: &[IssueSummary])
        ensures
            r@ == self.workspace_view().issue_seq(),
    {
        self.workspace.issues()
    }

    pub fn is_empty(&self) -> (r: bool)
        ensures
            r == (self.workspace_view().issue_seq().len() == 0),
    {
        self.workspace.is_empty()
    }

    pub fn selected_index(&self) -> (r: usize)
        ensures
            r == self.workspace_view().selected(),
    {
        self.workspace.selected_index()
    }

    /// The position of the selection inside the window.
    pub fn visible_selected_index(&self) -> (r: usize)
        ensures
            r == sat_sub(
                self.workspace_view().selected() as int,
                self.workspace_view().scroll() as int,
            ),
    {
        let selected = self.workspace.selected_index();
        let scroll = self.workspace.scroll_offset();
        if selected > scroll { selected - scroll } else { 0 }
    }

    pub fn scroll_offset(&self) -> (r: usize)
        ensures
            r == self.workspace_view().scroll(),
    {
        self.workspace.scroll_offset()
    }

    pub fn rows_visible(&self) -> (r: usize)
        ensures
            r == self.workspace_view().rows(),
    {
        self.workspace.rows_visible()
    }

    pub fn selected_issue(&self) -> (r: Option<&IssueSummary>)
        ensures
            r == (if self.workspace_view().selected() < self.workspace_view().issue_seq().len() {
                Some(&self.workspace_view().issue_seq()[self.workspace_view().selected() as int])
            } else {
                None
            }),
    {
        self.workspace.selected_issue()
    }

    pub fn set_rows_visible(&mut self, rows_visible: usize)
        requires
            old(self).wf(),
        ensures
            final(self).wf(),
            final(self).row_seq() == old(self).row_seq(),
            final(self).title_view() == old(self).title_view(),
            final(self).empty_title_view() == old(self).empty_title_view(),
            final(self).empty_message_view() == old(self).empty_message_view(),
            final(self).workspace_view().issue_seq() == old(self).workspace_view().issue_seq(),
            final(self).workspace_view().rows() == step_of(rows_visible as nat),
            final(self).workspace_view().selected() == old(self).workspace_view().selected(),
            old(self).workspace_view().issue_seq().len() > 0 ==> final(self).workspace_view().scroll() == scroll_for(
                old(self).workspace_view().issue_seq().len(),
                old(self).workspace_view().selected(),
                old(self).workspace_view().scroll(),
                step_of(rows_visible as nat),
            ),
    {
        self.workspace.set_rows_visible(rows_visible);
    }

    pub fn move_up(&mut self, n: usize)
        requires
            old(self).wf(),
        ensures
            final(self).wf(),
            final(self).row_seq() == old(self).row_seq(),
            final(self).title_view() == old(self).title_view(),
            final(self).empty_title_view() == old(self).empty_title_view(),
            final(self).empty_message_view() == old(self).empty_message_view(),
            final(self).workspace_view().issue_seq() == old(self).workspace_view().issue_seq(),
            final(self).workspace_view().rows() == old(self).workspace_view().rows(),
            old(self).workspace_view().issue_seq().len() == 0 ==> final(self).workspace_view()
                == old(self).workspace_view(),
            old(self).workspace_view().issue_seq().len() > 0 ==> final(self).workspace_view().selected() == index_up(
                old(self).workspace_view().selected(),
                n as nat,
            ),
    {
        self.workspace.move_up(n);
    }

    pub fn move_down(&mut self, n: usize)
        requires
            old(self).wf(),
        ensures
            final(self).wf(),
            final(self).row_seq() == old(self).row_seq(),
            final(self).title_view() == old(self).title_view(),
            final(self).empty_title_view() == old(self).empty_title_view(),
            final(self).empty_message_view() == old(self).empty_message_view(),
            final(self).workspace_view().issue_seq() == old(self).workspace_view().issue_seq(),
            final(self).workspace_view().rows() == old(self).workspace_view().rows(),
            old(self).workspace_view().issue_seq().len() == 0 ==> final(self).workspace_view()
                == old(self).workspace_view(),
            old(self).workspace_view().issue_seq().len() > 0 ==> final(self).workspace_view().selected() == index_down(
                old(self).workspace_view().selected(),
                n as nat,
                old(self).workspace_view().issue_seq().len(),
            ),
    {
        self.workspace.move_down(n);
    }

    pub fn move_top(&mut self)
        requires
            old(self).wf(),
        ensures
            final(self).wf(),
            final(self).row_seq() == old(self).row_seq(),
            final(self).title_view() == old(self).title_view(),
            final(self).empty_title_view() == old(self).empty_title_view(),
            final(self).empty_message_view() == old(self).empty_message_view(),
            final(self).workspace_view().issue_seq() == old(self).workspace_view().issue_seq(),
            final(self).workspace_view().rows() == old(self).workspace_view().rows(),
            old(self).workspace_view().issue_seq().len() == 0 ==> final(self).workspace_view()
                == old(self).workspace_view(),
            old(self).workspace_view().issue_seq().len() > 0 ==> final(self).workspace_view().selected() == 0 && final(self).workspace_view().scroll() == 0,
    {
        self.workspace.move_top();
    }

    pub fn move_bottom(&mut self)
        requires
            old(self).wf(),
        ensures
            final(self).wf(),
            final(self).row_seq() == old(self).row_seq(),
            final(self).title_view() == old(self).title_view(),
            final(self).empty_title_view() == old(self).empty_title_view(),
            final(self).empty_message_view() == old(self).empty_message_view(),
            final(self).workspace_view().issue_seq() == old(self).workspace_view().issue_seq(),
            final(self).workspace_view().rows() == old(self).workspace_view().rows(),
            old(self).workspace_view().issue_seq().len() == 0 ==> final(self).workspace_view()
                == old(self).workspace_view(),
            old(self).workspace_view().issue_seq().len() > 0 ==> final(self).workspace_view().selected() == old(self).workspace_view().issue_seq().len() - 1,
    {
        self.workspace.move_bottom();
    }
}

/// The outcome of a navigation command on an issue table, and the command's
/// effect on the workspace.
pub open spec fn workspace_command_result(
    pre: IssueWorkspaceState,
    post: IssueWorkspaceState,
    command: Command,
    result: ScreenState,
) -> bool {
    match command.action {
        ActionId::Confirm => {
            &&& post == pre
            &&& if pre.selected() < pre.issue_seq().len() {
                result matches ScreenState::ViewIssue(k) && k@ == pre.issue_seq()[pre.selected() as int].key@
            } else {
                result == ScreenState::Stay
            }
        },
        ActionId::Refresh => post == pre && result == ScreenState::Refresh,
        ActionId::MoveUp => {
            &&& result == ScreenState::Refresh
            &&& post.issue_seq() == pre.issue_seq()
            &&& post.rows() == pre.rows()
            &&& pre.issue_seq().len() == 0 ==> post == pre
            &&& pre.issue_seq().len() > 0 ==> post.selected() == index_up(pre.selected(), command.repeat as nat)
                && post.scroll() == scroll_for(pre.issue_seq().len(), post.selected(), pre.scroll(), pre.rows())
        },
        ActionId::MoveDown => {
            &&& result == ScreenState::Refresh
            &&& post.issue_seq() == pre.issue_seq()
            &&& post.rows() == pre.rows()
            &&& pre.issue_seq().len() == 0 ==> post == pre
            &&& pre.issue_seq().len() > 0 ==> post.selected() == index_down(
                pre.selected(),
                command.repeat as nat,
                pre.issue_seq().len(),
            ) && post.scroll() == scroll_for(pre.issue_seq().len(), post.selected(), pre.scroll(), pre.rows())
        },
        ActionId::MoveTop => {
            &&& result == ScreenState::Refresh
            &&& post.issue_seq() == pre.issue_seq()
            &&& post.rows() == pre.rows()
            &&& pre.issue_seq().len() == 0 ==> post == pre
            &&& pre.issue_seq().len() > 0 ==> post.selected() == 0 && post.scroll() == 0
        },
        ActionId::MoveBottom => {
            &&& result == ScreenState::Refresh
            &&& post.issue_seq() == pre.issue_seq()
            &&& post.rows() == pre.rows()
            &&& pre.issue_seq().len() == 0 ==> post == pre
            &&& pre.issue_seq().len() > 0 ==> post.selected() == pre.issue_seq().len() - 1
                && post.scroll() == scroll_for(pre.issue_seq().len(), post.selected(), pre.scroll(), pre.rows())
        },
        _ => post == pre && result == ScreenState::Stay,
    }
}

/// Navigation and opening of issues in an issue table.
pub struct IssueWorkspaceController;

impl IssueWorkspaceController {
    /// Confirm opens the selected issue; the motions move the selection.
    pub fn handle_command(state: &mut IssueWorkspaceState, command: Command) -> (r: ScreenState)
        requires
            old(state).wf(),
        ensures
            final(state).wf(),
            workspace_command_result(*old(state), *final(state), command, r),
    {
        match command.action {
            ActionId::Confirm => match state.selected_issue() {
                Some(issue) => ScreenState::ViewIssue(issue.key.clone()),
                None => ScreenState::Stay,
            },
            ActionId::Refresh => ScreenState::Refresh,
            ActionId::MoveUp => {
                state.move_up(command.repeat);
                ScreenState::Refresh
            },
            ActionId::MoveDown => {
                state.move_down(command.repeat);
                ScreenState::Refresh
            },
            ActionId::MoveTop => {
                state.move_top();
                ScreenState::Refresh
            },
            ActionId::MoveBottom => {
                state.move_bottom();
                ScreenState::Refresh
            },
            _ => ScreenState::Stay,
        }
    }
}

/// Commands on an issue table go to its workspace.
pub struct IssuesTableController;

impl IssuesTableController {
    pub fn handle_command(state: &mut IssuesTableState, command: Command) -> (r: ScreenState)
        requires
            old(state).wf(),
        ensures
            final(state).wf(),
            final(state).row_seq() == old(state).row_seq(),
            final(state).title_view() == old(state).title_view(),
            final(state).empty_title_view() == old(state).empty_title_view(),
            final(state).empty_message_view() == old(state).empty_message_view(),
            workspace_command_result(
                old(state).workspace_view(),
                final(state).workspace_view(),
                command,
                r,
            ),
    {
        IssueWorkspaceController::handle_command(&mut state.workspace, command)
    }
}

/// The rows of a list of issues.
fn build_rows(issues: &Vec<IssueSummary>) -> (r: Vec<IssueRow>)
    ensures
        r@.len() == issues@.len(),
        forall|i: int| 0 <= i < r@.len() ==> #[trigger] row_view(r@[i]) == row_of(issues@[i]),
{
    let mut rows: Vec<IssueRow> = Vec::new();
    let mut i: usize = 0;
    while i < issues.len()
        invariant
            i <= issues@.len(),
            rows@.len() == i,
            forall|j: int| 0 <= j < i ==> #[trigger] row_view(rows@[j]) == row_of(issues@[j]),
        decreases issues@.len() - i,
    {
        let issue = &issues[i];
        rows.push(
            IssueRow {
                key: issue.key.clone(),
                summary: issue.summary.clone(),
                status: issue.status.clone(),
            },
        );
        i += 1;
    }
    rows
}

/// The rows an issue table gets in a frame of `height` rows: what the title and
/// the bottom bar leave, less the header row.
pub open spec fn table_rows_for_height(height: nat) -> nat {
    sat_sub(sat_sub(height as int, 3) as int, 1)
}

/// Lays out issue tables; drawing belongs to the terminal front end.
pub struct IssuesTableView;

impl IssuesTableView {
    /// Fits the table's window to a frame of `height` rows (see
    /// `table_rows_for_height`) before it is drawn.
    pub fn fit_to_height(state: &mut IssuesTableState, height: u16)
        requires
            old(state).wf(),
        ensures
            final(state).wf(),
            final(state).row_seq() == old(state).row_seq(),
            final(state).title_view() == old(state).title_view(),
            final(state).empty_title_view() == old(state).empty_title_view(),
            final(state).empty_message_view() == old(state).empty_message_view(),
            final(state).workspace_view().issue_seq() == old(state).workspace_view().issue_seq(),
            final(state).workspace_view().selected() == old(state).workspace_view().selected(),
            final(state).workspace_view().rows() == step_of(table_rows_for_height(height as nat)),
    {
        let body: u16 = if height > 3 { height - 3 } else { 0 };
        let rows: u16 = if body > 1 { body - 1 } else { 0 };
        state.set_rows_visible(rows as usize);
    }
}

} // verus!
