//! The Conflicts screen: issues whose local and remote versions diverged, the
//! field-by-field differences of the selected one, and the confirmation before
//! one side is kept.

pub mod view;

use vstd::prelude::*;
use vstd::string::*;

use crate::interaction::{ActionHint, ActionId, Command, CommandLineCommand, Mode, ScreenState};
use crate::model::{
    comment_diff, diff_comment, diff_issue, diff_views, issue_diff, DiffEntry, IssueComment,
    IssueSummary,
};
use crate::viewport::{index_down, index_up, step_down, step_up};

verus! {

/// Which side a pending resolution keeps.
#[derive(Clone, Copy, Debug, PartialEq, Eq, Structural)]
pub enum PendingResolve {
    Local,
    Remote,
}

/// The differences of one conflicting comment.
#[derive(Clone, Debug, PartialEq, Eq)]
pub struct CommentDiff {
    pub id: String,
    pub diffs: Vec<DiffEntry>,
}

impl View for CommentDiff {
    type V = (Seq<char>, Seq<(Seq<char>, Seq<char>, Seq<char>)>);

    open spec fn view(&self) -> Self::V {
        (self.id@, diff_views(self.diffs@))
    }
}

/// The views of a list of comment diffs.
pub open spec fn comment_diff_views(ds: Seq<CommentDiff>) -> Seq<(Seq<char>, Seq<(Seq<char>, Seq<char>, Seq<char>)>)> {
    ds.map_values(|d: CommentDiff| d@)
}

/// The comment diffs of a list of comments: one per comment that is marked in
/// conflict and carries its remote version, in order.
pub open spec fn conflicting_comment_diffs(cs: Seq<IssueComment>) -> Seq<(Seq<char>, Seq<(Seq<char>, Seq<char>, Seq<char>)>)>
    decreases cs.len(),
{
    if cs.len() == 0 {
        seq![]
    } else {
        let c = cs.last();
        conflicting_comment_diffs(cs.drop_last()) + if c.conflict && c.remote_snapshot is Some {
            seq![(c.id@, comment_diff(c, c.remote_snapshot->0))]
        } else {
            seq![]
        }
    }
}

/// Whether a comment is shown as a conflict: it is marked in conflict and
/// carries its remote version.
pub open spec fn shows_conflict(c: IssueComment) -> bool {
    c.conflict && c.remote_snapshot is Some
}

/// The diff shown for a conflicting comment: its id and its field differences
/// from its remote version.
pub open spec fn diff_entry_of(c: IssueComment) -> (Seq<char>, Seq<(Seq<char>, Seq<char>, Seq<char>)>) {
    (c.id@, comment_diff(c, c.remote_snapshot->0))
}

/// The comment diffs are the comments marked in conflict that carry a remote
/// version, kept in their order, each turned into its entry.
pub proof fn lemma_comment_diffs_are_the_conflicting_comments(cs: Seq<IssueComment>)
    ensures
        conflicting_comment_diffs(cs) == cs.filter(|c: IssueComment| shows_conflict(c)).map_values(
            |c: IssueComment| diff_entry_of(c),
        ),
        conflicting_comment_diffs(cs).len() == cs.filter(|c: IssueComment| shows_conflict(c)).len(),
    decreases cs.len(),
{
    let pred = |c: IssueComment| shows_conflict(c);
    let f = |c: IssueComment| diff_entry_of(c);
    reveal(Seq::filter);
    if cs.len() == 0 {
        assert(cs.filter(pred) =~= Seq::<IssueComment>::empty());
        assert(cs.filter(pred).map_values(f) =~= seq![]);
    } else {
        let rest = cs.drop_last();
        let c = cs.last();
        lemma_comment_diffs_are_the_conflicting_comments(rest);
        if shows_conflict(c) {
            assert(cs.filter(pred) == rest.filter(pred).push(c));
            assert(rest.filter(pred).push(c).map_values(f) =~= rest.filter(pred).map_values(f).push(f(c)));
            assert(conflicting_comment_diffs(cs) =~= conflicting_comment_diffs(rest).push(diff_entry_of(c)));
        } else {
            assert(cs.filter(pred) == rest.filter(pred));
            assert(conflicting_comment_diffs(cs) =~= conflicting_comment_diffs(rest));
        }
    }
}

/// Each comment marked in conflict that carries a remote version has its entry
/// among the comment diffs.
pub proof fn lemma_conflicting_comment_has_entry(cs: Seq<IssueComment>, i: int)
    requires
        0 <= i < cs.len(),
        shows_conflict(cs[i]),
    ensures
        exists|j: int|
            0 <= j < conflicting_comment_diffs(cs).len() && conflicting_comment_diffs(cs)[j] == diff_entry_of(cs[i]),
    decreases cs.len(),
{
    let rest = cs.drop_last();
    let d = conflicting_comment_diffs(cs);
    let dr = conflicting_comment_diffs(rest);
    if i < rest.len() {
        assert(rest[i] == cs[i]);
        lemma_conflicting_comment_has_entry(rest, i);
        let j = choose|j: int| 0 <= j < dr.len() && dr[j] == diff_entry_of(rest[i]);
        assert(d[j] == dr[j]);
    } else {
        assert(d[dr.len() as int] == diff_entry_of(cs[i]));
    }
}

/// Each entry of the comment diffs belongs to a comment marked in conflict that
/// carries a remote version.
pub proof fn lemma_entry_has_conflicting_comment(cs: Seq<IssueComment>, j: int)
    requires
        0 <= j < conflicting_comment_diffs(cs).len(),
    ensures
        exists|i: int| 0 <= i < cs.len() && shows_conflict(cs[i]) && conflicting_comment_diffs(cs)[j] == diff_entry_of(cs[i]),
    decreases cs.len(),
{
    let rest = cs.drop_last();
    let d = conflicting_comment_diffs(cs);
    let dr = conflicting_comment_diffs(rest);
    if j < dr.len() {
        assert(d[j] == dr[j]);
        lemma_entry_has_conflicting_comment(rest, j);
        let i = choose|i: int| 0 <= i < rest.len() && shows_conflict(rest[i]) && dr[j] == diff_entry_of(rest[i]);
        assert(cs[i] == rest[i]);
    } else {
        assert(cs[cs.len() - 1] == cs.last());
    }
}

/// Every conflicting comment is shown: the comment diffs are exactly the
/// comments marked in conflict that carry a remote version, in their order, one
/// entry each. So there are as many entries as such comments, each such comment
/// has an entry with its id, and every entry belongs to such a comment.
pub proof fn lemma_every_conflicting_comment_is_shown(cs: Seq<IssueComment>)
    ensures
        conflicting_comment_diffs(cs) == cs.filter(|c: IssueComment| shows_conflict(c)).map_values(
            |c: IssueComment| diff_entry_of(c),
        ),
        conflicting_comment_diffs(cs).len() == cs.filter(|c: IssueComment| shows_conflict(c)).len(),
        forall|i: int|
            0 <= i < cs.len() && #[trigger] shows_conflict(cs[i]) ==> exists|j: int|
                0 <= j < conflicting_comment_diffs(cs).len() && conflicting_comment_diffs(cs)[j] == diff_entry_of(
                    cs[i],
                ),
        forall|j: int|
            0 <= j < conflicting_comment_diffs(cs).len() ==> exists|i: int|
                0 <= i < cs.len() && shows_conflict(cs[i]) && #[trigger] conflicting_comment_diffs(cs)[j]
                    == diff_entry_of(cs[i]),
{
    lemma_comment_diffs_are_the_conflicting_comments(cs);
    assert forall|i: int| 0 <= i < cs.len() && #[trigger] shows_conflict(cs[i]) implies exists|j: int|
        0 <= j < conflicting_comment_diffs(cs).len() && conflicting_comment_diffs(cs)[j] == diff_entry_of(cs[i]) by {
        lemma_conflicting_comment_has_entry(cs, i);
    }
    assert forall|j: int| 0 <= j < conflicting_comment_diffs(cs).len() implies exists|i: int|
        0 <= i < cs.len() && shows_conflict(cs[i]) && #[trigger] conflicting_comment_diffs(cs)[j] == diff_entry_of(cs[i]) by {
        lemma_entry_has_conflicting_comment(cs, j);
    }
}

/// On the Conflicts screen the comment diffs shown are those of every comment
/// of the selected issue that is marked in conflict and carries its remote
/// version, in order (see `lemma_every_conflicting_comment_is_shown`); with no
/// issue selected there are none.
pub proof fn lemma_conflicts_screen_shows_every_comment_conflict(s: ConflictsState)
    requires
        s.wf(),
    ensures
        s.selected() < s.issue_seq().len() ==> {
            let cs = s.issue_seq()[s.selected() as int].comments@;
            &&& s.comment_diff_view() == cs.filter(|c: IssueComment| shows_conflict(c)).map_values(
                |c: IssueComment| diff_entry_of(c),
            )
            &&& s.comment_diff_view().len() == cs.filter(|c: IssueComment| shows_conflict(c)).len()
            &&& forall|i: int|
                0 <= i < cs.len() && #[trigger] shows_conflict(cs[i]) ==> exists|j: int|
                    0 <= j < s.comment_diff_view().len() && s.comment_diff_view()[j].0 == cs[i].id@
        },
        s.issue_seq().len() == 0 ==> s.comment_diff_view().len() == 0,
{
    if s.selected() < s.issue_seq().len() {
        let cs = s.issue_seq()[s.selected() as int].comments@;
        lemma_every_conflicting_comment_is_shown(cs);
        assert forall|i: int| 0 <= i < cs.len() && #[trigger] shows_conflict(cs[i]) implies exists|j: int|
            0 <= j < s.comment_diff_view().len() && s.comment_diff_view()[j].0 == cs[i].id@ by {
            let j = choose|j: int|
                0 <= j < conflicting_comment_diffs(cs).len() && conflicting_comment_diffs(cs)[j] == diff_entry_of(cs[i]);
            assert(s.comment_diff_view()[j].0 == cs[i].id@);
        }
    }
}

/// The issue diff shown for row `sel`: empty when there is no such row or it
/// carries no remote version.
pub open spec fn expected_issue_diffs(issues: Seq<IssueSummary>, sel: nat) -> Seq<(Seq<char>, Seq<char>, Seq<char>)> {
    if sel < issues.len() && issues[sel as int].remote_snapshot is Some {
        issue_diff(issues[sel as int], issues[sel as int].remote_snapshot->0)
    } else {
        seq![]
    }
}

/// The comment diffs shown for row `sel`.
pub open spec fn expected_comment_diffs(issues: Seq<IssueSummary>, sel: nat) -> Seq<(Seq<char>, Seq<(Seq<char>, Seq<char>, Seq<char>)>)> {
    if sel < issues.len() {
        conflicting_comment_diffs(issues[sel as int].comments@)
    } else {
        seq![]
    }
}

/// The conflicting issues, the selected one, its differences and the
/// resolution waiting for confirmation.
pub struct ConflictsState {
    issues: Vec<IssueSummary>,
    selected_index: usize,
    issue_diffs: Vec<DiffEntry>,
    comment_diffs: Vec<CommentDiff>,
    pending_resolve: Option<PendingResolve>,
}

impl ConflictsState {
    pub closed spec fn issue_seq(&self) -> Seq<IssueSummary> {
        self.issues@
    }

    pub closed spec fn selected(&self) -> nat {
        self.selected_index as nat
    }

    pub closed spec fn pending(&self) -> Option<PendingResolve> {
        self.pending_resolve
    }

    pub closed spec fn issue_diff_view(&self) -> Seq<(Seq<char>, Seq<char>, Seq<char>)> {
        diff_views(self.issue_diffs@)
    }

    pub closed spec fn comment_diff_view(&self) -> Seq<(Seq<char>, Seq<(Seq<char>, Seq<char>, Seq<char>)>)> {
        comment_diff_views(self.comment_diffs@)
    }

    /// The selection is a row (or 0 for no rows), and the diffs shown are those
    /// of the selected issue.
    pub open spec fn wf(&self) -> bool {
        &&& if self.issue_seq().len() == 0 {
            self.selected() == 0
        } else {
            self.selected() < self.issue_seq().len()
        }
        &&& self.issue_diff_view() == expected_issue_diffs(self.issue_seq(), self.selected())
        &&& self.comment_diff_view() == expected_comment_diffs(self.issue_seq(), self.selected())
    }

    /// The key of the selected issue, if there is one.
    pub open spec fn selected_key(&self) -> Option<Seq<char>> {
        if self.selected() < self.issue_seq().len() {
            Some(self.issue_seq()[self.selected() as int].key@)
        } else {
            None
        }
    }

    /// The conflicts of `issues`, the first one selected.
    pub fn new(issues: Vec<IssueSummary>) -> (r: Self)
        ensures
            r.wf(),
            r.issue_seq() == issues@,
            r.selected() == 0,
            r.pending() is None,
    {
        let mut state = ConflictsState {
            issues,
            selected_index: 0,
            issue_diffs: Vec::new(),
            comment_diffs: Vec::new(),
            pending_resolve: None,
        };
        state.rebuild_diffs();
        state
    }

    pub fn issues(&self) -> (r: &[IssueSummary])
        ensures
            r@ == self.issue_seq(),
    {
        self.issues.as_slice()
    }

    pub fn selected_index(&self) -> (r: usize)
        ensures
            r == self.selected(),
    {
        self.selected_index
    }

    pub fn is_empty(&self) -> (r: bool)
        ensures
            r == (self.issue_seq().len() == 0),
    {
        self.issues.len() == 0
    }

    pub fn issue_diffs(&self) -> (r: &[DiffEntry])
        ensures
            diff_views(r@) == self.issue_diff_view(),
    {
        self.issue_diffs.as_slice()
    }

    pub fn comment_diffs(&self) -> (r: &[CommentDiff])
        ensures
            comment_diff_views(r@) == self.comment_diff_view(),
    {
        self.comment_diffs.as_slice()
    }

    pub fn selected_issue(&self) -> (r: Option<&IssueSummary>)
        ensures
            r == (if self.selected() < self.issue_seq().len() {
                Some(&self.issue_seq()[self.selected() as int])
            } else {
                None
            }),
    {
        if self.selected_index < self.issues.len() {
            Some(&self.issues[self.selected_index])
        } else {
            None
        }
    }

    pub fn selected_issue_key(&self) -> (r: Option<&str>)
        ensures
            match r {
                Some(k) => self.selected_key() == Some(k@),
                None => self.selected_key() is None,
            },
    {
        match self.selected_issue() {
            Some(issue) => Some(issue.key.as_str()),
            None => None,
        }
    }

    pub fn pending_resolve(&self) -> (r: Option<PendingResolve>)
        ensures
            r == self.pending(),
    {
        self.pending_resolve
    }

    /// Asks for confirmation before keeping one side.
    pub fn request_resolve(&mut self, choice: PendingResolve)
        requires
            old(self).wf(),
        ensures
            final(self).wf(),
            final(self).pending() == Some(choice),
            final(self).issue_seq() == old(self).issue_seq(),
            final(self).selected() == old(self).selected(),
    {
        self.pending_resolve = Some(choice);
    }

    pub fn clear_pending_resolve(&mut self)
        requires
            old(self).wf(),
        ensures
            final(self).wf(),
            final(self).pending() is None,
            final(self).issue_seq() == old(self).issue_seq(),
            final(self).selected() == old(self).selected(),
    {
        self.pending_resolve = None;
    }

    /// Selects the issue `n` rows up (at least one), stopping at the first.
    pub fn move_up(&mut self, n: usize)
        requires
            old(self).wf(),
        ensures
            final(self).wf(),
            final(self).issue_seq() == old(self).issue_seq(),
            final(self).pending() == old(self).pending(),
            final(self).selected() == if old(self).issue_seq().len() == 0 {
                old(self).selected()
            } else {
                index_up(old(self).selected(), n as nat)
            },
    {
        if self.issues.len() == 0 {
            return;
        }
        self.selected_index = step_up(self.selected_index, n);
        self.rebuild_diffs();
    }

    /// Selects the issue `n` rows down (at least one), stopping at the last.
    pub fn move_down(&mut self, n: usize)
        requires
            old(self).wf(),
        ensures
            final(self).wf(),
            final(self).issue_seq() == old(self).issue_seq(),
            final(self).pending() == old(self).pending(),
            final(self).selected() == if old(self).issue_seq().len() == 0 {
                old(self).selected()
            } else {
                index_down(old(self).selected(), n as nat, old(self).issue_seq().len())
            },
    {
        if self.issues.len() == 0 {
            return;
        }
        self.selected_index = step_down(self.selected_index, n, self.issues.len());
        self.rebuild_diffs();
    }

    /// Selects the first issue.
    pub fn move_top(&mut self)
        requires
            old(self).wf(),
        ensures
            final(self).wf(),
            final(self).issue_seq() == old(self).issue_seq(),
            final(self).pending() == old(self).pending(),
            final(self).selected() == 0,
    {
        if self.issues.len() > 0 {
            self.selected_index = 0;
            self.rebuild_diffs();
        }
    }

    /// Selects the last issue.
    pub fn move_bottom(&mut self)
        requires
            old(self).wf(),
        ensures
            final(self).wf(),
            final(self).issue_seq() == old(self).issue_seq(),
            final(self).pending() == old(self).pending(),
            final(self).selected() == if old(self).issue_seq().len() == 0 {
                0
            } else {
                (old(self).issue_seq().len() - 1) as nat
            },
    {
        if self.issues.len() > 0 {
            self.selected_index = self.issues.len() - 1;
            self.rebuild_diffs();
        }
    }

    /// Replaces the issues, keeping the selection where it still designates a row
    /// (else the last row), and drops any pending resolution.
    pub fn set_issues(&mut self, issues: Vec<IssueSummary>)
        requires
            old(self).wf(),
        ensures
            final(self).wf(),
            final(self).issue_seq() == issues@,
            final(self).pending() is None,
            final(self).selected() == if issues@.len() == 0 {
                0
            } else if old(self).selected() >= issues@.len() {
                (issues@.len() - 1) as nat
            } else {
                old(self).selected()
            },
    {
        self.issues = issues;
        if self.issues.len() == 0 {
            self.selected_index = 0;
        } else if self.selected_index >= self.issues.len() {
            self.selected_index = self.issues.len() - 1;
        }
        self.pending_resolve = None;
        self.rebuild_diffs();
    }

    /// Recomputes the diffs shown for the selected issue.
    fn rebuild_diffs(&mut self)
        ensures
            final(self).issue_seq() == old(self).issue_seq(),
            final(self).selected() == old(self).selected(),
            final(self).pending() == old(self).pending(),
            final(self).issue_diff_view() == expected_issue_diffs(old(self).issue_seq(), old(self).selected()),
            final(self).comment_diff_view() == expected_comment_diffs(old(self).issue_seq(), old(self).selected()),
    {
        if self.selected_index >= self.issues.len() {
            self.issue_diffs = Vec::new();
            self.comment_diffs = Vec::new();
            assert(diff_views(self.issue_diffs@) =~= seq![]);
            assert(comment_diff_views(self.comment_diffs@) =~= seq![]);
            return;
        }
        let issue = &self.issues[self.selected_index];
        let issue_diffs = match &issue.remote_snapshot {
            Some(snapshot) => diff_issue(issue, snapshot),
            None => {
                let empty: Vec<DiffEntry> = Vec::new();
                assert(diff_views(empty@) =~= seq![]);
                empty
            },
        };
        let comment_diffs = conflicting_comments(issue.comments.as_slice());
        self.issue_diffs = issue_diffs;
        self.comment_diffs = comment_diffs;
    }
}

/// The diffs of the comments marked in conflict that carry a remote version.
fn conflicting_comments(comments: &[IssueComment]) -> (r: Vec<CommentDiff>)
    ensures
        comment_diff_views(r@) == conflicting_comment_diffs(comments@),
{
    let mut out: Vec<CommentDiff> = Vec::new();
    let mut i: usize = 0;
    assert(comment_diff_views(out@) =~= conflicting_comment_diffs(comments@.take(0)));
    while i < comments.len()
        invariant
            i <= comments@.len(),
            comment_diff_views(out@) == conflicting_comment_diffs(comments@.take(i as int)),
        decreases comments@.len() - i,
    {
        let comment = &comments[i];
        let ghost before = out@;
        proof {
            assert(comments@.take(i + 1).drop_last() =~= comments@.take(i as int));
            assert(comments@.take(i + 1).last() == comments@[i as int]);
        }
        if comment.conflict {
            match &comment.remote_snapshot {
                Some(snapshot) => {
                    let diffs = diff_comment(comment, snapshot);
                    out.push(CommentDiff { id: comment.id.clone(), diffs });
                    assert(comment_diff_views(out@) =~= comment_diff_views(before) + seq![
                        (comment.id@, comment_diff(*comment, *snapshot)),
                    ]);
                },
                None => {
                    assert(comment_diff_views(out@) =~= comment_diff_views(before) + seq![]);
                },
            }
        } else {
            assert(comment_diff_views(out@) =~= comment_diff_views(before) + seq![]);
        }
        i += 1;
    }
    assert(comments@.take(comments@.len() as int) =~= comments@);
    out
}

/// What a command does to the conflicts screen. With a resolution pending,
/// confirming asks the application to keep that side of the selected issue,
/// quitting cancels, and the resolve keys change the choice; otherwise the
/// keys move the selection or ask for confirmation.
pub open spec fn conflicts_outcome(b: ConflictsState, c: Command, a: ConflictsState, r: ScreenState) -> bool {
    let same_rows = a.issue_seq() == b.issue_seq() && a.selected() == b.selected();
    match b.pending() {
        Some(p) => match c.action {
            ActionId::Confirm => {
                &&& same_rows
                &&& a.pending() is None
                &&& match b.selected_key() {
                    Some(k) => match p {
                        PendingResolve::Local => r matches ScreenState::ResolveConflictLocal(s) && s@ == k,
                        PendingResolve::Remote => r matches ScreenState::ResolveConflictRemote(s) && s@ == k,
                    },
                    None => r == ScreenState::Stay,
                }
            },
            ActionId::Quit => same_rows && a.pending() is None && r == ScreenState::Refresh,
            ActionId::ResolveConflictLocal => same_rows && a.pending() == Some(PendingResolve::Local)
                && r == ScreenState::Refresh,
            ActionId::ResolveConflictRemote => same_rows && a.pending() == Some(PendingResolve::Remote)
                && r == ScreenState::Refresh,
            _ => same_rows && a.pending() == b.pending() && r == ScreenState::Stay,
        },
        None => {
            let len = b.issue_seq().len();
            let moved = |sel: nat|
                a.issue_seq() == b.issue_seq() && a.pending() is None && a.selected() == sel && r
                    == ScreenState::Refresh;
            match c.action {
                ActionId::MoveUp => moved(
                    if len == 0 {
                        b.selected()
                    } else {
                        index_up(b.selected(), c.repeat as nat)
                    },
                ),
                ActionId::MoveDown => moved(
                    if len == 0 {
                        b.selected()
                    } else {
                        index_down(b.selected(), c.repeat as nat, len)
                    },
                ),
                ActionId::MoveTop => moved(0),
                ActionId::MoveBottom => moved(
                    if len == 0 {
                        0
                    } else {
                        (len - 1) as nat
                    },
                ),
                ActionId::ResolveConflictLocal => same_rows && a.pending() == Some(PendingResolve::Local)
                    && r == ScreenState::Refresh,
                ActionId::ResolveConflictRemote => same_rows && a.pending() == Some(
                    PendingResolve::Remote,
                ) && r == ScreenState::Refresh,
                _ => same_rows && a.pending() is None && r == ScreenState::Stay,
            }
        },
    }
}

/// Handles commands for the conflicts screen.
pub struct ConflictsController;

impl ConflictsController {
    /// Handles a key command (see `conflicts_outcome`).
    pub fn handle_command(state: &mut ConflictsState, command: Command) -> (r: ScreenState)
        requires
            old(state).wf(),
        ensures
            final(state).wf(),
            conflicts_outcome(*old(state), command, *final(state), r),
    {
        match state.pending_resolve() {
            Some(pending) => match command.action {
                ActionId::Confirm => {
                    state.clear_pending_resolve();
                    match state.selected_issue_key() {
                        Some(key) => match pending {
                            PendingResolve::Local => ScreenState::ResolveConflictLocal(String::from_str(key)),
                            PendingResolve::Remote => ScreenState::ResolveConflictRemote(String::from_str(key)),
                        },
                        None => ScreenState::Stay,
                    }
                },
                ActionId::Quit => {
                    state.clear_pending_resolve();
                    ScreenState::Refresh
                },
                ActionId::ResolveConflictLocal => {
                    state.request_resolve(PendingResolve::Local);
                    ScreenState::Refresh
                },
                ActionId::ResolveConflictRemote => {
                    state.request_resolve(PendingResolve::Remote);
                    ScreenState::Refresh
                },
                _ => ScreenState::Stay,
            },
            None => match command.action {
                ActionId::MoveUp => {
                    state.move_up(command.repeat);
                    ScreenState::Refresh
                },
                ActionId::MoveDown => {
                    state.move_down(command.repeat);
                    ScreenState::Refresh
                },
                ActionId::MoveTop => {
                    state.move_top();
                    ScreenState::Refresh
                },
                ActionId::MoveBottom => {
                    state.move_bottom();
                    ScreenState::Refresh
                },
                ActionId::ResolveConflictLocal => {
                    state.request_resolve(PendingResolve::Local);
                    ScreenState::Refresh
                },
                ActionId::ResolveConflictRemote => {
                    state.request_resolve(PendingResolve::Remote);
                    ScreenState::Refresh
                },
                _ => ScreenState::Stay,
            },
        }
    }
}

/// The conflicts screen: its state, the key hints it shows and the mode.
pub struct ConflictsScreen {
    state: ConflictsState,
    mode: Mode,
    actions: Vec<ActionHint>,
}

impl ConflictsScreen {
    pub closed spec fn state_view(&self) -> ConflictsState {
        self.state
    }

    pub closed spec fn mode_view(&self) -> Mode {
        self.mode
    }

    pub closed spec fn actions_view(&self) -> Seq<ActionHint> {
        self.actions@
    }

    pub open spec fn wf(&self) -> bool {
        self.state_view().wf()
    }

    /// A screen over `issues`, in normal mode.
    pub fn new(issues: Vec<IssueSummary>) -> (r: Self)
        ensures
            r.wf(),
            r.state_view().issue_seq() == issues@,
            r.state_view().selected() == 0,
            r.state_view().pending() is None,
            r.mode_view() == Mode::Normal,
            r.actions_view().len() == 0,
    {
        ConflictsScreen { state: ConflictsState::new(issues), mode: Mode::Normal, actions: Vec::new() }
    }

    pub fn move_up(&mut self, n: usize)
        requires
            old(self).wf(),
        ensures
            final(self).wf(),
            final(self).state_view().issue_seq() == old(self).state_view().issue_seq(),
            final(self).state_view().pending() == old(self).state_view().pending(),
            final(self).state_view().selected() == if old(self).state_view().issue_seq().len() == 0 {
                old(self).state_view().selected()
            } else {
                index_up(old(self).state_view().selected(), n as nat)
            },
            final(self).mode_view() == old(self).mode_view(),
            final(self).actions_view() == old(self).actions_view(),
    {
        self.state.move_up(n);
    }

    pub fn move_down(&mut self, n: usize)
        requires
            old(self).wf(),
        ensures
            final(self).wf(),
            final(self).state_view().issue_seq() == old(self).state_view().issue_seq(),
            final(self).state_view().pending() == old(self).state_view().pending(),
            final(self).state_view().selected() == if old(self).state_view().issue_seq().len() == 0 {
                old(self).state_view().selected()
            } else {
                index_down(
                    old(self).state_view().selected(),
                    n as nat,
                    old(self).state_view().issue_seq().len(),
                )
            },
            final(self).mode_view() == old(self).mode_view(),
            final(self).actions_view() == old(self).actions_view(),
    {
        self.state.move_down(n);
    }

    pub fn move_top(&mut self)
        requires
            old(self).wf(),
        ensures
            final(self).wf(),
            final(self).state_view().issue_seq() == old(self).state_view().issue_seq(),
            final(self).state_view().pending() == old(self).state_view().pending(),
            final(self).state_view().selected() == 0,
            final(self).mode_view() == old(self).mode_view(),
            final(self).actions_view() == old(self).actions_view(),
    {
        self.state.move_top();
    }

    pub fn move_bottom(&mut self)
        requires
            old(self).wf(),
        ensures
            final(self).wf(),
            final(self).state_view().issue_seq() == old(self).state_view().issue_seq(),
            final(self).state_view().pending() == old(self).state_view().pending(),
            final(self).state_view().selected() == if old(self).state_view().issue_seq().len() == 0 {
                0
            } else {
                (old(self).state_view().issue_seq().len() - 1) as nat
            },
            final(self).mode_view() == old(self).mode_view(),
            final(self).actions_view() == old(self).actions_view(),
    {
        self.state.move_bottom();
    }

    pub fn selected_issue_key(&self) -> (r: Option<&str>)
        ensures
            match r {
                Some(k) => self.state_view().selected_key() == Some(k@),
                None => self.state_view().selected_key() is None,
            },
    {
        self.state.selected_issue_key()
    }

    pub fn set_issues(&mut self, issues: Vec<IssueSummary>)
        requires
            old(self).wf(),
        ensures
            final(self).wf(),
            final(self).state_view().issue_seq() == issues@,
            final(self).state_view().pending() is None,
            final(self).state_view().selected() == if issues@.len() == 0 {
                0
            } else if old(self).state_view().selected() >= issues@.len() {
                (issues@.len() - 1) as nat
            } else {
                old(self).state_view().selected()
            },
            final(self).mode_view() == old(self).mode_view(),
            final(self).actions_view() == old(self).actions_view(),
    {
        self.state.set_issues(issues);
    }

    pub fn state(&self) -> (r: &ConflictsState)
        ensures
            *r == self.state_view(),
    {
        &self.state
    }

    pub fn mode(&self) -> (r: Mode)
        ensures
            r == self.mode_view(),
    {
        self.mode
    }

    pub fn actions(&self) -> (r: &[ActionHint])
        ensures
            r@ == self.actions_view(),
    {
        self.actions.as_slice()
    }

    pub fn name(&self) -> (r: &'static str)
        ensures
            r@ == "Conflicts Screen"@,
    {
        "Conflicts Screen"
    }

    pub fn set_action_hints(&mut self, actions: Vec<ActionHint>)
        ensures
            final(self).actions_view() == actions@,
            final(self).state_view() == old(self).state_view(),
            final(self).mode_view() == old(self).mode_view(),
    {
        self.actions = actions;
    }

    pub fn set_mode(&mut self, mode: Mode)
        ensures
            final(self).mode_view() == mode,
            final(self).state_view() == old(self).state_view(),
            final(self).actions_view() == old(self).actions_view(),
    {
        self.mode = mode;
    }

    /// `:w` stays; `:wq` and `:q` close the screen.
    pub fn handle_command_line(&mut self, cmd: CommandLineCommand) -> (r: ScreenState)
        ensures
            r == if cmd == CommandLineCommand::Write {
                ScreenState::Stay
            } else {
                ScreenState::Close
            },
            *final(self) == *old(self),
    {
        match cmd {
            CommandLineCommand::Write => ScreenState::Stay,
            CommandLineCommand::WriteQuit => ScreenState::Close,
            CommandLineCommand::Quit => ScreenState::Close,
        }
    }

    /// Handles a key command (see `conflicts_outcome`).
    pub fn handle_command(&mut self, command: Command) -> (r: ScreenState)
        requires
            old(self).wf(),
        ensures
            final(self).wf(),
            conflicts_outcome(old(self).state_view(), command, final(self).state_view(), r),
            final(self).mode_view() == old(self).mode_view(),
            final(self).actions_view() == old(self).actions_view(),
    {
        ConflictsController::handle_command(&mut self.state, command)
    }
}

} // verus!
