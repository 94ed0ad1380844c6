//! What the conflicts screen lists and tabulates: one line per conflicting
//! issue, and the rows of the issue and comment diff tables.

use vstd::prelude::*;
use vstd::string::*;

use crate::model::{diff_views, DiffEntry, IssueComment};
use crate::screens::conflicts::{comment_diff_views, CommentDiff, ConflictsState};

verus! {

/// How a diff table row is shown.
#[derive(Clone, Copy, Debug, PartialEq, Eq, Structural)]
pub enum DiffRowKind {
    /// The heading of a comment's rows.
    Label,
    /// The placeholder of a table without differences.
    NoChanges,
    /// A field whose values differ.
    Change,
}

/// One row of a diff table.
#[derive(Clone, Debug, PartialEq, Eq)]
pub struct DiffRow {
    pub kind: DiffRowKind,
    pub field: String,
    pub local: String,
    pub remote: String,
}

impl View for DiffRow {
    type V = (DiffRowKind, Seq<char>, Seq<char>, Seq<char>);

    open spec fn view(&self) -> Self::V {
        (self.kind, self.field@, self.local@, self.remote@)
    }
}

/// The views of a list of rows.
pub open spec fn row_views(rows: Seq<DiffRow>) -> Seq<(DiffRowKind, Seq<char>, Seq<char>, Seq<char>)> {
    rows.map_values(|r: DiffRow| r@)
}

/// The rows of one diff: an optional heading, then one row per differing field,
/// or a "No changes" row when nothing differs.
pub open spec fn diff_rows(
    diffs: Seq<(Seq<char>, Seq<char>, Seq<char>)>,
    label: Option<Seq<char>>,
) -> Seq<(DiffRowKind, Seq<char>, Seq<char>, Seq<char>)> {
    let head = match label {
        Some(l) => seq![(DiffRowKind::Label, l, Seq::<char>::empty(), Seq::<char>::empty())],
        None => seq![],
    };
    head + if diffs.len() == 0 {
        seq![(DiffRowKind::NoChanges, "No changes"@, Seq::<char>::empty(), Seq::<char>::empty())]
    } else {
        diffs.map_values(|d: (Seq<char>, Seq<char>, Seq<char>)| (DiffRowKind::Change, d.0, d.1, d.2))
    }
}

/// The rows of the comment table: each comment's rows under a "Comment <id>"
/// heading, in order.
pub open spec fn comment_rows(cs: Seq<(Seq<char>, Seq<(Seq<char>, Seq<char>, Seq<char>)>)>) -> Seq<
    (DiffRowKind, Seq<char>, Seq<char>, Seq<char>),
>
    decreases cs.len(),
{
    if cs.len() == 0 {
        seq![]
    } else {
        comment_rows(cs.drop_last()) + diff_rows(cs.last().1, Some("Comment "@ + cs.last().0))
    }
}

/// How many comments are marked in conflict.
pub open spec fn conflict_count(cs: Seq<IssueComment>) -> nat
    decreases cs.len(),
{
    if cs.len() == 0 {
        0
    } else {
        conflict_count(cs.drop_last()) + if cs.last().conflict {
            1nat
        } else {
            0nat
        }
    }
}

/// One line of the issue list: "<key> <summary>", whether the issue itself
/// conflicts, and how many of its comments do.
#[derive(Clone, Debug, PartialEq, Eq)]
pub struct ConflictListItem {
    pub text: String,
    pub issue_conflict: bool,
    pub conflicting_comments: usize,
}

/// Lays out the conflicts screen's lists and tables; drawing them belongs to the
/// terminal front end.
pub struct ConflictsView;

impl ConflictsView {
    /// The lines of the issue list, one per issue.
    pub fn list_items(state: &ConflictsState) -> (r: Vec<ConflictListItem>)
        ensures
            r@.len() == state.issue_seq().len(),
            forall|i: int|
                0 <= i < r@.len() ==> {
                    let issue = #[trigger] state.issue_seq()[i];
                    &&& r@[i].text@ == issue.key@ + " "@ + issue.summary@
                    &&& r@[i].issue_conflict == issue.conflict
                    &&& r@[i].conflicting_comments == conflict_count(issue.comments@)
                },
    {
        let issues = state.issues();
        let mut items: Vec<ConflictListItem> = Vec::new();
        let mut i: usize = 0;
        while i < issues.len()
            invariant
                i <= issues@.len(),
                issues@ == state.issue_seq(),
                items@.len() == i,
                forall|j: int|
                    0 <= j < i ==> {
                        let issue = #[trigger] issues@[j];
                        &&& items@[j].text@ == issue.key@ + " "@ + issue.summary@
                        &&& items@[j].issue_conflict == issue.conflict
                        &&& items@[j].conflicting_comments == conflict_count(issue.comments@)
                    },
            decreases issues@.len() - i,
        {
            let issue = &issues[i];
            let mut text = issue.key.clone();
            text.append(" ");
            text.append(issue.summary.as_str());
            let count = count_conflicts(issue.comments.as_slice());
            items.push(ConflictListItem { text, issue_conflict: issue.conflict, conflicting_comments: count });
            i += 1;
        }
        items
    }

    /// The rows of the issue diff table.
    pub fn issue_diff_rows(state: &ConflictsState) -> (r: Vec<DiffRow>)
        ensures
            row_views(r@) == diff_rows(state.issue_diff_view(), None),
    {
        let mut rows: Vec<DiffRow> = Vec::new();
        push_diff_rows(&mut rows, state.issue_diffs(), None);
        assert(row_views(rows@) =~= diff_rows(state.issue_diff_view(), None));
        rows
    }

    /// The rows of the comment diff table: "No changes" when no comment conflicts.
    pub fn comment_diff_rows(diffs: &[CommentDiff]) -> (r: Vec<DiffRow>)
        ensures
            row_views(r@) == if diffs@.len() == 0 {
                diff_rows(seq![], None)
            } else {
                comment_rows(comment_diff_views(diffs@))
            },
    {
        let mut rows: Vec<DiffRow> = Vec::new();
        if diffs.len() == 0 {
            let empty: Vec<DiffEntry> = Vec::new();
            push_diff_rows(&mut rows, empty.as_slice(), None);
            assert(diff_views(empty@) =~= seq![]);
            assert(row_views(rows@) =~= diff_rows(seq![], None));
            return rows;
        }
        let mut i: usize = 0;
        assert(row_views(rows@) =~= comment_rows(comment_diff_views(diffs@.take(0))));
        while i < diffs.len()
            invariant
                i <= diffs@.len(),
                row_views(rows@) == comment_rows(comment_diff_views(diffs@.take(i as int))),
            decreases diffs@.len() - i,
        {
            let mut label = String::from_str("Comment ");
            label.append(diffs[i].id.as_str());
            let ghost before = rows@;
            push_diff_rows(&mut rows, diffs[i].diffs.as_slice(), Some(label));
            proof {
                let cs = comment_diff_views(diffs@.take(i + 1));
                assert(cs.drop_last() =~= comment_diff_views(diffs@.take(i as int)));
                assert(cs.last() == diffs@[i as int]@);
            }
            i += 1;
        }
        assert(diffs@.take(diffs@.len() as int) =~= diffs@);
        rows
    }
}

/// How many of `comments` are marked in conflict.
fn count_conflicts(comments: &[IssueComment]) -> (r: usize)
    ensures
        r == conflict_count(comments@),
{
    let mut n: usize = 0;
    let mut i: usize = 0;
    while i < comments.len()
        invariant
            i <= comments@.len(),
            n == conflict_count(comments@.take(i as int)),
            n <= i,
        decreases comments@.len() - i,
    {
        proof {
            assert(comments@.take(i + 1).drop_last() =~= comments@.take(i as int));
        }
        if comments[i].conflict {
            n += 1;
        }
        i += 1;
    }
    assert(comments@.take(comments@.len() as int) =~= comments@);
    n
}

/// Appends the rows of one diff (see `diff_rows`).
fn push_diff_rows(rows: &mut Vec<DiffRow>, diffs: &[DiffEntry], label: Option<String>)
    ensures
        row_views(final(rows)@) == row_views(old(rows)@) + diff_rows(
            diff_views(diffs@),
            match label {
                Some(l) => Some(l@),
                None => None,
            },
        ),
{
    let ghost start = rows@;
    let ghost head: Seq<(DiffRowKind, Seq<char>, Seq<char>, Seq<char>)> = if label is Some {
        seq![(DiffRowKind::Label, label->0@, Seq::<char>::empty(), Seq::<char>::empty())]
    } else {
        seq![]
    };
    match label {
        Some(l) => {
            rows.push(DiffRow { kind: DiffRowKind::Label, field: l, local: String::new(), remote: String::new() });
        },
        None => {},
    }
    assert(row_views(rows@) =~= row_views(start) + head);
    if diffs.len() == 0 {
        rows.push(
            DiffRow {
                kind: DiffRowKind::NoChanges,
                field: String::from_str("No changes"),
                local: String::new(),
                remote: String::new(),
            },
        );
        assert(row_views(rows@) =~= row_views(start) + head + seq![
            (DiffRowKind::NoChanges, "No changes"@, Seq::<char>::empty(), Seq::<char>::empty()),
        ]);
        return;
    }
    let ghost mid = rows@;
    let mut i: usize = 0;
    while i < diffs.len()
        invariant
            i <= diffs@.len(),
            rows@.len() == mid.len() + i,
            rows@.subrange(0, mid.len() as int) == mid,
            forall|j: int|
                0 <= j < i ==> #[trigger] rows@[mid.len() + j]@ == (
                    DiffRowKind::Change,
                    diffs@[j].field@,
                    diffs@[j].local@,
                    diffs@[j].remote@,
                ),
        decreases diffs@.len() - i,
    {
        let d = &diffs[i];
        rows.push(
            DiffRow {
                kind: DiffRowKind::Change,
                field: d.field.clone(),
                local: d.local.clone(),
                remote: d.remote.clone(),
            },
        );
        i += 1;
    }
    let ghost changes = diff_views(diffs@).map_values(
        |d: (Seq<char>, Seq<char>, Seq<char>)| (DiffRowKind::Change, d.0, d.1, d.2),
    );
    let ghost target = row_views(mid) + changes;
    assert forall|k: int| 0 <= k < rows@.len() implies #[trigger] row_views(rows@)[k] == target[k] by {
        if k < mid.len() {
            assert(rows@.subrange(0, mid.len() as int)[k] == rows@[k]);
        } else {
            assert(rows@[mid.len() + (k - mid.len())]@ == changes[k - mid.len()]);
        }
    }
    assert(row_views(rows@) =~= target);
    assert(row_views(start) + head + changes =~= target);
}

} // verus!
