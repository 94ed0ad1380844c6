//! The issue, profile and mutation records the screens work on, and the
//! field-by-field comparison of a local issue with its remote snapshot.

use vstd::prelude::*;
use vstd::string::*;

verus! {

/// A comment on an issue, as cached locally.
#[derive(Clone, Debug, PartialEq, Eq)]
pub struct IssueComment {
    pub id: String,
    pub author: String,
    pub body: String,
    pub created_at: Option<String>,
    pub conflict: bool,
    /// The remote version of the comment, present when a pull found it diverged.
    pub remote_snapshot: Option<CommentSnapshot>,
}

/// The remote state of a comment at the time a conflict was detected.
#[derive(Clone, Debug, PartialEq, Eq)]
pub struct CommentSnapshot {
    pub body: String,
}

/// The remote state of an issue at the time a conflict was detected.
#[derive(Clone, Debug, PartialEq, Eq)]
pub struct IssueSnapshot {
    pub summary: String,
    pub status: String,
    pub priority: String,
    pub assignee: String,
    pub description: Option<String>,
}

/// A locally cached issue.
#[derive(Clone, Debug, PartialEq, Eq)]
pub struct IssueSummary {
    pub key: String,
    pub summary: String,
    pub status: String,
    pub issue_type: String,
    pub assignee: String,
    pub priority: String,
    pub epic: Option<String>,
    pub description: Option<String>,
    pub project_key: Option<String>,
    pub parent_key: Option<String>,
    pub labels: Vec<String>,
    pub fix_versions: Vec<String>,
    /// The story points as the detail pane shows them (the number in its plain
    /// decimal form), when the issue is estimated.
    pub story_points: Option<String>,
    /// The story points as the sprint pop-up shows them (whole numbers without a
    /// fraction, others to one decimal place), when the issue is estimated.
    pub story_points_short: Option<String>,
    pub comments: Vec<IssueComment>,
    /// Local edits not yet pushed.
    pub dirty: bool,
    /// A pull found the remote issue diverged from the local one.
    pub conflict: bool,
    /// The remote version of the issue, present when `conflict` was detected.
    pub remote_snapshot: Option<IssueSnapshot>,
}

/// One field whose local and remote values differ.
#[derive(Clone, Debug, PartialEq, Eq)]
pub struct DiffEntry {
    pub field: String,
    pub local: String,
    pub remote: String,
}

impl View for DiffEntry {
    type V = (Seq<char>, Seq<char>, Seq<char>);

    open spec fn view(&self) -> (Seq<char>, Seq<char>, Seq<char>) {
        (self.field@, self.local@, self.remote@)
    }
}

/// The views of a list of diff entries.
pub open spec fn diff_views(entries: Seq<DiffEntry>) -> Seq<(Seq<char>, Seq<char>, Seq<char>)> {
    entries.map_values(|d: DiffEntry| d@)
}

/// One diff row when `local` and `remote` differ, none when they agree.
pub open spec fn field_diff(field: Seq<char>, local: Seq<char>, remote: Seq<char>) -> Seq<
    (Seq<char>, Seq<char>, Seq<char>),
> {
    if local == remote {
        seq![]
    } else {
        seq![(field, local, remote)]
    }
}

/// The text of an optional string, empty when absent.
pub open spec fn opt_text(s: Option<String>) -> Seq<char> {
    match s {
        Some(t) => t@,
        None => Seq::empty(),
    }
}

/// The differing fields of an issue and its remote snapshot, in display order.
pub open spec fn issue_diff(issue: IssueSummary, snapshot: IssueSnapshot) -> Seq<
    (Seq<char>, Seq<char>, Seq<char>),
> {
    field_diff("Summary"@, issue.summary@, snapshot.summary@) + field_diff(
        "Status"@,
        issue.status@,
        snapshot.status@,
    ) + field_diff("Priority"@, issue.priority@, snapshot.priority@) + field_diff(
        "Assignee"@,
        issue.assignee@,
        snapshot.assignee@,
    ) + field_diff("Description"@, opt_text(issue.description), opt_text(snapshot.description))
}

/// The differing fields of a comment and its remote snapshot.
pub open spec fn comment_diff(comment: IssueComment, snapshot: CommentSnapshot) -> Seq<
    (Seq<char>, Seq<char>, Seq<char>),
> {
    field_diff("Body"@, comment.body@, snapshot.body@)
}

/// Copies an optional string.
pub fn opt_string_clone(s: &Option<String>) -> (r: Option<String>)
    ensures
        r == *s,
{
    match s {
        Some(t) => Some(t.clone()),
        None => None,
    }
}

/// The text of an optional string, empty when absent.
fn opt_string_text(s: &Option<String>) -> (r: String)
    ensures
        r@ == opt_text(*s),
{
    match s {
        Some(t) => t.clone(),
        None => String::new(),
    }
}

/// Appends a diff row to `out` when the two values differ.
fn push_field_diff(out: &mut Vec<DiffEntry>, field: &str, local: String, remote: String)
    ensures
        diff_views(final(out)@) == diff_views(old(out)@) + field_diff(field@, local@, remote@),
{
    let ghost before = out@;
    if local != remote {
        out.push(DiffEntry { field: String::from_str(field), local, remote });
        assert(diff_views(out@) =~= diff_views(before) + field_diff(field@, local@, remote@));
    } else {
        assert(diff_views(out@) =~= diff_views(before) + field_diff(field@, local@, remote@));
    }
}

/// Lists the fields of `issue` whose local value differs from `snapshot`.
pub fn diff_issue(issue: &IssueSummary, snapshot: &IssueSnapshot) -> (r: Vec<DiffEntry>)
    ensures
        diff_views(r@) == issue_diff(*issue, *snapshot),
{
    let mut out: Vec<DiffEntry> = Vec::new();
    assert(diff_views(out@) =~= Seq::empty());
    push_field_diff(&mut out, "Summary", issue.summary.clone(), snapshot.summary.clone());
    push_field_diff(&mut out, "Status", issue.status.clone(), snapshot.status.clone());
    push_field_diff(&mut out, "Priority", issue.priority.clone(), snapshot.priority.clone());
    push_field_diff(&mut out, "Assignee", issue.assignee.clone(), snapshot.assignee.clone());
    push_field_diff(
        &mut out,
        "Description",
        opt_string_text(&issue.description),
        opt_string_text(&snapshot.description),
    );
    assert(diff_views(out@) =~= issue_diff(*issue, *snapshot));
    out
}

/// Lists the fields of `comment` whose local value differs from `snapshot`.
pub fn diff_comment(comment: &IssueComment, snapshot: &CommentSnapshot) -> (r: Vec<DiffEntry>)
    ensures
        diff_views(r@) == comment_diff(*comment, *snapshot),
{
    let mut out: Vec<DiffEntry> = Vec::new();
    assert(diff_views(out@) =~= Seq::empty());
    push_field_diff(&mut out, "Body", comment.body.clone(), snapshot.body.clone());
    assert(diff_views(out@) =~= comment_diff(*comment, *snapshot));
    out
}

/// A new issue to create in Jira.
#[derive(Clone, Debug, PartialEq, Eq)]
pub struct IssueDraft {
    pub project_key: String,
    pub issue_type: String,
    pub summary: String,
    pub description: Option<String>,
}

/// The fields of an existing issue to change; `None` leaves a field as it is.
#[derive(Clone, Debug, PartialEq, Eq)]
pub struct IssuePatch {
    pub summary: Option<String>,
    pub description: Option<String>,
    pub priority: Option<String>,
}

impl IssuePatch {
    /// True when the patch changes nothing.
    pub fn is_empty(&self) -> (r: bool)
        ensures
            r == (self.summary is None && self.description is None && self.priority is None),
    {
        self.summary.is_none() && self.description.is_none() && self.priority.is_none()
    }
}

/// A change to Jira data requested by a screen.
#[derive(Clone, Debug, PartialEq, Eq)]
pub enum IssueMutation {
    Create(IssueDraft),
    Patch { key: String, patch: IssuePatch },
    Comment { key: String, body: String },
    Transition { key: String, id: String, to_status: String },
    AssignToMe { key: String },
}

/// A workflow transition offered for an issue.
#[derive(Clone, Debug, PartialEq, Eq)]
pub struct TransitionChoice {
    pub id: String,
    pub name: String,
    pub to_status: String,
}

/// A Jira board the user can pick.
#[derive(Clone, Debug, PartialEq, Eq)]
pub struct BoardSummary {
    pub id: u64,
    pub name: String,
    pub board_type: Option<String>,
}

/// Connection settings of a Jira profile.
#[derive(Clone, Debug, PartialEq, Eq)]
pub struct JiraConfig {
    pub base_url: String,
    pub username: String,
    pub api_token: String,
}

/// A saved Jira profile.
#[derive(Clone, Debug, PartialEq, Eq)]
pub struct ProfileConfig {
    pub id: String,
    pub name: String,
    pub jira: JiraConfig,
    pub sync_mode: Option<String>,
}

/// The loaded application configuration.
#[derive(Clone, Debug, PartialEq, Eq)]
pub struct AppConfig {
    pub profiles: Vec<ProfileConfig>,
}

/// The configuration as found at start-up.
#[derive(Clone, Debug, PartialEq, Eq)]
pub enum AppConfigState {
    Loaded(AppConfig),
    /// No configuration file exists at the given path.
    Missing(String),
}

/// An error shown to the user in a modal.
#[derive(Clone, Debug, PartialEq, Eq)]
pub struct AppErrorState {
    pub title: String,
    pub message: String,
}

impl AppErrorState {
    /// Creates an error with a title and a message.
    pub fn new(title: &str, message: String) -> (r: Self)
        ensures
            r.title@ == title@,
            r.message == message,
    {
        AppErrorState { title: String::from_str(title), message }
    }
}

} // verus!
