//! The Issue Detail screen: one issue's fields, description and comments in a
//! scrolled pane, with a comment box and a transition picker.

pub mod view;

use vstd::prelude::*;
use vstd::string::*;

use tui_input::Input;

use crate::input::{
    edited_input, empty_input, input_cursor, input_handle, input_ok, input_text, input_value,
    key_edit, key_edit_of, lemma_edit_keeps_cursor, InputEdit,
};
use crate::interaction::{ActionHint, ActionId, Command, CommandLineCommand, FormPurpose, KeyCode, Mode, ScreenState};
use crate::model::{IssueMutation, IssueSummary, TransitionChoice};
use crate::screens::issue_detail::view::ContentLine;
use crate::text::{trim, trimmed};

verus! {

/// `s` without trailing occurrences of `c`.
pub open spec fn strip_trailing(s: Seq<char>, c: char) -> Seq<char>
    decreases s.len(),
{
    if s.len() > 0 && s.last() == c {
        strip_trailing(s.drop_last(), c)
    } else {
        s
    }
}

/// The page of an issue in Jira's web interface.
pub open spec fn browse_url_for(base_url: Seq<char>, key: Seq<char>) -> Seq<char> {
    strip_trailing(base_url, '/') + "/browse/"@ + key
}

/// Everything the issue detail screen holds, as plain values.
pub struct DetailModel {
    pub issue: Option<IssueSummary>,
    pub unavailable: Option<Seq<char>>,
    pub browse_url: Option<Seq<char>>,
    pub scroll: nat,
    pub max_scroll: nat,
    pub viewport: nat,
    pub horizontal: nat,
    pub cached: Option<Seq<ContentLine>>,
    pub comment: Option<Input>,
    pub transitions: Seq<TransitionChoice>,
    pub transitions_loaded: bool,
    pub transitions_requested: bool,
    pub transition_error: Option<Seq<char>>,
    pub picker_open: bool,
    pub transition_selected: nat,
}

/// The text of an optional string.
pub open spec fn opt_text_view(s: Option<String>) -> Option<Seq<char>> {
    match s {
        Some(t) => Some(t@),
        None => None,
    }
}

/// The issue, its browse link, the scroll position of the detail pane, the
/// comment box and the transition picker.
pub struct IssueDetailState {
    issue: Option<IssueSummary>,
    unavailable_message: Option<String>,
    browse_url: Option<String>,
    scroll_offset: usize,
    max_scroll: usize,
    viewport_height: usize,
    horizontal_offset: usize,
    cached_content: Option<Vec<ContentLine>>,
    comment_input: Option<Input>,
    transitions: Vec<TransitionChoice>,
    transitions_loaded: bool,
    transitions_requested: bool,
    transition_error: Option<String>,
    transition_picker_open: bool,
    transition_selected: usize,
}

/// The pane scrolls within its bounds, the page is at least one row, and the
/// comment cursor lies within the comment.
pub open spec fn model_ok(m: DetailModel) -> bool {
    &&& m.scroll <= m.max_scroll
    &&& m.viewport >= 1
    &&& m.comment matches Some(i) ==> input_ok(i)
}

impl IssueDetailState {
    /// The pane scrolls within its bounds and the comment cursor lies within the
    /// comment.
    pub open spec fn wf(&self) -> bool {
        model_ok(self.model())
    }

    pub closed spec fn model(&self) -> DetailModel {
        DetailModel {
            issue: self.issue,
            unavailable: opt_text_view(self.unavailable_message),
            browse_url: opt_text_view(self.browse_url),
            scroll: self.scroll_offset as nat,
            max_scroll: self.max_scroll as nat,
            viewport: self.viewport_height as nat,
            horizontal: self.horizontal_offset as nat,
            cached: match self.cached_content {
                Some(c) => Some(c@),
                None => None,
            },
            comment: self.comment_input,
            transitions: self.transitions@,
            transitions_loaded: self.transitions_loaded,
            transitions_requested: self.transitions_requested,
            transition_error: opt_text_view(self.transition_error),
            picker_open: self.transition_picker_open,
            transition_selected: self.transition_selected as nat,
        }
    }

    /// The screen for `issue`: its browse link when the base URL is known, and
    /// the picker already open when transitions (or the error loading them) came
    /// with it.
    pub fn new(
        issue: IssueSummary,
        base_url: Option<String>,
        transition_result: Option<Result<Vec<TransitionChoice>, String>>,
    ) -> (r: Self)
        ensures
            r.wf(),
            r.model() == (DetailModel {
                issue: Some(issue),
                unavailable: None,
                browse_url: match base_url {
                    Some(b) => Some(browse_url_for(b@, issue.key@)),
                    None => None,
                },
                scroll: 0,
                max_scroll: 0,
                viewport: 1,
                horizontal: 0,
                cached: None,
                comment: None,
                transitions: match transition_result {
                    Some(Ok(ts)) => ts@,
                    _ => Seq::empty(),
                },
                transitions_loaded: transition_result is Some,
                transitions_requested: false,
                transition_error: match transition_result {
                    Some(Err(e)) => Some(e@),
                    _ => None,
                },
                picker_open: transition_result is Some,
                transition_selected: 0,
            }),
    {
        let browse_url = match base_url {
            Some(b) => Some(browse_link(b.as_str(), issue.key.as_str())),
            None => None,
        };
        let (transitions, transitions_loaded, transition_error, transition_picker_open) = match transition_result {
            Some(Ok(ts)) => (ts, true, None, true),
            Some(Err(e)) => (Vec::new(), true, Some(e), true),
            None => (Vec::new(), false, None, false),
        };
        IssueDetailState {
            issue: Some(issue),
            unavailable_message: None,
            browse_url,
            scroll_offset: 0,
            max_scroll: 0,
            viewport_height: 1,
            horizontal_offset: 0,
            cached_content: None,
            comment_input: None,
            transitions,
            transitions_loaded,
            transitions_requested: false,
            transition_error,
            transition_picker_open,
            transition_selected: 0,
        }
    }

    /// A screen explaining why the issue could not be shown.
    pub fn unavailable(message: String) -> (r: Self)
        ensures
            r.wf(),
            r.model() == (DetailModel {
                issue: None,
                unavailable: Some(message@),
                browse_url: None,
                scroll: 0,
                max_scroll: 0,
                viewport: 1,
                horizontal: 0,
                cached: None,
                comment: None,
                transitions: Seq::empty(),
                transitions_loaded: false,
                transitions_requested: false,
                transition_error: None,
                picker_open: false,
                transition_selected: 0,
            }),
    {
        IssueDetailState {
            issue: None,
            unavailable_message: Some(message),
            browse_url: None,
            scroll_offset: 0,
            max_scroll: 0,
            viewport_height: 1,
            horizontal_offset: 0,
            cached_content: None,
            comment_input: None,
            transitions: Vec::new(),
            transitions_loaded: false,
            transitions_requested: false,
            transition_error: None,
            transition_picker_open: false,
            transition_selected: 0,
        }
    }

    pub fn issue(&self) -> (r: Option<&IssueSummary>)
        ensures
            r == match self.model().issue {
                Some(i) => Some(&i),
                None => None,
            },
    {
        match &self.issue {
            Some(i) => Some(i),
            None => None,
        }
    }

    pub fn issue_key(&self) -> (r: Option<&str>)
        ensures
            match r {
                Some(k) => self.model().issue matches Some(i) && i.key@ == k@,
                None => self.model().issue is None,
            },
    {
        match &self.issue {
            Some(i) => Some(i.key.as_str()),
            None => None,
        }
    }

    pub fn unavailable_message(&self) -> (r: Option<&str>)
        ensures
            match r {
                Some(m) => self.model().unavailable == Some(m@),
                None => self.model().unavailable is None,
            },
    {
        match &self.unavailable_message {
            Some(m) => Some(m.as_str()),
            None => None,
        }
    }

    pub fn browse_url(&self) -> (r: Option<&str>)
        ensures
            match r {
                Some(u) => self.model().browse_url == Some(u@),
                None => self.model().browse_url is None,
            },
    {
        match &self.browse_url {
            Some(u) => Some(u.as_str()),
            None => None,
        }
    }

    pub fn scroll_offset(&self) -> (r: usize)
        ensures
            r == self.model().scroll,
    {
        self.scroll_offset
    }

    /// Scrolls one line down, stopping at the last page.
    pub fn scroll_down(&mut self)
        requires
            old(self).wf(),
        ensures
            final(self).wf(),
            final(self).model() == (DetailModel {
                scroll: down_once(old(self).model().scroll, old(self).model().max_scroll, 1),
                ..old(self).model()
            }),
    {
        self.scroll_offset = if self.scroll_offset < self.max_scroll { self.scroll_offset + 1 } else { self.max_scroll };
    }

    /// Scrolls one line up, stopping at the top.
    pub fn scroll_up(&mut self)
        requires
            old(self).wf(),
        ensures
            final(self).wf(),
            final(self).model() == (DetailModel {
                scroll: up_once(old(self).model().scroll, 1),
                ..old(self).model()
            }),
    {
        self.scroll_offset = if self.scroll_offset > 0 { self.scroll_offset - 1 } else { 0 };
    }

    pub fn scroll_to_top(&mut self)
        requires
            old(self).wf(),
        ensures
            final(self).wf(),
            final(self).model() == (DetailModel { scroll: 0, ..old(self).model() }),
    {
        self.scroll_offset = 0;
    }

    pub fn scroll_to_bottom(&mut self)
        requires
            old(self).wf(),
        ensures
            final(self).wf(),
            final(self).model() == (DetailModel { scroll: old(self).model().max_scroll, ..old(self).model() }),
    {
        self.scroll_offset = self.max_scroll;
    }

    /// Scrolls a page down, stopping at the last page.
    pub fn page_down(&mut self)
        requires
            old(self).wf(),
        ensures
            final(self).wf(),
            final(self).model() == (DetailModel {
                scroll: down_once(old(self).model().scroll, old(self).model().max_scroll, old(self).model().viewport),
                ..old(self).model()
            }),
    {
        let page = self.viewport_height;
        self.scroll_offset = if page <= self.max_scroll - self.scroll_offset {
            self.scroll_offset + page
        } else {
            self.max_scroll
        };
    }

    /// Scrolls a page up, stopping at the top.
    pub fn page_up(&mut self)
        requires
            old(self).wf(),
        ensures
            final(self).wf(),
            final(self).model() == (DetailModel {
                scroll: up_once(old(self).model().scroll, old(self).model().viewport),
                ..old(self).model()
            }),
    {
        let page = self.viewport_height;
        self.scroll_offset = if self.scroll_offset > page { self.scroll_offset - page } else { 0 };
    }

    /// Records the content's height and the pane's height, keeping the scroll
    /// position within the new bounds.
    pub fn update_bounds(&mut self, total_lines: usize, viewport_height: usize)
        requires
            old(self).wf(),
        ensures
            final(self).wf(),
            final(self).model() == (DetailModel {
                viewport: if viewport_height == 0 {
                    1
                } else {
                    viewport_height as nat
                },
                max_scroll: crate::viewport::sat_sub(total_lines as int, viewport_height as int),
                scroll: if old(self).model().scroll <= crate::viewport::sat_sub(
                    total_lines as int,
                    viewport_height as int,
                ) {
                    old(self).model().scroll
                } else {
                    crate::viewport::sat_sub(total_lines as int, viewport_height as int)
                },
                ..old(self).model()
            }),
    {
        let max_scroll = if total_lines > viewport_height { total_lines - viewport_height } else { 0 };
        let scroll = if self.scroll_offset <= max_scroll { self.scroll_offset } else { max_scroll };
        self.scroll_offset = 0;
        self.max_scroll = max_scroll;
        self.scroll_offset = scroll;
        self.viewport_height = if viewport_height == 0 { 1 } else { viewport_height };
    }

    /// Whether the state is well formed (see `wf`); every state the library
    /// hands out is, so a caller outside verified code may check before a call
    /// that needs it.
    pub fn is_wf(&self) -> (r: bool)
        ensures
            r == self.wf(),
    {
        self.scroll_offset <= self.max_scroll && self.viewport_height >= 1 && match &self.comment_input {
            Some(i) => crate::input::input_within(i),
            None => true,
        }
    }

    /// How far down the pane is scrolled, in percent (100 when it cannot scroll).
    pub fn scroll_percentage(&self) -> (r: usize)
        requires
            self.wf(),
        ensures
            r == if self.model().max_scroll == 0 {
                100
            } else {
                self.model().scroll * 100 / self.model().max_scroll
            },
            r <= 100,
    {
        if self.max_scroll == 0 {
            return 100;
        }
        let s = self.scroll_offset as u128;
        let m = self.max_scroll as u128;
        proof {
            assert(s * 100 <= m * 100) by (nonlinear_arith)
                requires
                    s <= m,
            ;
            assert((s * 100) as int / (m as int) <= 100) by (nonlinear_arith)
                requires
                    s * 100 <= m * 100,
                    m > 0,
            ;
        }
        ((s * 100) / m) as usize
    }

    pub fn cached_content(&self) -> (r: Option<&Vec<ContentLine>>)
        ensures
            match r {
                Some(c) => self.model().cached == Some(c@),
                None => self.model().cached is None,
            },
    {
        match &self.cached_content {
            Some(c) => Some(c),
            None => None,
        }
    }

    pub fn cache_content(&mut self, lines: Vec<ContentLine>)
        requires
            old(self).wf(),
        ensures
            final(self).wf(),
            final(self).model() == (DetailModel { cached: Some(lines@), ..old(self).model() }),
    {
        self.cached_content = Some(lines);
    }

    pub fn horizontal_offset(&self) -> (r: usize)
        ensures
            r == self.model().horizontal,
    {
        self.horizontal_offset
    }

    /// Shifts the content four columns left, to show what lies to the right.
    pub fn scroll_right(&mut self)
        requires
            old(self).wf(),
        ensures
            final(self).wf(),
            final(self).model() == (DetailModel {
                horizontal: right_once(old(self).model().horizontal),
                ..old(self).model()
            }),
    {
        self.horizontal_offset = if self.horizontal_offset <= usize::MAX - 4 {
            self.horizontal_offset + 4
        } else {
            usize::MAX
        };
    }

    /// Shifts the content back four columns, stopping at the left edge.
    pub fn scroll_left(&mut self)
        requires
            old(self).wf(),
        ensures
            final(self).wf(),
            final(self).model() == (DetailModel {
                horizontal: up_once(old(self).model().horizontal, 4),
                ..old(self).model()
            }),
    {
        self.horizontal_offset = if self.horizontal_offset > 4 { self.horizontal_offset - 4 } else { 0 };
    }

    pub fn reset_horizontal_scroll(&mut self)
        requires
            old(self).wf(),
        ensures
            final(self).wf(),
            final(self).model() == (DetailModel { horizontal: 0, ..old(self).model() }),
    {
        self.horizontal_offset = 0;
    }

    /// Opens an empty comment box.
    pub fn open_comment_input(&mut self)
        requires
            old(self).wf(),
        ensures
            final(self).wf(),
            final(self).model().comment matches Some(i) && input_text(i) == Seq::<char>::empty()
                && input_cursor(i) == 0,
            final(self).model() == (DetailModel { comment: final(self).model().comment, ..old(self).model() }),
    {
        self.comment_input = Some(empty_input());
    }

    pub fn close_comment_input(&mut self)
        requires
            old(self).wf(),
        ensures
            final(self).wf(),
            final(self).model() == (DetailModel { comment: None, ..old(self).model() }),
    {
        self.comment_input = None;
    }

    pub fn comment_input(&self) -> (r: Option<&Input>)
        ensures
            match r {
                Some(i) => self.model().comment == Some(*i),
                None => self.model().comment is None,
            },
    {
        match &self.comment_input {
            Some(i) => Some(i),
            None => None,
        }
    }

    /// Applies an edit to the comment, when the box is open.
    pub fn handle_comment_input(&mut self, request: InputEdit)
        requires
            old(self).wf(),
        ensures
            final(self).wf(),
            match old(self).model().comment {
                Some(i) => final(self).model().comment matches Some(j) && (input_text(j), input_cursor(j))
                    == edited_input(input_text(i), input_cursor(i), request),
                None => final(self).model().comment is None,
            },
            final(self).model() == (DetailModel { comment: final(self).model().comment, ..old(self).model() }),
    {
        let mut taken = self.comment_input.take();
        match &mut taken {
            Some(input) => {
                proof {
                    lemma_edit_keeps_cursor(input_text(*input), input_cursor(*input), request);
                }
                input_handle(input, request);
            },
            None => {},
        }
        self.comment_input = taken;
    }

    /// The trimmed comment to post, closing the box; `None`, with the box left as
    /// it is, when it is closed or the comment is blank.
    pub fn take_comment(&mut self) -> (r: Option<String>)
        requires
            old(self).wf(),
        ensures
            final(self).wf(),
            match old(self).model().comment {
                Some(i) => if trimmed(input_text(i)).len() == 0 {
                    r is None && final(self).model() == old(self).model()
                } else {
                    r matches Some(body) && body@ == trimmed(input_text(i)) && final(self).model()
                        == (DetailModel { comment: None, ..old(self).model() })
                },
                None => r is None && final(self).model() == old(self).model(),
            },
    {
        let body = match &self.comment_input {
            Some(input) => trim(input_value(input)),
            None => {
                return None;
            },
        };
        if body.as_str().is_empty() {
            return None;
        }
        self.comment_input = None;
        Some(body)
    }

    /// Opens the picker when transitions are loaded, else asks for them.
    pub fn request_transitions(&mut self)
        requires
            old(self).wf(),
        ensures
            final(self).wf(),
            final(self).model() == if old(self).model().transitions_loaded {
                DetailModel { picker_open: true, ..old(self).model() }
            } else {
                DetailModel { transitions_requested: true, ..old(self).model() }
            },
    {
        if self.transitions_loaded {
            self.transition_picker_open = true;
        } else {
            self.transitions_requested = true;
        }
    }

    pub fn transitions_requested(&self) -> (r: bool)
        ensures
            r == self.model().transitions_requested,
    {
        self.transitions_requested
    }

    pub fn transition_picker_open(&self) -> (r: bool)
        ensures
            r == self.model().picker_open,
    {
        self.transition_picker_open
    }

    pub fn transition_error(&self) -> (r: Option<&str>)
        ensures
            match r {
                Some(e) => self.model().transition_error == Some(e@),
                None => self.model().transition_error is None,
            },
    {
        match &self.transition_error {
            Some(e) => Some(e.as_str()),
            None => None,
        }
    }

    pub fn transitions(&self) -> (r: &[TransitionChoice])
        ensures
            r@ == self.model().transitions,
    {
        self.transitions.as_slice()
    }

    pub fn transition_selected(&self) -> (r: usize)
        ensures
            r == self.model().transition_selected,
    {
        self.transition_selected
    }

    /// Highlights the previous transition, stopping at the first.
    pub fn select_previous_transition(&mut self)
        requires
            old(self).wf(),
        ensures
            final(self).wf(),
            final(self).model() == (DetailModel {
                transition_selected: up_once(old(self).model().transition_selected, 1),
                ..old(self).model()
            }),
    {
        self.transition_selected = if self.transition_selected > 0 { self.transition_selected - 1 } else { 0 };
    }

    /// Highlights the next transition, stopping at the last.
    pub fn select_next_transition(&mut self)
        requires
            old(self).wf(),
        ensures
            final(self).wf(),
            final(self).model() == if old(self).model().transitions.len() == 0 {
                old(self).model()
            } else {
                DetailModel {
                    transition_selected: down_once(
                        old(self).model().transition_selected,
                        (old(self).model().transitions.len() - 1) as nat,
                        1,
                    ),
                    ..old(self).model()
                }
            },
    {
        if self.transitions.len() > 0 {
            let last = self.transitions.len() - 1;
            self.transition_selected = if self.transition_selected < last { self.transition_selected + 1 } else { last };
        }
    }

    /// The highlighted transition, if the highlight designates one.
    pub fn selected_transition(&self) -> (r: Option<&TransitionChoice>)
        ensures
            r == if self.model().transition_selected < self.model().transitions.len() {
                Some(&self.model().transitions[self.model().transition_selected as int])
            } else {
                None
            },
    {
        if self.transition_selected < self.transitions.len() {
            Some(&self.transitions[self.transition_selected])
        } else {
            None
        }
    }

    pub fn close_transition_picker(&mut self)
        requires
            old(self).wf(),
        ensures
            final(self).wf(),
            final(self).model() == (DetailModel { picker_open: false, ..old(self).model() }),
    {
        self.transition_picker_open = false;
    }
}

/// What a key does while the comment box is open: Enter posts the trimmed
/// comment (nothing when it is blank), Esc closes the box, and typing edits it.
pub open spec fn comment_outcome(b: DetailModel, c: Command, a: DetailModel, r: ScreenState) -> bool {
    let input = b.comment->0;
    match c.action {
        ActionId::Confirm | ActionId::RawInput(KeyCode::Enter) => match b.issue {
            None => a == b && r == ScreenState::Stay,
            Some(issue) => if trimmed(input_text(input)).len() == 0 {
                a == b && r == ScreenState::Stay
            } else {
                &&& a == (DetailModel { comment: None, ..b })
                &&& r matches ScreenState::Mutate(IssueMutation::Comment { key, body })
                &&& key@ == issue.key@
                &&& body@ == trimmed(input_text(input))
            },
        },
        ActionId::RawInput(KeyCode::Esc) => a == (DetailModel { comment: None, ..b }) && r
            == ScreenState::SwitchMode(Mode::Normal),
        ActionId::RawInput(code) => if key_edit(code) is Some {
            &&& r == ScreenState::Refresh
            &&& a == (DetailModel { comment: a.comment, ..b })
            &&& a.comment matches Some(j) && (input_text(j), input_cursor(j)) == edited_input(
                input_text(input),
                input_cursor(input),
                key_edit(code)->0,
            )
        } else {
            a == b && r == ScreenState::Stay
        },
        _ => a == b && r == ScreenState::Stay,
    }
}

/// What a key does while the transition picker is open: the motions move the
/// highlight, Enter applies the highlighted transition, `q` closes the picker.
pub open spec fn transition_outcome(b: DetailModel, c: Command, a: DetailModel, r: ScreenState) -> bool {
    let len = b.transitions.len();
    match c.action {
        ActionId::MoveUp => r == ScreenState::Refresh && a == (DetailModel {
            transition_selected: stepped_up(b.transition_selected, 1, c.repeat as nat),
            ..b
        }),
        ActionId::MoveDown => r == ScreenState::Refresh && a == if len == 0 {
            b
        } else {
            DetailModel {
                transition_selected: stepped_down(b.transition_selected, (len - 1) as nat, 1, c.repeat as nat),
                ..b
            }
        },
        ActionId::Confirm => a == b && match b.issue {
            None => r == ScreenState::Stay,
            Some(issue) => if b.transition_selected < len {
                let t = b.transitions[b.transition_selected as int];
                r matches ScreenState::Mutate(IssueMutation::Transition { key, id, to_status }) && key@
                    == issue.key@ && id == t.id && to_status == t.to_status
            } else {
                r == ScreenState::Stay
            },
        },
        ActionId::Quit => r == ScreenState::Refresh && a == (DetailModel { picker_open: false, ..b }),
        _ => a == b && r == ScreenState::Stay,
    }
}

/// What a key does on the detail pane itself.
pub open spec fn pane_outcome(b: DetailModel, c: Command, a: DetailModel, r: ScreenState) -> bool {
    let n = c.repeat as nat;
    match c.action {
        ActionId::MoveDown => r == ScreenState::Refresh && a == (DetailModel {
            scroll: stepped_down(b.scroll, b.max_scroll, 1, n),
            ..b
        }),
        ActionId::MoveUp => r == ScreenState::Refresh && a == (DetailModel { scroll: stepped_up(b.scroll, 1, n), ..b }),
        ActionId::MoveTop => r == ScreenState::Refresh && a == (DetailModel { scroll: 0, ..b }),
        ActionId::MoveBottom => r == ScreenState::Refresh && a == (DetailModel { scroll: b.max_scroll, ..b }),
        ActionId::PageDown => r == ScreenState::Refresh && a == (DetailModel {
            scroll: stepped_down(b.scroll, b.max_scroll, b.viewport, n),
            ..b
        }),
        ActionId::PageUp => r == ScreenState::Refresh && a == (DetailModel {
            scroll: stepped_up(b.scroll, b.viewport, n),
            ..b
        }),
        ActionId::OpenInBrowser => a == b && match b.browse_url {
            Some(u) => r matches ScreenState::OpenInBrowser(s) && s@ == u,
            None => r == ScreenState::Stay,
        },
        ActionId::EditIssue => a == b && match b.issue {
            Some(issue) => r matches ScreenState::OpenIssueForm(FormPurpose::Edit(k)) && k@ == issue.key@,
            None => r == ScreenState::Stay,
        },
        ActionId::AddComment => if b.issue is Some {
            &&& r == ScreenState::SwitchMode(Mode::Insert)
            &&& a == (DetailModel { comment: a.comment, ..b })
            &&& a.comment matches Some(j) && input_text(j) == Seq::<char>::empty() && input_cursor(j) == 0
        } else {
            a == b && r == ScreenState::Stay
        },
        ActionId::TransitionIssue => if b.issue is Some {
            r == ScreenState::Refresh && a == if b.transitions_loaded {
                DetailModel { picker_open: true, ..b }
            } else {
                DetailModel { transitions_requested: true, ..b }
            }
        } else {
            a == b && r == ScreenState::Stay
        },
        ActionId::AssignToMe => a == b && match b.issue {
            Some(issue) => r matches ScreenState::Mutate(IssueMutation::AssignToMe { key }) && key@ == issue.key@,
            None => r == ScreenState::Stay,
        },
        ActionId::MoveRight => r == ScreenState::Refresh && a == (DetailModel {
            horizontal: shifted_right(b.horizontal, n),
            ..b
        }),
        ActionId::MoveLeft => r == ScreenState::Refresh && a == (DetailModel {
            horizontal: stepped_up(b.horizontal, 4, n),
            ..b
        }),
        ActionId::MoveLineStart => r == ScreenState::Refresh && a == (DetailModel { horizontal: 0, ..b }),
        ActionId::Quit => a == b && r == ScreenState::Close,
        _ => a == b && r == ScreenState::Stay,
    }
}

/// What a key command does: the comment box, when open, takes it; else the
/// transition picker, when open; else the pane.
pub open spec fn detail_outcome(b: DetailModel, c: Command, a: DetailModel, r: ScreenState) -> bool {
    if b.comment is Some {
        comment_outcome(b, c, a, r)
    } else if b.picker_open {
        transition_outcome(b, c, a, r)
    } else {
        pane_outcome(b, c, a, r)
    }
}

/// Handles commands for the issue detail screen.
pub struct IssueDetailController;

impl IssueDetailController {
    /// Handles a key command (see `detail_outcome`).
    pub fn handle_command(state: &mut IssueDetailState, command: Command) -> (r: ScreenState)
        requires
            old(state).wf(),
        ensures
            final(state).wf(),
            detail_outcome(old(state).model(), command, final(state).model(), r),
    {
        if state.comment_input().is_some() {
            return Self::handle_comment_command(state, command);
        }
        if state.transition_picker_open() {
            return Self::handle_transition_command(state, command);
        }
        let ghost m0 = state.model();
        let n = command.repeat;
        match command.action {
            ActionId::MoveDown => {
                let mut i: usize = 0;
                while i < n
                    invariant
                        i <= n,
                        state.wf(),
                        state.model() == (DetailModel { scroll: stepped_down(m0.scroll, m0.max_scroll, 1, i as nat), ..m0 }),
                    decreases n - i,
                {
                    state.scroll_down();
                    i += 1;
                }
                ScreenState::Refresh
            },
            ActionId::MoveUp => {
                let mut i: usize = 0;
                while i < n
                    invariant
                        i <= n,
                        state.wf(),
                        state.model() == (DetailModel { scroll: stepped_up(m0.scroll, 1, i as nat), ..m0 }),
                    decreases n - i,
                {
                    state.scroll_up();
                    i += 1;
                }
                ScreenState::Refresh
            },
            ActionId::MoveTop => {
                state.scroll_to_top();
                ScreenState::Refresh
            },
            ActionId::MoveBottom => {
                state.scroll_to_bottom();
                ScreenState::Refresh
            },
            ActionId::PageDown => {
                let mut i: usize = 0;
                while i < n
                    invariant
                        i <= n,
                        state.wf(),
                        state.model() == (DetailModel {
                            scroll: stepped_down(m0.scroll, m0.max_scroll, m0.viewport, i as nat),
                            ..m0
                        }),
                    decreases n - i,
                {
                    state.page_down();
                    i += 1;
                }
                ScreenState::Refresh
            },
            ActionId::PageUp => {
                let mut i: usize = 0;
                while i < n
                    invariant
                        i <= n,
                        state.wf(),
                        state.model() == (DetailModel { scroll: stepped_up(m0.scroll, m0.viewport, i as nat), ..m0 }),
                    decreases n - i,
                {
                    state.page_up();
                    i += 1;
                }
                ScreenState::Refresh
            },
            ActionId::OpenInBrowser => match state.browse_url() {
                Some(url) => ScreenState::OpenInBrowser(String::from_str(url)),
                None => ScreenState::Stay,
            },
            ActionId::EditIssue => match state.issue_key() {
                Some(key) => ScreenState::OpenIssueForm(FormPurpose::Edit(String::from_str(key))),
                None => ScreenState::Stay,
            },
            ActionId::AddComment => {
                if state.issue_key().is_some() {
                    state.open_comment_input();
                    ScreenState::SwitchMode(Mode::Insert)
                } else {
                    ScreenState::Stay
                }
            },
            ActionId::TransitionIssue => {
                if state.issue_key().is_some() {
                    state.request_transitions();
                    ScreenState::Refresh
                } else {
                    ScreenState::Stay
                }
            },
            ActionId::AssignToMe => match state.issue_key() {
                Some(key) => ScreenState::Mutate(IssueMutation::AssignToMe { key: String::from_str(key) }),
                None => ScreenState::Stay,
            },
            ActionId::MoveRight => {
                let mut i: usize = 0;
                while i < n
                    invariant
                        i <= n,
                        state.wf(),
                        state.model() == (DetailModel { horizontal: shifted_right(m0.horizontal, i as nat), ..m0 }),
                    decreases n - i,
                {
                    state.scroll_right();
                    i += 1;
                }
                ScreenState::Refresh
            },
            ActionId::MoveLeft => {
                let mut i: usize = 0;
                while i < n
                    invariant
                        i <= n,
                        state.wf(),
                        state.model() == (DetailModel { horizontal: stepped_up(m0.horizontal, 4, i as nat), ..m0 }),
                    decreases n - i,
                {
                    state.scroll_left();
                    i += 1;
                }
                ScreenState::Refresh
            },
            ActionId::MoveLineStart => {
                state.reset_horizontal_scroll();
                ScreenState::Refresh
            },
            ActionId::Quit => ScreenState::Close,
            _ => ScreenState::Stay,
        }
    }

    fn handle_comment_command(state: &mut IssueDetailState, command: Command) -> (r: ScreenState)
        requires
            old(state).wf(),
            old(state).model().comment is Some,
        ensures
            final(state).wf(),
            comment_outcome(old(state).model(), command, final(state).model(), r),
    {
        match command.action {
            ActionId::Confirm | ActionId::RawInput(KeyCode::Enter) => {
                let key = match state.issue_key() {
                    Some(k) => String::from_str(k),
                    None => {
                        return ScreenState::Stay;
                    },
                };
                match state.take_comment() {
                    Some(body) => ScreenState::Mutate(IssueMutation::Comment { key, body }),
                    None => ScreenState::Stay,
                }
            },
            ActionId::RawInput(KeyCode::Esc) => {
                state.close_comment_input();
                ScreenState::SwitchMode(Mode::Normal)
            },
            ActionId::RawInput(code) => match key_edit_of(code) {
                Some(edit) => {
                    state.handle_comment_input(edit);
                    ScreenState::Refresh
                },
                None => ScreenState::Stay,
            },
            _ => ScreenState::Stay,
        }
    }

    fn handle_transition_command(state: &mut IssueDetailState, command: Command) -> (r: ScreenState)
        requires
            old(state).wf(),
        ensures
            final(state).wf(),
            transition_outcome(old(state).model(), command, final(state).model(), r),
    {
        let ghost m0 = state.model();
        let n = command.repeat;
        match command.action {
            ActionId::MoveUp => {
                let mut i: usize = 0;
                while i < n
                    invariant
                        i <= n,
                        state.wf(),
                        state.model() == (DetailModel {
                            transition_selected: stepped_up(m0.transition_selected, 1, i as nat),
                            ..m0
                        }),
                    decreases n - i,
                {
                    state.select_previous_transition();
                    i += 1;
                }
                ScreenState::Refresh
            },
            ActionId::MoveDown => {
                let mut i: usize = 0;
                while i < n
                    invariant
                        i <= n,
                        state.wf(),
                        state.model() == if m0.transitions.len() == 0 {
                            m0
                        } else {
                            DetailModel {
                                transition_selected: stepped_down(
                                    m0.transition_selected,
                                    (m0.transitions.len() - 1) as nat,
                                    1,
                                    i as nat,
                                ),
                                ..m0
                            }
                        },
                    decreases n - i,
                {
                    state.select_next_transition();
                    i += 1;
                }
                ScreenState::Refresh
            },
            ActionId::Confirm => {
                let key = match state.issue_key() {
                    Some(k) => String::from_str(k),
                    None => {
                        return ScreenState::Stay;
                    },
                };
                match state.selected_transition() {
                    Some(t) => ScreenState::Mutate(
                        IssueMutation::Transition { key, id: t.id.clone(), to_status: t.to_status.clone() },
                    ),
                    None => ScreenState::Stay,
                }
            },
            ActionId::Quit => {
                state.close_transition_picker();
                ScreenState::Refresh
            },
            _ => ScreenState::Stay,
        }
    }
}

/// The issue detail screen: its state, the key hints it shows and the mode.
pub struct IssueDetailScreen {
    state: IssueDetailState,
    actions: Vec<ActionHint>,
    mode: Mode,
}

impl IssueDetailScreen {
    pub closed spec fn state_view(&self) -> IssueDetailState {
        self.state
    }

    pub closed spec fn actions_view(&self) -> Seq<ActionHint> {
        self.actions@
    }

    pub closed spec fn mode_view(&self) -> Mode {
        self.mode
    }

    pub open spec fn wf(&self) -> bool {
        self.state_view().wf()
    }

    /// The screen for `issue` (see `IssueDetailState::new`).
    pub fn new(
        issue: IssueSummary,
        mode: Mode,
        base_url: Option<String>,
        transition_result: Option<Result<Vec<TransitionChoice>, String>>,
    ) -> (r: Self)
        ensures
            r.wf(),
            r.state_view().model().issue == Some(issue),
            r.state_view().model().browse_url == match base_url {
                Some(b) => Some(browse_url_for(b@, issue.key@)),
                None => None,
            },
            r.state_view().model().picker_open == transition_result is Some,
            r.state_view().model().transitions_loaded == transition_result is Some,
            r.state_view().model().comment is None,
            r.mode_view() == mode,
            r.actions_view().len() == 0,
    {
        IssueDetailScreen { state: IssueDetailState::new(issue, base_url, transition_result), actions: Vec::new(), mode }
    }

    /// The screen explaining why an issue could not be shown.
    pub fn unavailable(message: String, mode: Mode) -> (r: Self)
        ensures
            r.wf(),
            r.state_view().model().issue is None,
            r.state_view().model().unavailable == Some(message@),
            r.mode_view() == mode,
            r.actions_view().len() == 0,
    {
        IssueDetailScreen { state: IssueDetailState::unavailable(message), actions: Vec::new(), mode }
    }

    /// Whether the screen waits for the issue's transitions to be loaded.
    pub fn transitions_requested(&self) -> (r: bool)
        ensures
            r == self.state_view().model().transitions_requested,
    {
        self.state.transitions_requested()
    }

    pub fn state(&self) -> (r: &IssueDetailState)
        ensures
            *r == self.state_view(),
    {
        &self.state
    }

    pub fn state_mut(&mut self) -> (r: &mut IssueDetailState)
        ensures
            *r == old(self).state_view(),
            final(self).state_view() == *final(r),
            final(self).mode_view() == old(self).mode_view(),
            final(self).actions_view() == old(self).actions_view(),
    {
        &mut self.state
    }

    pub fn actions(&self) -> (r: &[ActionHint])
        ensures
            r@ == self.actions_view(),
    {
        self.actions.as_slice()
    }

    pub fn mode(&self) -> (r: Mode)
        ensures
            r == self.mode_view(),
    {
        self.mode
    }

    pub fn name(&self) -> (r: &'static str)
        ensures
            r@ == "Issue Detail"@,
    {
        "Issue Detail"
    }

    pub fn set_action_hints(&mut self, actions: Vec<ActionHint>)
        ensures
            final(self).actions_view() == actions@,
            final(self).state_view() == old(self).state_view(),
            final(self).mode_view() == old(self).mode_view(),
    {
        self.actions = actions;
    }

    pub fn set_mode(&mut self, mode: Mode)
        ensures
            final(self).mode_view() == mode,
            final(self).state_view() == old(self).state_view(),
            final(self).actions_view() == old(self).actions_view(),
    {
        self.mode = mode;
    }

    /// `:w` stays; `:wq` and `:q` close the screen.
    pub fn handle_command_line(&mut self, cmd: CommandLineCommand) -> (r: ScreenState)
        ensures
            r == if cmd == CommandLineCommand::Write {
                ScreenState::Stay
            } else {
                ScreenState::Close
            },
            *final(self) == *old(self),
    {
        match cmd {
            CommandLineCommand::Write => ScreenState::Stay,
            CommandLineCommand::WriteQuit => ScreenState::Close,
            CommandLineCommand::Quit => ScreenState::Close,
        }
    }

    /// Handles a key command (see `detail_outcome`).
    pub fn handle_command(&mut self, command: Command) -> (r: ScreenState)
        requires
            old(self).wf(),
        ensures
            final(self).wf(),
            detail_outcome(old(self).state_view().model(), command, final(self).state_view().model(), r),
            final(self).mode_view() == old(self).mode_view(),
            final(self).actions_view() == old(self).actions_view(),
    {
        IssueDetailController::handle_command(&mut self.state, command)
    }
}

/// The link to an issue's page: the base URL without trailing slashes, then
/// "/browse/" and the key.
fn browse_link(base_url: &str, key: &str) -> (r: String)
    ensures
        r@ == browse_url_for(base_url@, key@),
{
    let cs = crate::text::chars_of(base_url);
    let mut end: usize = cs.len();
    proof {
        assert(cs@.take(cs@.len() as int) =~= cs@);
    }
    while end > 0 && cs[end - 1] == '/'
        invariant
            end <= cs@.len(),
            strip_trailing(cs@, '/') == strip_trailing(cs@.take(end as int), '/'),
        decreases end,
    {
        proof {
            assert(cs@.take(end as int).drop_last() =~= cs@.take(end - 1));
        }
        end -= 1;
    }
    proof {
        assert(cs@.take(end as int) =~= cs@.take(end as int));
        assert(cs@.take(cs@.len() as int) =~= cs@);
    }
    let mut link = crate::text::string_of(vstd::slice::slice_subrange(cs.as_slice(), 0, end));
    link.append("/browse/");
    link.append(key);
    link
}

/// A position moved by `step` towards `max`, stopping there.
pub open spec fn down_once(s: nat, max: nat, step: nat) -> nat {
    if s + step <= max {
        s + step
    } else {
        max
    }
}

/// A position moved back by `step`, stopping at 0.
pub open spec fn up_once(s: nat, step: nat) -> nat {
    if s > step {
        (s - step) as nat
    } else {
        0
    }
}

/// A horizontal offset moved four columns right, saturating.
pub open spec fn right_once(h: nat) -> nat {
    if h + 4 <= usize::MAX {
        h + 4
    } else {
        usize::MAX as nat
    }
}

/// A position moved `n` times by `step` towards `max`.
pub open spec fn stepped_down(s: nat, max: nat, step: nat, n: nat) -> nat
    decreases n,
{
    if n == 0 {
        s
    } else {
        down_once(stepped_down(s, max, step, (n - 1) as nat), max, step)
    }
}

/// A position moved `n` times back by `step`.
pub open spec fn stepped_up(s: nat, step: nat, n: nat) -> nat
    decreases n,
{
    if n == 0 {
        s
    } else {
        up_once(stepped_up(s, step, (n - 1) as nat), step)
    }
}

/// A horizontal offset moved `n` times four columns right.
pub open spec fn shifted_right(h: nat, n: nat) -> nat
    decreases n,
{
    if n == 0 {
        h
    } else {
        right_once(shifted_right(h, (n - 1) as nat))
    }
}

} // verus!
