//! The Board Selection screen: the Jira boards to choose from, each labelled with
//! its type.

use vstd::prelude::*;
use vstd::string::*;

use crate::interaction::{ActionHint, ActionId, Command, CommandLineCommand, Mode, ScreenState};
use crate::model::BoardSummary;
use crate::viewport::{index_down, index_up, step_down, step_up};

verus! {

/// The label of a board: its name, followed by its type in brackets when known.
pub open spec fn board_label(b: BoardSummary) -> Seq<char> {
    match b.board_type {
        Some(t) => b.name@ + " ("@ + t@ + ")"@,
        None => b.name@,
    }
}

/// The texts of a list of strings.
pub open spec fn label_texts(items: Seq<String>) -> Seq<Seq<char>> {
    items.map_values(|s: String| s@)
}

/// The message shown above the boards.
pub open spec fn boards_message(boards: Seq<BoardSummary>) -> Seq<char> {
    if boards.len() == 0 {
        Seq::empty()
    } else {
        "Select a board to continue"@
    }
}

/// The boards' labels, their ids, the selection and the message.
pub struct BoardSelectionState {
    list_items: Vec<String>,
    board_ids: Vec<u64>,
    selected_index: usize,
    message: String,
}

impl BoardSelectionState {
    pub closed spec fn labels(&self) -> Seq<Seq<char>> {
        label_texts(self.list_items@)
    }

    pub closed spec fn ids(&self) -> Seq<u64> {
        self.board_ids@
    }

    pub closed spec fn selected(&self) -> nat {
        self.selected_index as nat
    }

    pub closed spec fn message_view(&self) -> Seq<char> {
        self.message@
    }

    /// The list for `boards`, the first one selected.
    pub fn new(boards: Vec<BoardSummary>) -> (r: Self)
        ensures
            r.labels() == boards@.map_values(|b: BoardSummary| board_label(b)),
            r.ids() == boards@.map_values(|b: BoardSummary| b.id),
            r.selected() == 0,
            r.message_view() == boards_message(boards@),
    {
        let (labels, board_ids, message) = build_entries(boards);
        BoardSelectionState { list_items: labels, board_ids, selected_index: 0, message }
    }

    /// The labels of the boards.
    pub fn list_items(&self) -> (r: &[String])
        ensures
            label_texts(r@) == self.labels(),
    {
        self.list_items.as_slice()
    }

    pub fn selected_index(&self) -> (r: usize)
        ensures
            r == self.selected(),
    {
        self.selected_index
    }

    pub fn message(&self) -> (r: &str)
        ensures
            r@ == self.message_view(),
    {
        self.message.as_str()
    }

    pub fn is_empty(&self) -> (r: bool)
        ensures
            r == (self.labels().len() == 0),
    {
        self.list_items.len() == 0
    }

    /// The id of the selected board, if the selection designates one.
    pub fn selected_board_id(&self) -> (r: Option<u64>)
        ensures
            r == if self.selected() < self.ids().len() {
                Some(self.ids()[self.selected() as int])
            } else {
                None
            },
    {
        if self.selected_index < self.board_ids.len() {
            Some(self.board_ids[self.selected_index])
        } else {
            None
        }
    }

    /// Everything but the selection is that of `other`.
    pub open spec fn same_boards(&self, other: BoardSelectionState) -> bool {
        &&& self.labels() == other.labels()
        &&& self.ids() == other.ids()
        &&& self.message_view() == other.message_view()
    }

    /// Selects the board `n` up (at least one), stopping at the first.
    pub fn move_up(&mut self, n: usize)
        ensures
            final(self).same_boards(*old(self)),
            final(self).selected() == if old(self).labels().len() == 0 {
                old(self).selected()
            } else {
                index_up(old(self).selected(), n as nat)
            },
    {
        if self.list_items.len() == 0 {
            return;
        }
        self.selected_index = step_up(self.selected_index, n);
    }

    /// Selects the board `n` down (at least one), stopping at the last.
    pub fn move_down(&mut self, n: usize)
        ensures
            final(self).same_boards(*old(self)),
            final(self).selected() == if old(self).labels().len() == 0 {
                old(self).selected()
            } else {
                index_down(old(self).selected(), n as nat, old(self).labels().len())
            },
    {
        if self.list_items.len() == 0 {
            return;
        }
        self.selected_index = step_down(self.selected_index, n, self.list_items.len());
    }

    /// Selects the first board.
    pub fn move_top(&mut self)
        ensures
            final(self).same_boards(*old(self)),
            final(self).selected() == if old(self).labels().len() == 0 {
                old(self).selected()
            } else {
                0
            },
    {
        if self.list_items.len() > 0 {
            self.selected_index = 0;
        }
    }

    /// Selects the last board.
    pub fn move_bottom(&mut self)
        ensures
            final(self).same_boards(*old(self)),
            final(self).selected() == if old(self).labels().len() == 0 {
                old(self).selected()
            } else {
                (old(self).labels().len() - 1) as nat
            },
    {
        if self.list_items.len() > 0 {
            self.selected_index = self.list_items.len() - 1;
        }
    }

    /// Replaces the labels, keeping the selection on a row (or at 0 when there
    /// is none).
    pub fn set_items(&mut self, items: Vec<String>)
        ensures
            final(self).labels() == label_texts(items@),
            final(self).ids() == old(self).ids(),
            final(self).message_view() == old(self).message_view(),
            final(self).selected() == if items@.len() == 0 {
                0
            } else if old(self).selected() >= items@.len() {
                (items@.len() - 1) as nat
            } else {
                old(self).selected()
            },
    {
        self.list_items = items;
        if self.list_items.len() == 0 {
            self.selected_index = 0;
        } else if self.selected_index >= self.list_items.len() {
            self.selected_index = self.list_items.len() - 1;
        }
    }

    /// Replaces the labels with copies of `labels` (see `set_items`).
    pub fn refresh_items(&mut self, labels: &[String])
        ensures
            final(self).labels() == label_texts(labels@),
            final(self).ids() == old(self).ids(),
            final(self).message_view() == old(self).message_view(),
            final(self).selected() == if labels@.len() == 0 {
                0
            } else if old(self).selected() >= labels@.len() {
                (labels@.len() - 1) as nat
            } else {
                old(self).selected()
            },
    {
        let items = copy_labels(labels);
        self.set_items(items);
    }
}

/// Copies of `labels`.
fn copy_labels(labels: &[String]) -> (r: Vec<String>)
    ensures
        r@ == labels@,
{
    let mut items: Vec<String> = Vec::new();
    let mut i: usize = 0;
    while i < labels.len()
        invariant
            i <= labels@.len(),
            items@ == labels@.take(i as int),
        decreases labels@.len() - i,
    {
        items.push(labels[i].clone());
        proof {
            assert(labels@.take(i + 1) =~= labels@.take(i as int).push(labels@[i as int]));
        }
        i += 1;
    }
    proof {
        assert(labels@.take(labels@.len() as int) =~= labels@);
    }
    items
}

/// The labels, ids and message for `boards`.
fn build_entries(boards: Vec<BoardSummary>) -> (r: (Vec<String>, Vec<u64>, String))
    ensures
        label_texts(r.0@) == boards@.map_values(|b: BoardSummary| board_label(b)),
        r.1@ == boards@.map_values(|b: BoardSummary| b.id),
        r.2@ == boards_message(boards@),
{
    if boards.len() == 0 {
        let labels: Vec<String> = Vec::new();
        let ids: Vec<u64> = Vec::new();
        assert(label_texts(labels@) =~= boards@.map_values(|b: BoardSummary| board_label(b)));
        assert(ids@ =~= boards@.map_values(|b: BoardSummary| b.id));
        return (labels, ids, String::new());
    }
    let mut labels: Vec<String> = Vec::new();
    let mut ids: Vec<u64> = Vec::new();
    let mut i: usize = 0;
    while i < boards.len()
        invariant
            i <= boards@.len(),
            labels@.len() == i,
            ids@.len() == i,
            forall|j: int| 0 <= j < i ==> (#[trigger] labels@[j])@ == board_label(boards@[j]),
            forall|j: int| 0 <= j < i ==> #[trigger] ids@[j] == boards@[j].id,
        decreases boards@.len() - i,
    {
        let board = &boards[i];
        let label = match &board.board_type {
            Some(t) => {
                let mut l = board.name.clone();
                l.append(" (");
                l.append(t.as_str());
                l.append(")");
                l
            },
            None => board.name.clone(),
        };
        labels.push(label);
        ids.push(board.id);
        i += 1;
    }
    assert(label_texts(labels@) =~= boards@.map_values(|b: BoardSummary| board_label(b)));
    assert(ids@ =~= boards@.map_values(|b: BoardSummary| b.id));
    (labels, ids, String::from_str("Select a board to continue"))
}

/// Handles commands for the board list.
pub struct BoardSelectionController;

impl BoardSelectionController {
    /// The motions move the selection; other keys are left to the application.
    pub fn handle_command(state: &mut BoardSelectionState, command: Command) -> (r: ScreenState)
        ensures
            final(state).same_boards(*old(state)),
            match command.action {
                ActionId::MoveUp | ActionId::MoveDown | ActionId::MoveTop | ActionId::MoveBottom => r
                    == ScreenState::Refresh,
                _ => r == ScreenState::Stay && final(state).selected() == old(state).selected(),
            },
            command.action == ActionId::MoveUp ==> final(state).selected() == if old(state).labels().len() == 0 {
                old(state).selected()
            } else {
                index_up(old(state).selected(), command.repeat as nat)
            },
            command.action == ActionId::MoveDown ==> final(state).selected() == if old(state).labels().len()
                == 0 {
                old(state).selected()
            } else {
                index_down(old(state).selected(), command.repeat as nat, old(state).labels().len())
            },
            command.action == ActionId::MoveTop ==> final(state).selected() == if old(state).labels().len() == 0 {
                old(state).selected()
            } else {
                0
            },
            command.action == ActionId::MoveBottom ==> final(state).selected() == if old(state).labels().len()
                == 0 {
                old(state).selected()
            } else {
                (old(state).labels().len() - 1) as nat
            },
    {
        match command.action {
            ActionId::MoveUp => {
                state.move_up(command.repeat);
                ScreenState::Refresh
            },
            ActionId::MoveDown => {
                state.move_down(command.repeat);
                ScreenState::Refresh
            },
            ActionId::MoveTop => {
                state.move_top();
                ScreenState::Refresh
            },
            ActionId::MoveBottom => {
                state.move_bottom();
                ScreenState::Refresh
            },
            _ => ScreenState::Stay,
        }
    }
}

/// The board selection screen: the list, the mode and the key hints it shows.
pub struct BoardSelectionScreen {
    state: BoardSelectionState,
    mode: Mode,
    actions: Vec<ActionHint>,
}

impl BoardSelectionScreen {
    pub closed spec fn state_view(&self) -> BoardSelectionState {
        self.state
    }

    pub closed spec fn mode_view(&self) -> Mode {
        self.mode
    }

    pub closed spec fn actions_view(&self) -> Seq<ActionHint> {
        self.actions@
    }

    pub fn new(boards: Vec<BoardSummary>) -> (r: Self)
        ensures
            r.state_view().labels() == boards@.map_values(|b: BoardSummary| board_label(b)),
            r.state_view().ids() == boards@.map_values(|b: BoardSummary| b.id),
            r.state_view().selected() == 0,
            r.state_view().message_view() == boards_message(boards@),
            r.mode_view() == Mode::Normal,
            r.actions_view().len() == 0,
    {
        BoardSelectionScreen { state: BoardSelectionState::new(boards), mode: Mode::Normal, actions: Vec::new() }
    }

    pub fn state(&self) -> (r: &BoardSelectionState)
        ensures
            *r == self.state_view(),
    {
        &self.state
    }

    pub fn selected_board_id(&self) -> (r: Option<u64>)
        ensures
            r == if self.state_view().selected() < self.state_view().ids().len() {
                Some(self.state_view().ids()[self.state_view().selected() as int])
            } else {
                None
            },
    {
        self.state.selected_board_id()
    }

    pub fn move_up(&mut self, n: usize)
        ensures
            final(self).state_view().same_boards(old(self).state_view()),
            final(self).state_view().selected() == if old(self).state_view().labels().len() == 0 {
                old(self).state_view().selected()
            } else {
                index_up(old(self).state_view().selected(), n as nat)
            },
            final(self).mode_view() == old(self).mode_view(),
            final(self).actions_view() == old(self).actions_view(),
    {
        self.state.move_up(n);
    }

    pub fn move_down(&mut self, n: usize)
        ensures
            final(self).state_view().same_boards(old(self).state_view()),
            final(self).state_view().selected() == if old(self).state_view().labels().len() == 0 {
                old(self).state_view().selected()
            } else {
                index_down(old(self).state_view().selected(), n as nat, old(self).state_view().labels().len())
            },
            final(self).mode_view() == old(self).mode_view(),
            final(self).actions_view() == old(self).actions_view(),
    {
        self.state.move_down(n);
    }

    pub fn move_top(&mut self)
        ensures
            final(self).state_view().same_boards(old(self).state_view()),
            final(self).state_view().selected() == if old(self).state_view().labels().len() == 0 {
                old(self).state_view().selected()
            } else {
                0
            },
            final(self).mode_view() == old(self).mode_view(),
            final(self).actions_view() == old(self).actions_view(),
    {
        self.state.move_top();
    }

    pub fn move_bottom(&mut self)
        ensures
            final(self).state_view().same_boards(old(self).state_view()),
            final(self).state_view().selected() == if old(self).state_view().labels().len() == 0 {
                old(self).state_view().selected()
            } else {
                (old(self).state_view().labels().len() - 1) as nat
            },
            final(self).mode_view() == old(self).mode_view(),
            final(self).actions_view() == old(self).actions_view(),
    {
        self.state.move_bottom();
    }

    pub fn set_items(&mut self, items: Vec<String>)
        ensures
            final(self).state_view().labels() == label_texts(items@),
            final(self).state_view().ids() == old(self).state_view().ids(),
            final(self).state_view().message_view() == old(self).state_view().message_view(),
            final(self).state_view().selected() == if items@.len() == 0 {
                0
            } else if old(self).state_view().selected() >= items@.len() {
                (items@.len() - 1) as nat
            } else {
                old(self).state_view().selected()
            },
            final(self).mode_view() == old(self).mode_view(),
            final(self).actions_view() == old(self).actions_view(),
    {
        self.state.set_items(items);
    }

    pub fn refresh_items(&mut self, labels: &[String])
        ensures
            final(self).state_view().labels() == label_texts(labels@),
            final(self).state_view().ids() == old(self).state_view().ids(),
            final(self).state_view().message_view() == old(self).state_view().message_view(),
            final(self).state_view().selected() == if labels@.len() == 0 {
                0
            } else if old(self).state_view().selected() >= labels@.len() {
                (labels@.len() - 1) as nat
            } else {
                old(self).state_view().selected()
            },
            final(self).mode_view() == old(self).mode_view(),
            final(self).actions_view() == old(self).actions_view(),
    {
        self.state.refresh_items(labels);
    }

    pub fn name(&self) -> (r: &'static str)
        ensures
            r@ == "Board Selection"@,
    {
        "Board Selection"
    }

    pub fn mode(&self) -> (r: Mode)
        ensures
            r == self.mode_view(),
    {
        self.mode
    }

    pub fn actions(&self) -> (r: &[ActionHint])
        ensures
            r@ == self.actions_view(),
    {
        self.actions.as_slice()
    }

    pub fn set_action_hints(&mut self, actions: Vec<ActionHint>)
        ensures
            final(self).actions_view() == actions@,
            final(self).state_view() == old(self).state_view(),
            final(self).mode_view() == old(self).mode_view(),
    {
        self.actions = actions;
    }

    pub fn set_mode(&mut self, mode: Mode)
        ensures
            final(self).mode_view() == mode,
            final(self).state_view() == old(self).state_view(),
            final(self).actions_view() == old(self).actions_view(),
    {
        self.mode = mode;
    }

    /// `:w` stays; `:wq` and `:q` close the screen.
    pub fn handle_command_line(&mut self, cmd: CommandLineCommand) -> (r: ScreenState)
        ensures
            r == if cmd == CommandLineCommand::Write {
                ScreenState::Stay
            } else {
                ScreenState::Close
            },
            *final(self) == *old(self),
    {
        match cmd {
            CommandLineCommand::Write => ScreenState::Stay,
            CommandLineCommand::WriteQuit => ScreenState::Close,
            CommandLineCommand::Quit => ScreenState::Close,
        }
    }

    /// Handles a key command (see `BoardSelectionController::handle_command`).
    pub fn handle_command(&mut self, command: Command) -> (r: ScreenState)
        ensures
            final(self).state_view().same_boards(old(self).state_view()),
            match command.action {
                ActionId::MoveUp | ActionId::MoveDown | ActionId::MoveTop | ActionId::MoveBottom => r
                    == ScreenState::Refresh,
                _ => r == ScreenState::Stay && final(self).state_view().selected() == old(self).state_view().selected(),
            },
            final(self).mode_view() == old(self).mode_view(),
            final(self).actions_view() == old(self).actions_view(),
    {
        BoardSelectionController::handle_command(&mut self.state, command)
    }
}

} // verus!
