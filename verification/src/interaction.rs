//! Input vocabulary shared by every screen: modes, key codes, actions, commands and
//! the outcome a screen reports back to the application loop.

use vstd::prelude::*;
use crate::model::{IssueMutation, ProfileConfig};

verus! {

/// The editing mode the application is in.
#[derive(Clone, Copy, Debug, PartialEq, Eq, Structural)]
pub enum Mode {
    Normal,
    Insert,
    Command,
}

/// Where the cursor lands when insert mode is entered.
#[derive(Clone, Copy, Debug, PartialEq, Eq, Structural)]
pub enum InsertMode {
    Before,
    After,
    LineStart,
    LineEnd,
}

/// A raw key, as far as the screens distinguish keys.
#[derive(Clone, Copy, Debug, PartialEq, Eq, Structural)]
pub enum KeyCode {
    Char(char),
    Enter,
    Esc,
    Tab,
    Backspace,
    Delete,
    Left,
    Right,
    Up,
    Down,
    Home,
    End,
    Other,
}

/// A bound action that a key sequence resolved to.
#[derive(Clone, Copy, Debug, PartialEq, Eq, Structural)]
pub enum ActionId {
    Quit,
    Refresh,
    Confirm,
    MoveUp,
    MoveDown,
    MoveLeft,
    MoveRight,
    MoveTop,
    MoveBottom,
    MoveLineStart,
    MoveLineEnd,
    MoveWordForward,
    MoveWordBackward,
    MoveWordEnd,
    PageUp,
    PageDown,
    EnterInsert(InsertMode),
    RawInput(KeyCode),
    OpenInBrowser,
    EditIssue,
    AddComment,
    TransitionIssue,
    AssignToMe,
    FocusQuery,
    ResolveConflictLocal,
    ResolveConflictRemote,
}

/// An action together with its repeat count.
#[derive(Clone, Copy, Debug, PartialEq, Eq, Structural)]
pub struct Command {
    pub action: ActionId,
    pub repeat: usize,
}

/// A key hint shown in a screen's bottom bar.
#[derive(Clone, Debug, PartialEq, Eq)]
pub struct ActionHint {
    pub keys: String,
    pub label: String,
}

/// A command typed on the `:` command line.
#[derive(Clone, Copy, Debug, PartialEq, Eq, Structural)]
pub enum CommandLineCommand {
    Write,
    WriteQuit,
    Quit,
}

/// The screens the application can switch to.
#[derive(Clone, Copy, Debug, PartialEq, Eq, Structural)]
pub enum ScreenType {
    Home,
    CurrentSprint,
    MyIssues,
    SearchIssues,
    NewIssue,
    BoardSelection,
    SyncStatus,
    Settings,
    ProfileCreation,
    Conflicts,
}

/// Why the issue form is open.
#[derive(Clone, Debug, PartialEq, Eq)]
pub enum FormPurpose {
    Create,
    Edit(String),
}

/// What a screen asks the application loop to do after handling input.
#[derive(Clone, Debug, PartialEq, Eq)]
pub enum ScreenState {
    Stay,
    Refresh,
    Close,
    Quit,
    SwitchTo(ScreenType),
    SwitchMode(Mode),
    ViewIssue(String),
    OpenInBrowser(String),
    OpenIssueForm(FormPurpose),
    Mutate(IssueMutation),
    RunSearch(String),
    ResolveConflictLocal(String),
    ResolveConflictRemote(String),
    SaveProfile(ProfileConfig),
    SaveProfileAndClose(ProfileConfig),
}

} // verus!
