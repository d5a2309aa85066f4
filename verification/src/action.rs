//! The vocabulary of user intents that the state machine accepts.

use vstd::prelude::*;

verus! {

/// One user intent.
#[derive(Debug, Clone, Copy, PartialEq, Eq, Structural)]
pub enum Action {
    Quit,
    ScrollUp,
    ScrollDown,
    PageUp,
    PageDown,
    GoToTop,
    GoToBottom,
    ToggleCollapse,
    FocusSearch,
    ExitSearch,
    SwitchFocus,
    SearchInput(char),
    SearchBackspace,
    SearchClear,
    // Create, edit, delete
    CreateAlias,
    EditAlias,
    DeleteAlias,
    // Edit mode
    EditInput(char),
    EditBackspace,
    EditClear,
    EditNextField,
    EditPrevField,
    SaveEdit,
    CancelEdit,
    // Confirm mode
    ConfirmYes,
    ConfirmNo,
    // Result popup
    DismissResult,
    // Help
    ShowHelp,
    CloseHelp,
}

} // verus!
