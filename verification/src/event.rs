//! The key bindings: which action a key press stands for in each input mode.

use crate::action::Action;
use crate::app::InputMode;
use vstd::prelude::*;

verus! {

/// The key of a key press, as far as the bindings tell keys apart.
#[derive(Debug, Clone, Copy, PartialEq, Eq, Structural)]
pub enum Key {
    Char(char),
    Enter,
    Esc,
    Backspace,
    Tab,
    /// Shift+Tab.
    BackTab,
    Up,
    Down,
    /// Any other key.
    Other,
}

/// One key press: the key, and whether Control was held.
#[derive(Debug, Clone, Copy, PartialEq, Eq, Structural)]
pub struct KeyPress {
    pub key: Key,
    pub control: bool,
}

/// The bindings of search mode.
pub open spec fn search_binding(press: KeyPress) -> Option<Action> {
    match press.key {
        Key::Esc | Key::Enter => Some(Action::ExitSearch),
        Key::Backspace => Some(Action::SearchBackspace),
        Key::Tab => Some(Action::SwitchFocus),
        Key::Char(c) => if press.control && c == 'u' {
            Some(Action::SearchClear)
        } else {
            Some(Action::SearchInput(c))
        },
        _ => None,
    }
}

/// The bindings of normal mode. Control turns `d` and `u` into the page keys.
pub open spec fn normal_binding(press: KeyPress) -> Option<Action> {
    match press.key {
        Key::Down => Some(Action::ScrollDown),
        Key::Up => Some(Action::ScrollUp),
        Key::Enter => Some(Action::ToggleCollapse),
        Key::Tab => Some(Action::SwitchFocus),
        Key::Char(c) => if c == 'q' {
            Some(Action::Quit)
        } else if c == '/' {
            Some(Action::FocusSearch)
        } else if c == 'j' {
            Some(Action::ScrollDown)
        } else if c == 'k' {
            Some(Action::ScrollUp)
        } else if c == ' ' {
            Some(Action::ToggleCollapse)
        } else if c == 'g' {
            Some(Action::GoToTop)
        } else if c == 'G' {
            Some(Action::GoToBottom)
        } else if c == 'd' {
            if press.control {
                Some(Action::PageDown)
            } else {
                Some(Action::DeleteAlias)
            }
        } else if c == 'u' {
            if press.control {
                Some(Action::PageUp)
            } else {
                None
            }
        } else if c == 'a' {
            Some(Action::CreateAlias)
        } else if c == 'e' {
            Some(Action::EditAlias)
        } else if c == '?' {
            Some(Action::ShowHelp)
        } else {
            None
        },
        _ => None,
    }
}

/// The bindings of the edit form.
pub open spec fn editing_binding(press: KeyPress) -> Option<Action> {
    match press.key {
        Key::Esc => Some(Action::CancelEdit),
        Key::Enter => Some(Action::SaveEdit),
        Key::Tab => Some(Action::EditNextField),
        Key::BackTab => Some(Action::EditPrevField),
        Key::Backspace => Some(Action::EditBackspace),
        Key::Char(c) => if press.control && c == 'u' {
            Some(Action::EditClear)
        } else {
            Some(Action::EditInput(c))
        },
        _ => None,
    }
}

/// The bindings of the confirmation.
pub open spec fn confirm_binding(press: KeyPress) -> Option<Action> {
    match press.key {
        Key::Char(c) => if c == 'y' || c == 'Y' {
            Some(Action::ConfirmYes)
        } else if c == 'n' || c == 'N' {
            Some(Action::ConfirmNo)
        } else {
            None
        },
        Key::Esc => Some(Action::ConfirmNo),
        _ => None,
    }
}

/// The action that a key press stands for in a mode. Control+`c` quits in
/// every mode; a key without a binding stands for nothing.
pub open spec fn binding(press: KeyPress, mode: InputMode) -> Option<Action> {
    if press.control && press.key == Key::Char('c') {
        Some(Action::Quit)
    } else {
        match mode {
            InputMode::Search => search_binding(press),
            InputMode::Normal { .. } => normal_binding(press),
            InputMode::Editing { .. } => editing_binding(press),
            InputMode::Confirm => confirm_binding(press),
            InputMode::ResultPopup => Some(Action::DismissResult),
            InputMode::Help => Some(Action::CloseHelp),
        }
    }
}

/// The action that a key press stands for in `mode`.
pub fn map_key(press: KeyPress, mode: InputMode) -> (r: Option<Action>)
    ensures
        r == binding(press, mode),
{
    match press.key {
        Key::Char(c) => {
            if press.control && c == 'c' {
                return Some(Action::Quit);
            }
        },
        _ => {},
    }
    match mode {
        InputMode::Search => map_search_key(press),
        InputMode::Normal { focus } => map_normal_key(press),
        InputMode::Editing { field } => map_editing_key(press),
        InputMode::Confirm => map_confirm_key(press),
        InputMode::ResultPopup => Some(Action::DismissResult),
        InputMode::Help => map_help_key(press),
    }
}

fn map_search_key(press: KeyPress) -> (r: Option<Action>)
    ensures
        r == search_binding(press),
{
    match press.key {
        Key::Esc | Key::Enter => Some(Action::ExitSearch),
        Key::Backspace => Some(Action::SearchBackspace),
        Key::Tab => Some(Action::SwitchFocus),
        Key::Char(c) => {
            if press.control && c == 'u' {
                Some(Action::SearchClear)
            } else {
                Some(Action::SearchInput(c))
            }
        },
        _ => None,
    }
}

fn map_normal_key(press: KeyPress) -> (r: Option<Action>)
    ensures
        r == normal_binding(press),
{
    match press.key {
        Key::Down => Some(Action::ScrollDown),
        Key::Up => Some(Action::ScrollUp),
        Key::Enter => Some(Action::ToggleCollapse),
        Key::Tab => Some(Action::SwitchFocus),
        Key::Char(c) => {
            if c == 'q' {
                Some(Action::Quit)
            } else if c == '/' {
                Some(Action::FocusSearch)
            } else if c == 'j' {
                Some(Action::ScrollDown)
            } else if c == 'k' {
                Some(Action::ScrollUp)
            } else if c == ' ' {
                Some(Action::ToggleCollapse)
            } else if c == 'g' {
                Some(Action::GoToTop)
            } else if c == 'G' {
                Some(Action::GoToBottom)
            } else if c == 'd' && press.control {
                Some(Action::PageDown)
            } else if c == 'u' && press.control {
                Some(Action::PageUp)
            } else if c == 'a' {
                Some(Action::CreateAlias)
            } else if c == 'e' {
                Some(Action::EditAlias)
            } else if c == 'd' {
                Some(Action::DeleteAlias)
            } else if c == '?' {
                Some(Action::ShowHelp)
            } else {
                None
            }
        },
        _ => None,
    }
}

fn map_editing_key(press: KeyPress) -> (r: Option<Action>)
    ensures
        r == editing_binding(press),
{
    match press.key {
        Key::Esc => Some(Action::CancelEdit),
        Key::Enter => Some(Action::SaveEdit),
        Key::Tab => Some(Action::EditNextField),
        Key::BackTab => Some(Action::EditPrevField),
        Key::Backspace => Some(Action::EditBackspace),
        Key::Char(c) => {
            if press.control && c == 'u' {
                Some(Action::EditClear)
            } else {
                Some(Action::EditInput(c))
            }
        },
        _ => None,
    }
}

fn map_confirm_key(press: KeyPress) -> (r: Option<Action>)
    ensures
        r == confirm_binding(press),
{
    match press.key {
        Key::Char(c) => {
            if c == 'y' || c == 'Y' {
                Some(Action::ConfirmYes)
            } else if c == 'n' || c == 'N' {
                Some(Action::ConfirmNo)
            } else {
                None
            }
        },
        Key::Esc => Some(Action::ConfirmNo),
        _ => None,
    }
}

fn map_help_key(press: KeyPress) -> (r: Option<Action>)
    ensures
        r == Some(Action::CloseHelp),
{
    Some(Action::CloseHelp)
}

} // verus!
