use zam::action::Action;
use zam::app::{EditField, InputMode, PanelFocus};
use zam::event::{map_key, Key, KeyPress};

fn plain(key: Key) -> KeyPress {
    KeyPress { key, control: false }
}

fn ctrl(c: char) -> KeyPress {
    KeyPress { key: Key::Char(c), control: true }
}

const NORMAL: InputMode = InputMode::Normal { focus: PanelFocus::List };
const EDITING: InputMode = InputMode::Editing { field: EditField::Name };

#[test]
fn control_c_quits_in_every_mode() {
    for mode in [NORMAL, InputMode::Search, EDITING, InputMode::Confirm, InputMode::ResultPopup, InputMode::Help] {
        assert_eq!(map_key(ctrl('c'), mode), Some(Action::Quit));
    }
}

#[test]
fn search_mode_bindings() {
    let m = InputMode::Search;
    assert_eq!(map_key(plain(Key::Esc), m), Some(Action::ExitSearch));
    assert_eq!(map_key(plain(Key::Enter), m), Some(Action::ExitSearch));
    assert_eq!(map_key(plain(Key::Backspace), m), Some(Action::SearchBackspace));
    assert_eq!(map_key(plain(Key::Tab), m), Some(Action::SwitchFocus));
    assert_eq!(map_key(ctrl('u'), m), Some(Action::SearchClear));
    assert_eq!(map_key(plain(Key::Char('u')), m), Some(Action::SearchInput('u')));
    assert_eq!(map_key(plain(Key::Char('q')), m), Some(Action::SearchInput('q')));
    assert_eq!(map_key(ctrl('d'), m), Some(Action::SearchInput('d')));
    assert_eq!(map_key(plain(Key::Up), m), None);
    assert_eq!(map_key(plain(Key::Other), m), None);
}

#[test]
fn normal_mode_bindings() {
    let expect = [
        (plain(Key::Char('q')), Some(Action::Quit)),
        (plain(Key::Char('/')), Some(Action::FocusSearch)),
        (plain(Key::Char('j')), Some(Action::ScrollDown)),
        (plain(Key::Down), Some(Action::ScrollDown)),
        (plain(Key::Char('k')), Some(Action::ScrollUp)),
        (plain(Key::Up), Some(Action::ScrollUp)),
        (plain(Key::Enter), Some(Action::ToggleCollapse)),
        (plain(Key::Char(' ')), Some(Action::ToggleCollapse)),
        (plain(Key::Tab), Some(Action::SwitchFocus)),
        (plain(Key::Char('g')), Some(Action::GoToTop)),
        (plain(Key::Char('G')), Some(Action::GoToBottom)),
        (ctrl('d'), Some(Action::PageDown)),
        (ctrl('u'), Some(Action::PageUp)),
        (plain(Key::Char('a')), Some(Action::CreateAlias)),
        (plain(Key::Char('e')), Some(Action::EditAlias)),
        (plain(Key::Char('d')), Some(Action::DeleteAlias)),
        (plain(Key::Char('?')), Some(Action::ShowHelp)),
        (plain(Key::Char('u')), None),
        (plain(Key::Char('x')), None),
        (plain(Key::Esc), None),
        (plain(Key::Backspace), None),
        (plain(Key::BackTab), None),
        (plain(Key::Other), None),
    ];
    for (press, action) in expect {
        assert_eq!(map_key(press, NORMAL), action);
        assert_eq!(map_key(press, InputMode::Normal { focus: PanelFocus::Detail }), action);
    }
}

#[test]
fn editing_mode_bindings() {
    assert_eq!(map_key(plain(Key::Esc), EDITING), Some(Action::CancelEdit));
    assert_eq!(map_key(plain(Key::Enter), EDITING), Some(Action::SaveEdit));
    assert_eq!(map_key(plain(Key::Tab), EDITING), Some(Action::EditNextField));
    assert_eq!(map_key(plain(Key::BackTab), EDITING), Some(Action::EditPrevField));
    assert_eq!(map_key(plain(Key::Backspace), EDITING), Some(Action::EditBackspace));
    assert_eq!(map_key(ctrl('u'), EDITING), Some(Action::EditClear));
    assert_eq!(map_key(plain(Key::Char('u')), EDITING), Some(Action::EditInput('u')));
    assert_eq!(map_key(plain(Key::Char(' ')), EDITING), Some(Action::EditInput(' ')));
    assert_eq!(map_key(plain(Key::Down), EDITING), None);
}

#[test]
fn confirm_mode_bindings() {
    let m = InputMode::Confirm;
    assert_eq!(map_key(plain(Key::Char('y')), m), Some(Action::ConfirmYes));
    assert_eq!(map_key(plain(Key::Char('Y')), m), Some(Action::ConfirmYes));
    assert_eq!(map_key(plain(Key::Char('n')), m), Some(Action::ConfirmNo));
    assert_eq!(map_key(plain(Key::Char('N')), m), Some(Action::ConfirmNo));
    assert_eq!(map_key(plain(Key::Esc), m), Some(Action::ConfirmNo));
    assert_eq!(map_key(plain(Key::Enter), m), None);
    assert_eq!(map_key(plain(Key::Char('x')), m), None);
}

#[test]
fn any_key_leaves_the_popup_and_the_help() {
    for key in [Key::Char('x'), Key::Enter, Key::Esc, Key::Other, Key::Up] {
        assert_eq!(map_key(plain(key), InputMode::ResultPopup), Some(Action::DismissResult));
        assert_eq!(map_key(plain(key), InputMode::Help), Some(Action::CloseHelp));
    }
}
