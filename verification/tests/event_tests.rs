use gsmtui::event::{Action, EventHandler, Key, KeyPress};

fn make_key_event(key: Key) -> KeyPress {
    KeyPress { key, ctrl: false }
}

fn make_ctrl_key_event(key: Key) -> KeyPress {
    KeyPress { key, ctrl: true }
}

#[test]
fn test_vim_navigation_keys() {
    let handler = EventHandler::new();

    assert_eq!(
        handler.key_to_action(make_key_event(Key::Char('j'))),
        Some(Action::Down)
    );
    assert_eq!(
        handler.key_to_action(make_key_event(Key::Char('k'))),
        Some(Action::Up)
    );
    assert_eq!(
        handler.key_to_action(make_key_event(Key::Char('g'))),
        Some(Action::Top)
    );
    assert_eq!(
        handler.key_to_action(make_key_event(Key::Char('G'))),
        Some(Action::Bottom)
    );
}

#[test]
fn test_arrow_navigation_keys() {
    let handler = EventHandler::new();

    assert_eq!(
        handler.key_to_action(make_key_event(Key::Up)),
        Some(Action::Up)
    );
    assert_eq!(
        handler.key_to_action(make_key_event(Key::Down)),
        Some(Action::Down)
    );
    assert_eq!(
        handler.key_to_action(make_key_event(Key::Home)),
        Some(Action::Top)
    );
    assert_eq!(
        handler.key_to_action(make_key_event(Key::End)),
        Some(Action::Bottom)
    );
}

#[test]
fn test_quit_actions() {
    let handler = EventHandler::new();

    assert_eq!(
        handler.key_to_action(make_key_event(Key::Char('q'))),
        Some(Action::Quit)
    );
    assert_eq!(
        handler.key_to_action(make_ctrl_key_event(Key::Char('c'))),
        Some(Action::Quit)
    );
}

#[test]
fn test_action_keys() {
    let handler = EventHandler::new();

    assert_eq!(
        handler.key_to_action(make_key_event(Key::Char('n'))),
        Some(Action::NewSecret)
    );
    assert_eq!(
        handler.key_to_action(make_key_event(Key::Char('a'))),
        Some(Action::NewVersion)
    );
    assert_eq!(
        handler.key_to_action(make_key_event(Key::Char('d'))),
        Some(Action::Delete)
    );
    assert_eq!(
        handler.key_to_action(make_key_event(Key::Char('c'))),
        Some(Action::Copy)
    );
    assert_eq!(
        handler.key_to_action(make_key_event(Key::Char('s'))),
        Some(Action::ToggleSecretValue)
    );
    assert_eq!(
        handler.key_to_action(make_key_event(Key::Char('r'))),
        Some(Action::Refresh)
    );
}

#[test]
fn test_help_keys() {
    let handler = EventHandler::new();

    assert_eq!(
        handler.key_to_action(make_key_event(Key::Char('?'))),
        Some(Action::Help)
    );
    assert_eq!(
        handler.key_to_action(make_key_event(Key::Function(1))),
        Some(Action::Help)
    );
}

#[test]
fn test_unknown_key_returns_none() {
    let handler = EventHandler::new();

    assert_eq!(handler.key_to_action(make_key_event(Key::Char('z'))), None);
    assert_eq!(handler.key_to_action(make_key_event(Key::Function(12))), None);
}

#[test]
fn test_input_mode_actions() {
    let handler = EventHandler::new();

    assert_eq!(
        handler.key_to_input_action(make_key_event(Key::Enter)),
        Some(Action::Enter)
    );
    assert_eq!(
        handler.key_to_input_action(make_key_event(Key::Esc)),
        Some(Action::Back)
    );
    assert_eq!(
        handler.key_to_input_action(make_key_event(Key::Backspace)),
        Some(Action::Backspace)
    );
    assert_eq!(
        handler.key_to_input_action(make_key_event(Key::Char('a'))),
        Some(Action::Char('a'))
    );
}

#[test]
fn test_input_mode_ctrl_c_quits() {
    let handler = EventHandler::new();

    assert_eq!(
        handler.key_to_input_action(make_ctrl_key_event(Key::Char('c'))),
        Some(Action::Quit)
    );
}

#[test]
fn test_enable_disable_keys() {
    let handler = EventHandler::new();

    assert_eq!(
        handler.key_to_action(make_key_event(Key::Char('e'))),
        Some(Action::Enable)
    );
    assert_eq!(
        handler.key_to_action(make_key_event(Key::Char('x'))),
        Some(Action::Disable)
    );
}

#[test]
fn test_project_selector_key() {
    let handler = EventHandler::new();

    assert_eq!(
        handler.key_to_action(make_key_event(Key::Char('p'))),
        Some(Action::OpenProjectSelector)
    );
}

#[test]
fn test_back_keys() {
    let handler = EventHandler::new();

    // All three keys should map to Back action
    assert_eq!(
        handler.key_to_action(make_key_event(Key::Esc)),
        Some(Action::Back)
    );
    assert_eq!(
        handler.key_to_action(make_key_event(Key::Backspace)),
        Some(Action::Back)
    );
    assert_eq!(
        handler.key_to_action(make_key_event(Key::Char('b'))),
        Some(Action::Back)
    );
}

#[test]
fn test_input_mode_cursor_keys() {
    let handler = EventHandler::new();

    assert_eq!(
        handler.key_to_input_action(make_key_event(Key::Left)),
        Some(Action::CursorLeft)
    );
    assert_eq!(
        handler.key_to_input_action(make_key_event(Key::Right)),
        Some(Action::CursorRight)
    );
}

#[test]
fn test_event_handler_default_timeout() {
    let handler = EventHandler::new();
    assert_eq!(handler.poll_timeout_ms, 100);
    assert_eq!(EventHandler::default().poll_timeout_ms, 100);
}
