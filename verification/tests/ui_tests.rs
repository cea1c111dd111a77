use gsmtui::app::{App, ConfirmAction, InputMode, View};
use gsmtui::event::Action;
use gsmtui::ui_text::{get_commands_for_view, BLOCK_CURSOR, INPUT_INDICATOR};

#[test]
fn test_cursor_is_visible() {
    assert_eq!(BLOCK_CURSOR, "\u{2588}");
}

#[test]
fn test_input_indicator_exists() {
    assert_eq!(INPUT_INDICATOR, "> ");
}

#[test]
fn test_commands_per_view() {
    assert_eq!(
        get_commands_for_view(&View::AuthRequired),
        vec![("Enter", "authenticate"), ("q", "quit")]
    );
    assert_eq!(get_commands_for_view(&View::SecretsList).len(), 7);
    assert_eq!(get_commands_for_view(&View::SecretDetail).len(), 7);
    assert_eq!(
        get_commands_for_view(&View::ProjectSelector),
        vec![("j/k", "navigate"), ("Enter", "select"), ("Esc", "cancel")]
    );
    assert_eq!(
        get_commands_for_view(&View::Input(InputMode::NewSecretName)),
        vec![("Enter", "submit"), ("Esc", "cancel")]
    );
    assert_eq!(
        get_commands_for_view(&View::Confirm(ConfirmAction::DeleteSecret("s".to_string()))),
        vec![("Enter", "confirm"), ("Esc", "cancel")]
    );
}

#[test]
fn test_help_toggle_consumes_action() {
    let mut app = App::new(Some("p".to_string()));
    assert!(!app.show_help);

    let r = app.handle_event(Action::Help);
    assert!(app.show_help);
    assert_eq!(r, (None, None));

    // Any next action only dismisses the overlay.
    let r = app.handle_event(Action::Quit);
    assert!(!app.show_help);
    assert_eq!(r, (None, None));
}
