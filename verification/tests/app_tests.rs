use gsmtui::app::{App, InputMode, View};
use gsmtui::data::{ReplicationPolicy, SecretInfo, VersionInfo, VersionState};

/// Helper to create a mock `SecretInfo` for testing.
fn mock_secret(name: &str) -> SecretInfo {
    SecretInfo {
        short_name: name.to_string(),
        create_time: "2024-01-01".to_string(),
        labels: vec![],
        annotations: vec![],
        replication: ReplicationPolicy::Automatic,
        topics: vec![],
        version_aliases: vec![],
        rotation: None,
        version_destroy_ttl: None,
    }
}

fn mock_version(version: &str, state: VersionState, create_time: &str) -> VersionInfo {
    VersionInfo {
        version: version.to_string(),
        state,
        create_time: create_time.to_string(),
        destroy_time: None,
        scheduled_destroy_time: None,
        has_checksum: false,
    }
}

// --- Constructor Tests ---

#[test]
fn test_new_with_project_id() {
    let app = App::new(Some("my-project".to_string()));

    assert_eq!(app.project_id, "my-project");
    assert_eq!(app.current_view, View::SecretsList);
    assert!(app.secrets.is_empty());
    assert!(!app.has_client);
}

#[test]
fn test_new_without_project_id() {
    let app = App::new(None);

    assert!(app.project_id.is_empty());
    assert_eq!(app.current_view, View::ProjectSelector);
}

// --- Input Buffer Edge Case ---

#[test]
fn test_input_backspace_on_empty() {
    let mut app = App::new(None);
    assert!(app.input_buffer.is_empty());

    // Should not panic on empty buffer
    app.input_backspace();
    assert!(app.input_buffer.is_empty());
}

// --- Navigation Tests ---

#[test]
fn test_select_next_secret_wraps() {
    let mut app = App::new(Some("test".to_string()));
    app.secrets = vec![mock_secret("a"), mock_secret("b"), mock_secret("c")];
    app.secrets_state.select(Some(2)); // Select last item

    app.select_next_secret();

    assert_eq!(app.secrets_state.selected(), Some(0)); // Wrapped to first
}

#[test]
fn test_select_previous_secret_wraps() {
    let mut app = App::new(Some("test".to_string()));
    app.secrets = vec![mock_secret("a"), mock_secret("b"), mock_secret("c")];
    app.secrets_state.select(Some(0)); // Select first item

    app.select_previous_secret();

    assert_eq!(app.secrets_state.selected(), Some(2)); // Wrapped to last
}

#[test]
fn test_navigation_on_empty_list() {
    let mut app = App::new(Some("test".to_string()));
    assert!(app.secrets.is_empty());

    // Should not panic on empty list
    app.select_next_secret();
    app.select_previous_secret();
    app.select_first_secret();
    app.select_last_secret();

    // Selection should remain None
    assert_eq!(app.secrets_state.selected(), None);
}

// --- Version Navigation Unique Behavior ---

#[test]
fn test_version_navigation_clears_revealed_value() {
    let mut app = App::new(Some("test".to_string()));
    app.versions = vec![
        mock_version("1", VersionState::Enabled, "2024-01-01"),
        mock_version("2", VersionState::Enabled, "2024-01-02"),
    ];
    app.versions_state.select(Some(0));
    app.revealed_value = Some("secret-value".to_string());

    app.select_next_version();

    assert!(app.revealed_value.is_none()); // Should be cleared
    assert_eq!(app.versions_state.selected(), Some(1));
}

// --- View Navigation Tests ---

#[test]
fn test_go_back_with_previous_view() {
    let mut app = App::new(Some("test".to_string()));
    app.current_view = View::SecretDetail;
    app.previous_view = Some(View::SecretsList);

    app.go_back();

    assert_eq!(app.current_view, View::SecretsList);
    assert!(app.previous_view.is_none()); // Should be consumed
}

#[test]
fn test_go_back_defaults_to_secrets_list() {
    let mut app = App::new(Some("test".to_string()));
    app.current_view = View::SecretDetail;
    app.previous_view = None; // No previous view

    app.go_back();

    assert_eq!(app.current_view, View::SecretsList); // Default fallback
}

// --- Mode Transition Tests ---

#[test]
fn test_start_new_secret_clears_buffer() {
    let mut app = App::new(Some("test".to_string()));
    app.current_view = View::SecretsList;
    app.input_buffer = "leftover text".to_string();

    app.start_new_secret();

    assert!(app.input_buffer.is_empty()); // Buffer cleared
    assert_eq!(app.current_view, View::Input(InputMode::NewSecretName));
    assert_eq!(app.previous_view, Some(View::SecretsList)); // Saved for go_back
}

// --- Cursor Movement Tests ---

#[test]
fn test_cursor_left_moves_position() {
    let mut app = App::new(None);
    app.input_buffer = "hello".to_string();
    app.cursor_position = 5; // At the end

    app.cursor_left();
    assert_eq!(app.cursor_position, 4);

    app.cursor_left();
    assert_eq!(app.cursor_position, 3);
}

#[test]
fn test_cursor_left_stops_at_beginning() {
    let mut app = App::new(None);
    app.input_buffer = "hello".to_string();
    app.cursor_position = 0; // At the beginning

    app.cursor_left();
    assert_eq!(app.cursor_position, 0); // Should not go negative
}

#[test]
fn test_cursor_right_moves_position() {
    let mut app = App::new(None);
    app.input_buffer = "hello".to_string();
    app.cursor_position = 0; // At the beginning

    app.cursor_right();
    assert_eq!(app.cursor_position, 1);

    app.cursor_right();
    assert_eq!(app.cursor_position, 2);
}

#[test]
fn test_cursor_right_stops_at_end() {
    let mut app = App::new(None);
    app.input_buffer = "hello".to_string();
    app.cursor_position = 5; // At the end

    app.cursor_right();
    assert_eq!(app.cursor_position, 5); // Should not go past the end
}

#[test]
fn test_input_char_at_cursor_position() {
    let mut app = App::new(None);
    app.input_buffer = "hllo".to_string();
    app.cursor_position = 1; // After 'h'

    app.input_char('e');

    assert_eq!(app.input_buffer, "hello");
    assert_eq!(app.cursor_position, 2); // Cursor moves after inserted char
}

#[test]
fn test_input_char_at_end() {
    let mut app = App::new(None);
    app.input_buffer = "hell".to_string();
    app.cursor_position = 4; // At the end

    app.input_char('o');

    assert_eq!(app.input_buffer, "hello");
    assert_eq!(app.cursor_position, 5);
}

#[test]
fn test_input_backspace_at_cursor_position() {
    let mut app = App::new(None);
    app.input_buffer = "heello".to_string();
    app.cursor_position = 3; // After "hee"

    app.input_backspace();

    assert_eq!(app.input_buffer, "hello");
    assert_eq!(app.cursor_position, 2); // Cursor moves back
}

#[test]
fn test_input_backspace_at_beginning_does_nothing() {
    let mut app = App::new(None);
    app.input_buffer = "hello".to_string();
    app.cursor_position = 0; // At the beginning

    app.input_backspace();

    assert_eq!(app.input_buffer, "hello"); // Unchanged
    assert_eq!(app.cursor_position, 0);
}

#[test]
fn test_start_new_secret_resets_cursor() {
    let mut app = App::new(Some("test".to_string()));
    app.input_buffer = "some text".to_string();
    app.cursor_position = 5;

    app.start_new_secret();

    assert!(app.input_buffer.is_empty());
    assert_eq!(app.cursor_position, 0); // Cursor reset to beginning
}
