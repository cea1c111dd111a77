use gsmtui::app::{App, AppAction, Command, ConfirmAction, CopyOutcome, InputMode, View};
use gsmtui::cursor::ListCursor;
use gsmtui::data::{ProjectInfo, ReplicationPolicy, SecretInfo, VersionInfo, VersionState};
use gsmtui::event::Action;

fn mock_secret(name: &str) -> SecretInfo {
    SecretInfo {
        short_name: name.to_string(),
        create_time: "2024-01-01".to_string(),
        labels: vec![],
        annotations: vec![],
        replication: ReplicationPolicy::Automatic,
        topics: vec![],
        version_aliases: vec![],
        rotation: None,
        version_destroy_ttl: None,
    }
}

fn mock_version(version: &str, state: VersionState) -> VersionInfo {
    VersionInfo {
        version: version.to_string(),
        state,
        create_time: "2024-01-01".to_string(),
        destroy_time: None,
        scheduled_destroy_time: None,
        has_checksum: false,
    }
}

fn status_text(app: &App) -> String {
    app.status.as_ref().expect("a status should be set").text.clone()
}

fn status_is_error(app: &App) -> bool {
    app.status.as_ref().expect("a status should be set").is_error
}

fn detail_app() -> App {
    let mut app = App::new(Some("test".to_string()));
    app.current_view = View::SecretDetail;
    app.current_secret = Some(mock_secret("api-key"));
    app.versions = vec![
        mock_version("1", VersionState::Enabled),
        mock_version("2", VersionState::Disabled),
        mock_version("3", VersionState::Destroyed),
    ];
    app.versions_state.select(Some(0));
    app
}

// --- The list cursor on its own ---

#[test]
fn test_cursor_wraparound() {
    let mut c = ListCursor::new();
    assert_eq!(c.selected(), None);
    c.select(Some(4));
    c.next(5);
    assert_eq!(c.selected(), Some(0));
    c.previous(5);
    assert_eq!(c.selected(), Some(4));
    c.first(5);
    assert_eq!(c.selected(), Some(0));
    c.last(5);
    assert_eq!(c.selected(), Some(4));
}

#[test]
fn test_cursor_empty_list_noops() {
    let mut c = ListCursor::new();
    c.next(0);
    c.previous(0);
    c.first(0);
    c.last(0);
    assert_eq!(c.selected(), None);
}

// --- The version guard (through the detail handlers) ---

#[test]
fn test_reveal_destroyed_rejected() {
    let mut app = detail_app();
    app.versions_state.select(Some(2)); // Destroyed
    let cmd = app.toggle_secret_value();
    assert_eq!(cmd, None);
    assert!(status_is_error(&app));
    assert_eq!(
        status_text(&app),
        "Cannot access destroyed version - data is permanently gone"
    );
}

#[test]
fn test_copy_destroyed_rejected() {
    let mut app = detail_app();
    app.versions_state.select(Some(2)); // Destroyed
    let cmd = app.copy_secret_value();
    assert_eq!(cmd, None);
    assert_eq!(
        status_text(&app),
        "Cannot copy destroyed version - data is permanently gone"
    );
}

#[test]
fn test_reveal_disabled_rejected() {
    let mut app = detail_app();
    app.versions_state.select(Some(1)); // Disabled
    let cmd = app.toggle_secret_value();
    assert_eq!(cmd, None);
    assert_eq!(
        status_text(&app),
        "Version is disabled - press 'e' to enable it first"
    );
}

#[test]
fn test_reveal_enabled_requests_fetch() {
    let mut app = detail_app();
    let cmd = app.toggle_secret_value();
    assert_eq!(
        cmd,
        Some(Command::RevealVersion("api-key".to_string(), "1".to_string()))
    );
    assert!(app.is_loading);
}

#[test]
fn test_toggle_hides_revealed_value() {
    let mut app = detail_app();
    app.revealed_value = Some("shh".to_string());
    let cmd = app.toggle_secret_value();
    assert_eq!(cmd, None);
    assert!(app.revealed_value.is_none());
}

#[test]
fn test_enable_on_enabled_rejected() {
    let mut app = detail_app();
    let cmd = app.enable_selected_version();
    assert_eq!(cmd, None);
    assert_eq!(status_text(&app), "Can only enable disabled versions");
}

#[test]
fn test_disable_on_disabled_rejected() {
    let mut app = detail_app();
    app.versions_state.select(Some(1)); // Disabled
    let cmd = app.disable_selected_version();
    assert_eq!(cmd, None);
    assert_eq!(status_text(&app), "Can only disable enabled versions");
}

#[test]
fn test_enable_on_disabled_requests_call() {
    let mut app = detail_app();
    app.versions_state.select(Some(1)); // Disabled
    let cmd = app.enable_selected_version();
    assert_eq!(
        cmd,
        Some(Command::EnableVersion("api-key".to_string(), "2".to_string()))
    );
}

// --- Project switching ---

fn selector_app() -> App {
    let mut app = App::new(Some("proj-a".to_string()));
    app.current_view = View::ProjectSelector;
    app.previous_view = Some(View::SecretDetail);
    app.available_projects = vec![
        ProjectInfo::new("proj-a".to_string(), "Project A".to_string()),
        ProjectInfo::new("proj-b".to_string(), String::new()),
    ];
    app.projects_state.select(Some(0));
    app.has_client = true;
    app.secrets = vec![mock_secret("s1")];
    app.versions = vec![mock_version("1", VersionState::Enabled)];
    app.current_secret = Some(mock_secret("s1"));
    app.revealed_value = Some("v".to_string());
    app
}

#[test]
fn test_select_same_project_is_noop() {
    let mut app = selector_app();
    let cmd = app.select_project();
    assert_eq!(cmd, None);
    assert_eq!(status_text(&app), "Already on this project");
    assert!(!status_is_error(&app));
    // Back to the prior view; caches untouched.
    assert_eq!(app.current_view, View::SecretDetail);
    assert!(app.has_client);
    assert_eq!(app.secrets.len(), 1);
}

#[test]
fn test_select_different_project_clears_caches() {
    let mut app = selector_app();
    app.projects_state.select(Some(1));
    let cmd = app.select_project();
    assert_eq!(cmd, Some(Command::LoadSecrets));
    assert_eq!(app.project_id, "proj-b");
    assert!(!app.has_client); // handle discarded
    assert!(app.secrets.is_empty());
    assert!(app.versions.is_empty());
    assert!(app.current_secret.is_none());
    assert!(app.revealed_value.is_none());
    assert_eq!(app.current_view, View::SecretsList);
    assert_eq!(status_text(&app), "Switched to project: proj-b");
    assert!(!status_is_error(&app));
}

#[test]
fn test_project_display_name_fallback() {
    let p = ProjectInfo::new("proj-b".to_string(), String::new());
    assert_eq!(p.display_name, "proj-b");
    let q = ProjectInfo::new("proj-a".to_string(), "Project A".to_string());
    assert_eq!(q.display_name, "Project A");
}

// --- Load outcomes ---

#[test]
fn test_finish_load_secrets_ok() {
    let mut app = App::new(Some("p".to_string()));
    app.begin_load_secrets();
    assert!(app.is_loading);
    assert_eq!(status_text(&app), "Loading secrets...");
    app.finish_load_secrets(Ok(vec![mock_secret("a"), mock_secret("b")]));
    assert!(!app.is_loading);
    assert_eq!(app.secrets.len(), 2);
    assert_eq!(app.secrets_state.selected(), Some(0));
    assert_eq!(status_text(&app), "Loaded 2 secrets");
}

#[test]
fn test_finish_load_secrets_error_escalates() {
    let mut app = App::new(Some("p".to_string()));
    app.begin_load_secrets();
    app.finish_load_secrets(Err("permission denied".to_string()));
    assert!(!app.is_loading);
    assert_eq!(app.current_view, View::AuthRequired);
    assert_eq!(status_text(&app), "Auth error: permission denied");
    assert!(status_is_error(&app));
}

#[test]
fn test_fail_client_init_escalates() {
    let mut app = App::new(Some("p".to_string()));
    app.begin_load_secrets();
    app.fail_client_init("no credentials");
    assert!(!app.is_loading);
    assert_eq!(app.current_view, View::AuthRequired);
    assert_eq!(status_text(&app), "Auth error: no credentials");
}

#[test]
fn test_finish_load_projects_selects_current() {
    let mut app = App::new(Some("proj-b".to_string()));
    app.begin_load_projects();
    app.finish_load_projects(Ok(vec![
        ProjectInfo::new("proj-a".to_string(), String::new()),
        ProjectInfo::new("proj-b".to_string(), String::new()),
    ]));
    assert_eq!(app.projects_state.selected(), Some(1));
    assert_eq!(status_text(&app), "Found 2 projects");
}

#[test]
fn test_finish_load_versions_error_keeps_view() {
    let mut app = detail_app();
    let name = app.begin_load_versions();
    assert_eq!(name, Some("api-key".to_string()));
    app.finish_load_versions(Err("boom".to_string()));
    assert_eq!(app.current_view, View::SecretDetail);
    assert_eq!(status_text(&app), "Error loading versions: boom");
}

// --- Input submission ---

#[test]
fn test_submit_empty_input_rejected() {
    let mut app = App::new(Some("p".to_string()));
    app.start_new_secret();
    let cmd = app.submit_input(InputMode::NewSecretName);
    assert_eq!(cmd, None);
    assert_eq!(status_text(&app), "Input cannot be empty");
    assert!(status_is_error(&app));
    assert_eq!(app.current_view, View::SecretsList);
}

#[test]
fn test_submit_invalid_name_rejected() {
    let mut app = App::new(Some("p".to_string()));
    app.start_new_secret();
    for c in "123abc".chars() {
        app.input_char(c);
    }
    let cmd = app.submit_input(InputMode::NewSecretName);
    assert_eq!(cmd, None);
    assert_eq!(status_text(&app), "Secret name must start with a letter");
    assert_eq!(app.current_view, View::SecretsList);
    assert!(app.input_buffer.is_empty());
}

#[test]
fn test_submit_valid_name_requests_create() {
    let mut app = App::new(Some("p".to_string()));
    app.start_new_secret();
    for c in "API_KEY".chars() {
        app.input_char(c);
    }
    let cmd = app.submit_input(InputMode::NewSecretName);
    assert_eq!(cmd, Some(Command::CreateSecret("API_KEY".to_string())));
    assert!(app.is_loading);
    assert!(app.input_buffer.is_empty());
}

#[test]
fn test_submit_new_version_value() {
    let mut app = detail_app();
    app.start_new_version();
    for c in "hunter2".chars() {
        app.input_char(c);
    }
    let cmd = app.submit_input(InputMode::NewVersionValue);
    assert_eq!(
        cmd,
        Some(Command::AddVersion("api-key".to_string(), "hunter2".to_string()))
    );
}

// --- Mutation outcomes ---

#[test]
fn test_finish_create_secret_ok_reloads() {
    let mut app = App::new(Some("p".to_string()));
    app.previous_view = Some(View::SecretsList);
    let follow = app.finish_create_secret("API_KEY", Ok(()));
    assert_eq!(follow, Some(Command::LoadSecrets));
    assert_eq!(status_text(&app), "Created secret: API_KEY");
    assert!(!status_is_error(&app));
    assert!(!app.is_loading);
}

#[test]
fn test_finish_create_secret_error() {
    let mut app = App::new(Some("p".to_string()));
    let follow = app.finish_create_secret("API_KEY", Err("denied".to_string()));
    assert_eq!(follow, None);
    assert_eq!(status_text(&app), "Failed to create secret: denied");
    assert!(status_is_error(&app));
}

#[test]
fn test_finish_add_version_ok() {
    let mut app = detail_app();
    app.previous_view = Some(View::SecretDetail);
    let follow = app.finish_add_version(Ok("4".to_string()));
    assert_eq!(follow, Some(Command::LoadVersions));
    assert_eq!(status_text(&app), "Added version: 4");
}

#[test]
fn test_finish_enable_disable_destroy_delete() {
    let mut app = detail_app();
    assert_eq!(
        app.finish_enable_version("2", Ok(())),
        Some(Command::LoadVersions)
    );
    assert_eq!(status_text(&app), "Enabled version: 2");

    assert_eq!(app.finish_disable_version("1", Err("nope".to_string())), None);
    assert_eq!(status_text(&app), "Failed to disable: nope");
    assert!(status_is_error(&app));

    app.previous_view = Some(View::SecretDetail);
    assert_eq!(
        app.finish_destroy_version("3", Ok(())),
        Some(Command::LoadVersions)
    );
    assert_eq!(status_text(&app), "Destroyed version: 3");

    assert_eq!(
        app.finish_delete_secret("api-key", Ok(())),
        Some(Command::LoadSecrets)
    );
    assert_eq!(status_text(&app), "Deleted secret: api-key");
    assert_eq!(app.current_view, View::SecretsList);
    assert_eq!(app.previous_view, None);
}

#[test]
fn test_finish_mutation_errors() {
    let mut app = detail_app();
    app.previous_view = Some(View::SecretDetail);
    assert_eq!(app.finish_add_version(Err("quota".to_string())), None);
    assert_eq!(status_text(&app), "Failed to add version: quota");
    assert!(status_is_error(&app));

    app.previous_view = Some(View::SecretDetail);
    assert_eq!(app.finish_destroy_version("1", Err("gone".to_string())), None);
    assert_eq!(status_text(&app), "Failed to destroy: gone");

    app.previous_view = Some(View::SecretsList);
    assert_eq!(app.finish_delete_secret("a", Err("denied".to_string())), None);
    assert_eq!(status_text(&app), "Failed to delete: denied");

    assert_eq!(app.finish_enable_version("2", Err("nope".to_string())), None);
    assert_eq!(status_text(&app), "Failed to enable: nope");
}

#[test]
fn test_finish_reveal_and_copy() {
    let mut app = detail_app();
    app.finish_reveal(Ok("s3cret".to_string()));
    assert_eq!(app.revealed_value, Some("s3cret".to_string()));
    assert_eq!(status_text(&app), "Press 's' to hide value");

    app.finish_reveal(Err("gone".to_string()));
    assert_eq!(status_text(&app), "Failed to access: gone");

    app.finish_copy(Ok(CopyOutcome::Copied));
    assert_eq!(status_text(&app), "Copied to clipboard!");
    app.finish_copy(Ok(CopyOutcome::CopyFailed));
    assert_eq!(status_text(&app), "Failed to copy to clipboard");
    app.finish_copy(Ok(CopyOutcome::Unavailable));
    assert_eq!(status_text(&app), "Clipboard not available");
    app.finish_copy(Err("boom".to_string()));
    assert_eq!(status_text(&app), "Failed to access: boom");
}

// --- Dialogs and dispatch ---

#[test]
fn test_confirm_capture_and_execute() {
    let mut app = detail_app();
    app.versions_state.select(Some(1));
    app.confirm_destroy_version();
    assert_eq!(
        app.current_view,
        View::Confirm(ConfirmAction::DestroyVersion("api-key".to_string(), "2".to_string()))
    );
    assert_eq!(app.previous_view, Some(View::SecretDetail));

    // Even if the selection moves, the captured target is used.
    app.versions_state.select(Some(0));
    let r = app.handle_event(Action::Enter);
    assert_eq!(
        r,
        (None, Some(Command::DestroyVersion("api-key".to_string(), "2".to_string())))
    );
    assert!(app.is_loading);
}

#[test]
fn test_confirm_cancel_goes_back() {
    let mut app = App::new(Some("p".to_string()));
    app.secrets = vec![mock_secret("a")];
    app.secrets_state.select(Some(0));
    app.confirm_delete_secret();
    assert_eq!(
        app.current_view,
        View::Confirm(ConfirmAction::DeleteSecret("a".to_string()))
    );

    let r = app.handle_event(Action::Quit);
    assert_eq!(r, (None, None)); // quit cancels the dialog, not the app
    assert_eq!(app.current_view, View::SecretsList);
}

#[test]
fn test_enter_secret_detail_snapshots_secret() {
    let mut app = App::new(Some("p".to_string()));
    app.secrets = vec![mock_secret("a"), mock_secret("b")];
    app.secrets_state.select(Some(1));
    let r = app.handle_event(Action::Enter);
    assert_eq!(r, (None, Some(Command::LoadVersions)));
    assert_eq!(app.current_view, View::SecretDetail);
    assert_eq!(app.previous_view, Some(View::SecretsList));
    assert_eq!(app.current_secret.as_ref().unwrap().short_name, "b");
}

#[test]
fn test_auth_view_dispatch() {
    let mut app = App::new(Some("p".to_string()));
    app.current_view = View::AuthRequired;
    assert_eq!(app.handle_event(Action::Enter), (Some(AppAction::RunGcloudAuth), None));
    assert_eq!(app.handle_event(Action::Quit), (Some(AppAction::Quit), None));
    assert_eq!(app.handle_event(Action::Refresh), (None, None));
}

#[test]
fn test_auth_flow_outcomes() {
    let mut app = App::new(Some("p".to_string()));
    app.current_view = View::AuthRequired;
    let cmd = app.on_auth_success();
    assert_eq!(cmd, Some(Command::LoadProjects));
    assert_eq!(app.current_view, View::ProjectSelector);
    assert_eq!(status_text(&app), "Authentication successful!");

    app.on_auth_failure(None);
    assert_eq!(status_text(&app), "Authentication was cancelled or failed");
    app.on_auth_failure(Some("spawn failed"));
    assert_eq!(status_text(&app), "Failed to run gcloud: spawn failed");
}

#[test]
fn test_refresh_requests_reload() {
    let mut app = App::new(Some("p".to_string()));
    assert_eq!(app.handle_event(Action::Refresh), (None, Some(Command::LoadSecrets)));
    let mut app = detail_app();
    assert_eq!(app.handle_event(Action::Refresh), (None, Some(Command::LoadVersions)));
}

#[test]
fn test_open_project_selector_flow() {
    let mut app = App::new(Some("p".to_string()));
    assert_eq!(
        app.handle_event(Action::OpenProjectSelector),
        (None, Some(Command::OpenProjectSelector))
    );
    // The surrounding program loads projects, then opens the selector.
    app.finish_load_projects(Ok(vec![ProjectInfo::new("p".to_string(), String::new())]));
    app.finish_open_project_selector();
    assert_eq!(app.current_view, View::ProjectSelector);
    assert_eq!(app.previous_view, Some(View::SecretsList));
}

#[test]
fn test_multibyte_editing() {
    let mut app = App::new(None);
    app.input_char('\u{65e5}');
    app.input_char('\u{672c}');
    assert_eq!(app.input_buffer, "\u{65e5}\u{672c}");
    assert_eq!(app.cursor_position, 2);
    app.cursor_left();
    app.input_backspace();
    assert_eq!(app.input_buffer, "\u{672c}");
    assert_eq!(app.cursor_position, 0);
}
