//! The view state machine: the controller's state, its transitions, and the
//! orchestration of remote calls.
//!
//! Every transition is synchronous and verified. A handler may, besides
//! updating the state, request one remote call by returning a [`Command`];
//! the surrounding program performs the call and hands the outcome back to
//! the matching `finish_*` method, which is verified for every outcome.

use vstd::prelude::*;
use vstd::view::View as VstdView;

use crate::cursor::{wrap_next, wrap_previous, ListCursor};
use crate::data::{ProjectInfo, SecretInfo, VersionInfo};
use crate::event::Action;
use crate::guard::{check_value_access, AccessDecision};
use crate::text::{char_to_string, concat2, usize_to_string};
use crate::validation::{name_error, valid_secret_name, validate_secret_name};

verus! {

/// The views the controller can be in. Exactly one is current at any time.
#[derive(Debug, Clone, PartialEq, Eq)]
pub enum View {
    /// Credentials are missing or rejected; the user must re-authenticate.
    AuthRequired,
    /// The list of secrets of the active project.
    SecretsList,
    /// Details and versions of one secret.
    SecretDetail,
    /// Text entry, for a new secret name or a new version value.
    Input(InputMode),
    /// Confirmation of an irreversible operation.
    Confirm(ConfirmAction),
    /// The project selector dialog.
    ProjectSelector,
}

/// What the active text buffer is for.
#[derive(Debug, Clone, PartialEq, Eq)]
pub enum InputMode {
    /// Entering the name of a new secret.
    NewSecretName,
    /// Entering the value of a new version.
    NewVersionValue,
}

/// The exact target of a pending irreversible operation, captured when the
/// confirmation prompt opens.
#[derive(Debug, Clone, PartialEq, Eq)]
pub enum ConfirmAction {
    /// Delete the named secret.
    DeleteSecret(String),
    /// Destroy the named version of the named secret.
    DestroyVersion(String, String),
}

/// What the surrounding program must do for the controller.
#[derive(Debug, Clone, PartialEq, Eq)]
pub enum AppAction {
    /// Leave the main loop.
    Quit,
    /// Run the interactive re-authentication flow.
    RunGcloudAuth,
}

/// One remote call the surrounding program is asked to perform. It reports
/// the outcome back through the matching `finish_*` method.
#[derive(Debug, Clone, PartialEq, Eq)]
pub enum Command {
    /// List the secrets of the active project.
    LoadSecrets,
    /// List the projects the user can work in.
    LoadProjects,
    /// List the projects, then open the selector over the current view.
    OpenProjectSelector,
    /// List the versions of the current secret.
    LoadVersions,
    /// Create a secret with the given name.
    CreateSecret(String),
    /// Add a version with the given value to the named secret.
    AddVersion(String, String),
    /// Enable the named version of the named secret.
    EnableVersion(String, String),
    /// Disable the named version of the named secret.
    DisableVersion(String, String),
    /// Destroy the named version of the named secret.
    DestroyVersion(String, String),
    /// Delete the named secret.
    DeleteSecret(String),
    /// Fetch the named version's payload to show it.
    RevealVersion(String, String),
    /// Fetch the named version's payload to copy it.
    CopyVersion(String, String),
}

/// A status line for the user: text and whether it reports an error.
/// A single slot; the last write wins.
#[derive(Debug, Clone)]
pub struct StatusMessage {
    /// The message text.
    pub text: String,
    /// Whether this is an error message.
    pub is_error: bool,
}

/// The controller's entire state.
pub struct App {
    /// Identifier of the active project.
    pub project_id: String,
    /// Whether the remote secret-store handle exists. The handle itself
    /// lives outside; it is created lazily and discarded on project switch.
    pub has_client: bool,
    /// The current view.
    pub current_view: View,
    /// At most one prior view, for single-level back navigation.
    pub previous_view: Option<View>,
    /// Whether a remote call is in flight.
    pub is_loading: bool,
    /// The status line, if any.
    pub status: Option<StatusMessage>,
    /// The loaded secrets.
    pub secrets: Vec<SecretInfo>,
    /// Selection over the secrets list.
    pub secrets_state: ListCursor,
    /// The secret whose detail view is open, if any.
    pub current_secret: Option<SecretInfo>,
    /// The loaded versions of the current secret.
    pub versions: Vec<VersionInfo>,
    /// Selection over the versions list.
    pub versions_state: ListCursor,
    /// The revealed payload of the selected version, if shown.
    pub revealed_value: Option<String>,
    /// The text-entry buffer.
    pub input_buffer: String,
    /// Cursor in the buffer, as a character index in `[0, length]`.
    pub cursor_position: usize,
    /// Whether the help overlay is showing.
    pub show_help: bool,
    /// The loaded projects.
    pub available_projects: Vec<ProjectInfo>,
    /// Selection over the projects list.
    pub projects_state: ListCursor,
}

/// The status slot holds `text`, marked as error iff `err`.
pub open spec fn status_is(a: App, text: Seq<char>, err: bool) -> bool {
    match a.status {
        Some(m) => m.text@ == text && m.is_error == err,
        None => false,
    }
}

/// The text buffer and its cursor are consistent: the cursor is a character
/// index into the buffer, and the buffer leaves room to grow.
pub open spec fn editor_wf(a: App) -> bool {
    a.cursor_position <= a.input_buffer@.len() && a.input_buffer@.len() < usize::MAX
}

/// The view `go_back` restores: the recorded previous view, or the secrets
/// list when none is recorded.
pub open spec fn back_target(pre: App) -> View {
    match pre.previous_view {
        Some(v) => v,
        None => View::SecretsList,
    }
}

/// Relation of `go_back`: the previous view (or its default) becomes
/// current, the record is cleared, and any revealed value is hidden.
pub open spec fn went_back(pre: App, post: App) -> bool {
    post == (App {
        current_view: back_target(pre),
        previous_view: None,
        revealed_value: None,
        ..pre
    })
}

impl App {
    /// Creates the initial state. With a project the controller starts on
    /// the secrets list; without one it starts in the project selector.
    pub fn new(project_id: Option<String>) -> (r: App)
        ensures
            match project_id {
                Some(id) => r.project_id@ == id@ && r.current_view == View::SecretsList,
                None => r.project_id@.len() == 0 && r.current_view == View::ProjectSelector,
            },
            !r.has_client,
            r.previous_view is None,
            !r.is_loading,
            r.status is None,
            r.secrets@.len() == 0,
            r.secrets_state.position is None,
            r.current_secret is None,
            r.versions@.len() == 0,
            r.versions_state.position is None,
            r.revealed_value is None,
            r.input_buffer@.len() == 0,
            r.cursor_position == 0,
            !r.show_help,
            r.available_projects@.len() == 0,
            r.projects_state.position is None,
    {
        let (initial_view, project) = match project_id {
            Some(id) => (View::SecretsList, id),
            None => (View::ProjectSelector, String::new()),
        };
        App {
            project_id: project,
            has_client: false,
            current_view: initial_view,
            previous_view: None,
            is_loading: false,
            status: None,
            secrets: Vec::new(),
            secrets_state: ListCursor::new(),
            current_secret: None,
            versions: Vec::new(),
            versions_state: ListCursor::new(),
            revealed_value: None,
            input_buffer: String::new(),
            cursor_position: 0,
            show_help: false,
            available_projects: Vec::new(),
            projects_state: ListCursor::new(),
        }
    }

    /// Writes the status line.
    fn set_status(&mut self, text: &str, is_error: bool)
        ensures
            *final(self) == (App { status: final(self).status, ..*old(self) }),
            status_is(*final(self), text@, is_error),
    {
        self.status = Some(StatusMessage { text: text.to_owned(), is_error });
    }

    /// Writes the status line from an owned string.
    fn set_status_owned(&mut self, text: String, is_error: bool)
        ensures
            *final(self) == (App { status: final(self).status, ..*old(self) }),
            status_is(*final(self), text@, is_error),
    {
        self.status = Some(StatusMessage { text, is_error });
    }

    /// Returns to the previous view; with no record, to the secrets list.
    /// Clears the record and hides any revealed value.
    pub fn go_back(&mut self)
        ensures
            went_back(*old(self), *final(self)),
    {
        let mut prev: Option<View> = None;
        core::mem::swap(&mut self.previous_view, &mut prev);
        match prev {
            Some(v) => {
                self.current_view = v;
            },
            None => {
                self.current_view = View::SecretsList;
            },
        }
        self.revealed_value = None;
    }

    // --- Secrets list navigation ---

    /// Moves the secrets selection one entry up, wrapping at the top.
    pub fn select_previous_secret(&mut self)
        ensures
            *final(self) == (App {
                secrets_state: ListCursor {
                    position: wrap_previous(
                        old(self).secrets_state.position,
                        old(self).secrets.len(),
                    ),
                },
                ..*old(self)
            }),
    {
        let len = self.secrets.len();
        self.secrets_state.previous(len);
    }

    /// Moves the secrets selection one entry down, wrapping at the bottom.
    pub fn select_next_secret(&mut self)
        ensures
            *final(self) == (App {
                secrets_state: ListCursor {
                    position: wrap_next(old(self).secrets_state.position, old(self).secrets.len()),
                },
                ..*old(self)
            }),
    {
        let len = self.secrets.len();
        self.secrets_state.next(len);
    }

    /// Selects the first secret; a no-op on an empty list.
    pub fn select_first_secret(&mut self)
        ensures
            old(self).secrets.len() == 0 ==> *final(self) == *old(self),
            old(self).secrets.len() > 0 ==> *final(self) == (App {
                secrets_state: ListCursor { position: Some(0usize) },
                ..*old(self)
            }),
    {
        let len = self.secrets.len();
        self.secrets_state.first(len);
    }

    /// Selects the last secret; a no-op on an empty list.
    pub fn select_last_secret(&mut self)
        ensures
            old(self).secrets.len() == 0 ==> *final(self) == *old(self),
            old(self).secrets.len() > 0 ==> *final(self) == (App {
                secrets_state: ListCursor { position: Some((old(self).secrets.len() - 1) as usize) },
                ..*old(self)
            }),
    {
        let len = self.secrets.len();
        self.secrets_state.last(len);
    }

    // --- Versions list navigation (also hides the revealed value) ---

    /// Moves the versions selection one entry up, wrapping at the top, and
    /// hides any revealed value.
    pub fn select_previous_version(&mut self)
        ensures
            old(self).versions.len() == 0 ==> *final(self) == *old(self),
            old(self).versions.len() > 0 ==> *final(self) == (App {
                versions_state: ListCursor {
                    position: wrap_previous(
                        old(self).versions_state.position,
                        old(self).versions.len(),
                    ),
                },
                revealed_value: None,
                ..*old(self)
            }),
    {
        let len = self.versions.len();
        if len == 0 {
            return ;
        }
        self.versions_state.previous(len);
        self.revealed_value = None;
    }

    /// Moves the versions selection one entry down, wrapping at the bottom,
    /// and hides any revealed value.
    pub fn select_next_version(&mut self)
        ensures
            old(self).versions.len() == 0 ==> *final(self) == *old(self),
            old(self).versions.len() > 0 ==> *final(self) == (App {
                versions_state: ListCursor {
                    position: wrap_next(
                        old(self).versions_state.position,
                        old(self).versions.len(),
                    ),
                },
                revealed_value: None,
                ..*old(self)
            }),
    {
        let len = self.versions.len();
        if len == 0 {
            return ;
        }
        self.versions_state.next(len);
        self.revealed_value = None;
    }

    /// Selects the first version and hides any revealed value; a no-op on an
    /// empty list.
    pub fn select_first_version(&mut self)
        ensures
            old(self).versions.len() == 0 ==> *final(self) == *old(self),
            old(self).versions.len() > 0 ==> *final(self) == (App {
                versions_state: ListCursor { position: Some(0usize) },
                revealed_value: None,
                ..*old(self)
            }),
    {
        let len = self.versions.len();
        if len > 0 {
            self.versions_state.first(len);
            self.revealed_value = None;
        }
    }

    /// Selects the last version and hides any revealed value; a no-op on an
    /// empty list.
    pub fn select_last_version(&mut self)
        ensures
            old(self).versions.len() == 0 ==> *final(self) == *old(self),
            old(self).versions.len() > 0 ==> *final(self) == (App {
                versions_state: ListCursor {
                    position: Some((old(self).versions.len() - 1) as usize),
                },
                revealed_value: None,
                ..*old(self)
            }),
    {
        let len = self.versions.len();
        if len > 0 {
            self.versions_state.last(len);
            self.revealed_value = None;
        }
    }

    // --- Projects list navigation ---

    /// Moves the projects selection one entry up, wrapping at the top.
    pub fn select_previous_project(&mut self)
        ensures
            *final(self) == (App {
                projects_state: ListCursor {
                    position: wrap_previous(
                        old(self).projects_state.position,
                        old(self).available_projects.len(),
                    ),
                },
                ..*old(self)
            }),
    {
        let len = self.available_projects.len();
        self.projects_state.previous(len);
    }

    /// Moves the projects selection one entry down, wrapping at the bottom.
    pub fn select_next_project(&mut self)
        ensures
            *final(self) == (App {
                projects_state: ListCursor {
                    position: wrap_next(
                        old(self).projects_state.position,
                        old(self).available_projects.len(),
                    ),
                },
                ..*old(self)
            }),
    {
        let len = self.available_projects.len();
        self.projects_state.next(len);
    }

    /// Selects the first project; a no-op on an empty list.
    pub fn select_first_project(&mut self)
        ensures
            old(self).available_projects.len() == 0 ==> *final(self) == *old(self),
            old(self).available_projects.len() > 0 ==> *final(self) == (App {
                projects_state: ListCursor { position: Some(0usize) },
                ..*old(self)
            }),
    {
        let len = self.available_projects.len();
        self.projects_state.first(len);
    }

    /// Selects the last project; a no-op on an empty list.
    pub fn select_last_project(&mut self)
        ensures
            old(self).available_projects.len() == 0 ==> *final(self) == *old(self),
            old(self).available_projects.len() > 0 ==> *final(self) == (App {
                projects_state: ListCursor {
                    position: Some((old(self).available_projects.len() - 1) as usize),
                },
                ..*old(self)
            }),
    {
        let len = self.available_projects.len();
        self.projects_state.last(len);
    }

    // --- Text editing ---

    /// Inserts `c` at the cursor and moves the cursor past it. Indexing is
    /// by character, so one keystroke inserts one character whatever its
    /// encoding.
    pub fn input_char(&mut self, c: char)
        requires
            editor_wf(*old(self)),
        ensures
            final(self).input_buffer@ == old(self).input_buffer@.subrange(
                0,
                old(self).cursor_position as int,
            ) + seq![c] + old(self).input_buffer@.subrange(
                old(self).cursor_position as int,
                old(self).input_buffer@.len() as int,
            ),
            final(self).cursor_position == old(self).cursor_position + 1,
            *final(self) == (App {
                input_buffer: final(self).input_buffer,
                cursor_position: final(self).cursor_position,
                ..*old(self)
            }),
    {
        let n = self.input_buffer.as_str().unicode_len();
        let pos = self.cursor_position;
        let prefix = self.input_buffer.as_str().substring_char(0, pos).to_owned();
        let mid = char_to_string(c);
        let mut out = prefix;
        out.append(mid.as_str());
        out.append(self.input_buffer.as_str().substring_char(pos, n));
        self.input_buffer = out;
        self.cursor_position = pos + 1;
    }

    /// Removes the character before the cursor and moves the cursor back;
    /// a no-op at the start of the buffer.
    pub fn input_backspace(&mut self)
        requires
            editor_wf(*old(self)),
        ensures
            old(self).cursor_position == 0 ==> *final(self) == *old(self),
            old(self).cursor_position > 0 ==> {
                &&& final(self).input_buffer@ == old(self).input_buffer@.subrange(
                    0,
                    old(self).cursor_position - 1,
                ) + old(self).input_buffer@.subrange(
                    old(self).cursor_position as int,
                    old(self).input_buffer@.len() as int,
                )
                &&& final(self).cursor_position == old(self).cursor_position - 1
                &&& *final(self) == (App {
                    input_buffer: final(self).input_buffer,
                    cursor_position: final(self).cursor_position,
                    ..*old(self)
                })
            },
    {
        if self.cursor_position > 0 {
            let n = self.input_buffer.as_str().unicode_len();
            let pos = self.cursor_position;
            let prefix = self.input_buffer.as_str().substring_char(0, pos - 1).to_owned();
            let mut out = prefix;
            out.append(self.input_buffer.as_str().substring_char(pos, n));
            self.input_buffer = out;
            self.cursor_position = pos - 1;
        }
    }

    /// Moves the cursor one character left; a no-op at the start.
    pub fn cursor_left(&mut self)
        ensures
            *final(self) == (App {
                cursor_position: if old(self).cursor_position > 0 {
                    (old(self).cursor_position - 1) as usize
                } else {
                    0usize
                },
                ..*old(self)
            }),
    {
        if self.cursor_position > 0 {
            self.cursor_position = self.cursor_position - 1;
        }
    }

    /// Moves the cursor one character right; a no-op at the end.
    pub fn cursor_right(&mut self)
        ensures
            *final(self) == (App {
                cursor_position: if old(self).cursor_position < old(self).input_buffer@.len() {
                    (old(self).cursor_position + 1) as usize
                } else {
                    old(self).cursor_position
                },
                ..*old(self)
            }),
            old(self).cursor_position <= old(self).input_buffer@.len()
                ==> final(self).cursor_position <= final(self).input_buffer@.len(),
    {
        let char_count = self.input_buffer.as_str().unicode_len();
        if self.cursor_position < char_count {
            self.cursor_position = self.cursor_position + 1;
        }
    }

    // --- Opening input sessions ---

    /// Starts entry of a new secret name: clears the buffer, resets the
    /// cursor, records the view active beforehand, and opens the input view.
    pub fn start_new_secret(&mut self)
        ensures
            *final(self) == (App {
                input_buffer: final(self).input_buffer,
                cursor_position: 0usize,
                previous_view: Some(old(self).current_view),
                current_view: View::Input(InputMode::NewSecretName),
                ..*old(self)
            }),
            final(self).input_buffer@.len() == 0,
    {
        self.input_buffer = String::new();
        self.cursor_position = 0;
        let mut v = View::Input(InputMode::NewSecretName);
        core::mem::swap(&mut self.current_view, &mut v);
        self.previous_view = Some(v);
    }

    /// Starts entry of a new version value: clears the buffer, resets the
    /// cursor, records the view active beforehand, and opens the input view.
    pub fn start_new_version(&mut self)
        ensures
            *final(self) == (App {
                input_buffer: final(self).input_buffer,
                cursor_position: 0usize,
                previous_view: Some(old(self).current_view),
                current_view: View::Input(InputMode::NewVersionValue),
                ..*old(self)
            }),
            final(self).input_buffer@.len() == 0,
    {
        self.input_buffer = String::new();
        self.cursor_position = 0;
        let mut v = View::Input(InputMode::NewVersionValue);
        core::mem::swap(&mut self.current_view, &mut v);
        self.previous_view = Some(v);
    }

    // --- Loading secrets, projects and versions ---

    /// Marks the start of a secrets load: raises the busy flag and announces
    /// the load.
    pub fn begin_load_secrets(&mut self)
        ensures
            *final(self) == (App { is_loading: true, status: final(self).status, ..*old(self) }),
            status_is(*final(self), "Loading secrets..."@, false),
    {
        self.is_loading = true;
        self.set_status("Loading secrets...", false);
    }

    /// Records that the remote handle now exists.
    pub fn note_client_ready(&mut self)
        ensures
            *final(self) == (App { has_client: true, ..*old(self) }),
    {
        self.has_client = true;
    }

    /// Records that the remote handle could not be built: an authentication
    /// failure. Escalates to the authentication view and clears the busy
    /// flag; the requested call is not attempted.
    pub fn fail_client_init(&mut self, error: &str)
        ensures
            *final(self) == (App {
                status: final(self).status,
                current_view: View::AuthRequired,
                is_loading: false,
                ..*old(self)
            }),
            status_is(*final(self), "Auth error: "@ + error@, true),
    {
        let msg = concat2("Auth error: ", error);
        self.set_status_owned(msg, true);
        self.current_view = View::AuthRequired;
        self.is_loading = false;
    }

    /// Takes the outcome of a secrets load. Success replaces the cache
    /// wholesale and selects the first entry; failure is treated as an
    /// authentication failure and escalates. Either way the busy flag falls.
    pub fn finish_load_secrets(&mut self, result: Result<Vec<SecretInfo>, String>)
        ensures
            result matches Ok(secrets) ==> {
                &&& *final(self) == (App {
                    secrets: secrets,
                    secrets_state: ListCursor {
                        position: if secrets@.len() > 0 {
                            Some(0usize)
                        } else {
                            old(self).secrets_state.position
                        },
                    },
                    status: final(self).status,
                    is_loading: false,
                    ..*old(self)
                })
                &&& status_is(
                    *final(self),
                    "Loaded "@ + crate::text::dec_str(secrets@.len()) + " secrets"@,
                    false,
                )
            },
            result matches Err(e) ==> {
                &&& *final(self) == (App {
                    status: final(self).status,
                    current_view: View::AuthRequired,
                    is_loading: false,
                    ..*old(self)
                })
                &&& status_is(*final(self), "Auth error: "@ + e@, true)
            },
    {
        match result {
            Ok(secrets) => {
                self.secrets = secrets;
                if self.secrets.len() > 0 {
                    self.secrets_state.select(Some(0));
                }
                let count = usize_to_string(self.secrets.len());
                let msg = crate::text::concat3("Loaded ", count.as_str(), " secrets");
                self.set_status_owned(msg, false);
            },
            Err(e) => {
                let msg = concat2("Auth error: ", e.as_str());
                self.set_status_owned(msg, true);
                self.current_view = View::AuthRequired;
            },
        }
        self.is_loading = false;
    }

    /// Marks the start of a projects load: raises the busy flag and
    /// announces the load.
    pub fn begin_load_projects(&mut self)
        ensures
            *final(self) == (App { is_loading: true, status: final(self).status, ..*old(self) }),
            status_is(*final(self), "Loading projects..."@, false),
    {
        self.is_loading = true;
        self.set_status("Loading projects...", false);
    }

    /// Takes the outcome of a projects load. Success replaces the project
    /// cache and selects the active project's entry (or the first); failure
    /// escalates to the authentication view.
    pub fn finish_load_projects(&mut self, result: Result<Vec<ProjectInfo>, String>)
        ensures
            result matches Ok(projects) ==> {
                &&& *final(self) == (App {
                    available_projects: projects,
                    projects_state: ListCursor {
                        position: if projects@.len() > 0 {
                            Some(selected_project_index(projects@, old(self).project_id@) as usize)
                        } else {
                            old(self).projects_state.position
                        },
                    },
                    status: final(self).status,
                    is_loading: false,
                    ..*old(self)
                })
                &&& status_is(
                    *final(self),
                    "Found "@ + crate::text::dec_str(projects@.len()) + " projects"@,
                    false,
                )
            },
            result matches Err(e) ==> {
                &&& *final(self) == (App {
                    status: final(self).status,
                    current_view: View::AuthRequired,
                    is_loading: false,
                    ..*old(self)
                })
                &&& status_is(*final(self), "Auth error: "@ + e@, true)
            },
    {
        match result {
            Ok(projects) => {
                self.available_projects = projects;
                let n = self.available_projects.len();
                let current_idx: usize = if self.project_id.as_str().is_empty() {
                    0
                } else {
                    self.position_of_project()
                };
                if n > 0 {
                    self.projects_state.select(Some(current_idx));
                }
                let count = usize_to_string(n);
                let msg = crate::text::concat3("Found ", count.as_str(), " projects");
                self.set_status_owned(msg, false);
            },
            Err(e) => {
                let msg = concat2("Auth error: ", e.as_str());
                self.set_status_owned(msg, true);
                self.current_view = View::AuthRequired;
            },
        }
        self.is_loading = false;
    }

    /// Finds the active project in the loaded list: the first entry whose
    /// identifier matches, or `0` when none does (also when the identifier
    /// is empty).
    fn position_of_project(&self) -> (r: usize)
        ensures
            r as int == if find_project(self.available_projects@, self.project_id@) < self
                .available_projects@.len() {
                find_project(self.available_projects@, self.project_id@)
            } else {
                0
            },
    {
        let n = self.available_projects.len();
        let mut i: usize = 0;
        while i < n
            invariant
                i <= n,
                n == self.available_projects@.len(),
                forall|k: int|
                    0 <= k < i ==> (#[trigger] self.available_projects@[k]).project_id@
                        != self.project_id@,
            decreases n - i,
        {
            if self.available_projects[i].project_id == self.project_id {
                proof {
                    lemma_find_project_at(self.available_projects@, self.project_id@, i as int);
                }
                return i;
            }
            i = i + 1;
        }
        proof {
            lemma_find_project_at(self.available_projects@, self.project_id@, n as int);
        }
        0
    }

    /// Marks the start of a versions load for the current secret, handing
    /// back its name; with no current secret nothing changes.
    pub fn begin_load_versions(&mut self) -> (r: Option<String>)
        ensures
            old(self).current_secret is None ==> *final(self) == *old(self) && r is None,
            old(self).current_secret matches Some(s) ==> {
                &&& r matches Some(name) && name@ == s.short_name@
                &&& *final(self) == (App {
                    is_loading: true,
                    status: final(self).status,
                    ..*old(self)
                })
                &&& status_is(*final(self), "Loading versions..."@, false)
            },
    {
        let name: Option<String> = match &self.current_secret {
            Some(s) => Some(s.short_name.clone()),
            None => None,
        };
        if name.is_some() {
            self.is_loading = true;
            self.set_status("Loading versions...", false);
        }
        name
    }

    /// Takes the outcome of a versions load. Success replaces the version
    /// cache and selects the first entry; failure only reports, the view
    /// stays.
    pub fn finish_load_versions(&mut self, result: Result<Vec<VersionInfo>, String>)
        ensures
            result matches Ok(versions) ==> {
                &&& *final(self) == (App {
                    versions: versions,
                    versions_state: ListCursor {
                        position: if versions@.len() > 0 {
                            Some(0usize)
                        } else {
                            old(self).versions_state.position
                        },
                    },
                    status: final(self).status,
                    is_loading: false,
                    ..*old(self)
                })
                &&& status_is(
                    *final(self),
                    "Loaded "@ + crate::text::dec_str(versions@.len()) + " versions"@,
                    false,
                )
            },
            result matches Err(e) ==> {
                &&& *final(self) == (App {
                    status: final(self).status,
                    is_loading: false,
                    ..*old(self)
                })
                &&& status_is(*final(self), "Error loading versions: "@ + e@, true)
            },
    {
        match result {
            Ok(versions) => {
                self.versions = versions;
                if self.versions.len() > 0 {
                    self.versions_state.select(Some(0));
                }
                let count = usize_to_string(self.versions.len());
                let msg = crate::text::concat3("Loaded ", count.as_str(), " versions");
                self.set_status_owned(msg, false);
            },
            Err(e) => {
                let msg = concat2("Error loading versions: ", e.as_str());
                self.set_status_owned(msg, true);
            },
        }
        self.is_loading = false;
    }

    /// Opens the project selector over the current view, after its load
    /// completed.
    pub fn finish_open_project_selector(&mut self)
        ensures
            *final(self) == (App {
                previous_view: Some(old(self).current_view),
                current_view: View::ProjectSelector,
                ..*old(self)
            }),
    {
        let mut v = View::ProjectSelector;
        core::mem::swap(&mut self.current_view, &mut v);
        self.previous_view = Some(v);
    }

    // --- Interactive authentication ---

    /// Reports successful re-authentication: announces it, opens the
    /// project selector, and asks for a projects load.
    pub fn on_auth_success(&mut self) -> (r: Option<Command>)
        ensures
            *final(self) == (App {
                status: final(self).status,
                current_view: View::ProjectSelector,
                ..*old(self)
            }),
            status_is(*final(self), "Authentication successful!"@, false),
            r == Some(Command::LoadProjects),
    {
        self.set_status("Authentication successful!", false);
        self.current_view = View::ProjectSelector;
        Some(Command::LoadProjects)
    }

    /// Reports failed or cancelled re-authentication.
    pub fn on_auth_failure(&mut self, error: Option<&str>)
        ensures
            *final(self) == (App { status: final(self).status, ..*old(self) }),
            error matches Some(e) ==> status_is(*final(self), "Failed to run gcloud: "@ + e@, true),
            error is None ==> status_is(
                *final(self),
                "Authentication was cancelled or failed"@,
                true,
            ),
    {
        match error {
            Some(e) => {
                let msg = concat2("Failed to run gcloud: ", e);
                self.set_status_owned(msg, true);
            },
            None => {
                self.set_status("Authentication was cancelled or failed", true);
            },
        }
    }
    // --- Entering detail and the project selector ---

    /// Opens the detail view of the selected secret: snapshots it as the
    /// current secret, records the secrets list as the way back, resets the
    /// versions selection, hides any revealed value, and asks for a
    /// versions load. A missing or stale selection changes nothing.
    pub fn enter_secret_detail(&mut self) -> (r: Option<Command>)
        ensures
            !valid_selection(old(self).secrets_state.position, old(self).secrets@.len()) ==> {
                &&& *final(self) == *old(self)
                &&& r is None
            },
            valid_selection(old(self).secrets_state.position, old(self).secrets@.len()) ==> {
                &&& *final(self) == (App {
                    current_secret: final(self).current_secret,
                    previous_view: Some(View::SecretsList),
                    current_view: View::SecretDetail,
                    versions_state: ListCursor { position: None },
                    revealed_value: None,
                    ..*old(self)
                })
                &&& final(self).current_secret matches Some(s) && s@ == old(self).secrets@[old(
                    self,
                ).secrets_state.position.unwrap() as int]@
                &&& r == Some(Command::LoadVersions)
            },
    {
        if let Some(idx) = self.secrets_state.selected() {
            if idx < self.secrets.len() {
                let secret = self.secrets[idx].clone();
                self.current_secret = Some(secret);
                self.previous_view = Some(View::SecretsList);
                self.current_view = View::SecretDetail;
                self.versions_state = ListCursor::new();
                self.revealed_value = None;
                return Some(Command::LoadVersions);
            }
        }
        None
    }

    /// Switches to the selected project. The same project is a no-op that
    /// returns to the prior view with an informational status; a different
    /// one clears every project-scoped cache, discards the remote handle,
    /// shows the secrets list, and asks for a secrets load.
    pub fn select_project(&mut self) -> (r: Option<Command>)
        ensures
            !valid_selection(old(self).projects_state.position, old(self).available_projects@.len())
                ==> {
                &&& *final(self) == *old(self)
                &&& r is None
            },
            valid_selection(old(self).projects_state.position, old(self).available_projects@.len())
                ==> {
                let target = old(self).available_projects@[old(
                    self,
                ).projects_state.position.unwrap() as int].project_id@;
                if target == old(self).project_id@ {
                    &&& *final(self) == (App {
                        status: final(self).status,
                        current_view: back_target(*old(self)),
                        previous_view: None,
                        revealed_value: None,
                        ..*old(self)
                    })
                    &&& status_is(*final(self), "Already on this project"@, false)
                    &&& r is None
                } else {
                    &&& *final(self) == (App {
                        project_id: final(self).project_id,
                        has_client: false,
                        secrets: final(self).secrets,
                        secrets_state: ListCursor { position: None },
                        current_secret: None,
                        versions: final(self).versions,
                        versions_state: ListCursor { position: None },
                        revealed_value: None,
                        status: final(self).status,
                        current_view: View::SecretsList,
                        previous_view: None,
                        ..*old(self)
                    })
                    &&& final(self).project_id@ == target
                    &&& final(self).secrets@.len() == 0
                    &&& final(self).versions@.len() == 0
                    &&& status_is(*final(self), "Switched to project: "@ + target, false)
                    &&& r == Some(Command::LoadSecrets)
                }
            },
    {
        if let Some(idx) = self.projects_state.selected() {
            if idx < self.available_projects.len() {
                let new_project_id = self.available_projects[idx].project_id.clone();
                if new_project_id == self.project_id {
                    self.set_status("Already on this project", false);
                    self.go_back();
                    return None;
                }
                let msg = concat2("Switched to project: ", new_project_id.as_str());
                self.project_id = new_project_id;
                self.has_client = false;
                self.secrets.clear();
                self.secrets_state = ListCursor::new();
                self.current_secret = None;
                self.versions.clear();
                self.versions_state = ListCursor::new();
                self.revealed_value = None;
                self.set_status_owned(msg, false);
                self.current_view = View::SecretsList;
                self.previous_view = None;
                return Some(Command::LoadSecrets);
            }
        }
        None
    }

    // --- Confirmation prompts ---

    /// Opens the confirmation prompt for deleting the selected secret,
    /// capturing its name. A missing or stale selection changes nothing.
    pub fn confirm_delete_secret(&mut self)
        ensures
            !valid_selection(old(self).secrets_state.position, old(self).secrets@.len())
                ==> *final(self) == *old(self),
            valid_selection(old(self).secrets_state.position, old(self).secrets@.len()) ==> {
                &&& *final(self) == (App {
                    previous_view: Some(old(self).current_view),
                    current_view: final(self).current_view,
                    ..*old(self)
                })
                &&& final(self).current_view matches View::Confirm(ConfirmAction::DeleteSecret(n))
                    && n@ == old(self).secrets@[old(self).secrets_state.position.unwrap() as int]
                    .short_name@
            },
    {
        if let Some(idx) = self.secrets_state.selected() {
            if idx < self.secrets.len() {
                let secret_name = self.secrets[idx].short_name.clone();
                let mut v = View::Confirm(ConfirmAction::DeleteSecret(secret_name));
                core::mem::swap(&mut self.current_view, &mut v);
                self.previous_view = Some(v);
            }
        }
    }

    /// Opens the confirmation prompt for destroying the selected version,
    /// capturing the secret's name and the version's identifier. Without a
    /// current secret or a live selection nothing changes.
    pub fn confirm_destroy_version(&mut self)
        ensures
            !(old(self).current_secret is Some && valid_selection(
                old(self).versions_state.position,
                old(self).versions@.len(),
            )) ==> *final(self) == *old(self),
            old(self).current_secret is Some && valid_selection(
                old(self).versions_state.position,
                old(self).versions@.len(),
            ) ==> {
                &&& *final(self) == (App {
                    previous_view: Some(old(self).current_view),
                    current_view: final(self).current_view,
                    ..*old(self)
                })
                &&& final(self).current_view matches View::Confirm(
                    ConfirmAction::DestroyVersion(sn, vn),
                ) && sn@ == old(self).current_secret.unwrap().short_name@ && vn@ == old(
                    self,
                ).versions@[old(self).versions_state.position.unwrap() as int].version@
            },
    {
        let names: Option<(String, String)> = match (
            &self.current_secret,
            self.versions_state.selected(),
        ) {
            (Some(secret), Some(idx)) => {
                if idx < self.versions.len() {
                    Some((secret.short_name.clone(), self.versions[idx].version.clone()))
                } else {
                    None
                }
            },
            _ => None,
        };
        if let Some((secret_name, version_num)) = names {
            let mut v = View::Confirm(ConfirmAction::DestroyVersion(secret_name, version_num));
            core::mem::swap(&mut self.current_view, &mut v);
            self.previous_view = Some(v);
        }
    }

    // --- Submitting text input ---

    /// Submits the text buffer. Empty input and an invalid secret name are
    /// reported and abandon the session; otherwise the matching remote call
    /// is requested. The buffer and cursor reset in every case.
    pub fn submit_input(&mut self, mode: InputMode) -> (r: Option<Command>)
        ensures
            old(self).input_buffer@.len() == 0 ==> {
                &&& *final(self) == (App {
                    input_buffer: final(self).input_buffer,
                    cursor_position: 0usize,
                    status: final(self).status,
                    current_view: back_target(*old(self)),
                    previous_view: None,
                    revealed_value: None,
                    ..*old(self)
                })
                &&& final(self).input_buffer@.len() == 0
                &&& status_is(*final(self), "Input cannot be empty"@, true)
                &&& r is None
            },
            old(self).input_buffer@.len() > 0 && mode == InputMode::NewSecretName ==> {
                if valid_secret_name(old(self).input_buffer@) {
                    &&& *final(self) == (App {
                        input_buffer: final(self).input_buffer,
                        cursor_position: 0usize,
                        is_loading: true,
                        ..*old(self)
                    })
                    &&& final(self).input_buffer@.len() == 0
                    &&& r matches Some(Command::CreateSecret(name)) && name@ == old(
                        self,
                    ).input_buffer@
                } else {
                    &&& *final(self) == (App {
                        input_buffer: final(self).input_buffer,
                        cursor_position: 0usize,
                        status: final(self).status,
                        current_view: back_target(*old(self)),
                        previous_view: None,
                        revealed_value: None,
                        ..*old(self)
                    })
                    &&& final(self).input_buffer@.len() == 0
                    &&& status_is(*final(self), name_error(old(self).input_buffer@), true)
                    &&& r is None
                }
            },
            old(self).input_buffer@.len() > 0 && mode == InputMode::NewVersionValue ==> {
                if old(self).current_secret is Some {
                    &&& *final(self) == (App {
                        input_buffer: final(self).input_buffer,
                        cursor_position: 0usize,
                        is_loading: true,
                        ..*old(self)
                    })
                    &&& final(self).input_buffer@.len() == 0
                    &&& r matches Some(Command::AddVersion(sn, value)) && sn@ == old(
                        self,
                    ).current_secret.unwrap().short_name@ && value@ == old(self).input_buffer@
                } else {
                    &&& *final(self) == (App {
                        input_buffer: final(self).input_buffer,
                        cursor_position: 0usize,
                        ..*old(self)
                    })
                    &&& final(self).input_buffer@.len() == 0
                    &&& r is None
                }
            },
    {
        let mut input = String::new();
        core::mem::swap(&mut self.input_buffer, &mut input);
        self.cursor_position = 0;

        if input.as_str().is_empty() {
            self.set_status("Input cannot be empty", true);
            self.go_back();
            return None;
        }

        match mode {
            InputMode::NewSecretName => {
                match validate_secret_name(input.as_str()) {
                    Ok(_) => {
                        self.is_loading = true;
                        Some(Command::CreateSecret(input))
                    },
                    Err(e) => {
                        self.set_status_owned(e, true);
                        self.go_back();
                        None
                    },
                }
            },
            InputMode::NewVersionValue => {
                let secret_name: Option<String> = match &self.current_secret {
                    Some(s) => Some(s.short_name.clone()),
                    None => None,
                };
                match secret_name {
                    Some(sn) => {
                        self.is_loading = true;
                        Some(Command::AddVersion(sn, input))
                    },
                    None => None,
                }
            },
        }
    }

    // --- Reading and mutating the selected version ---

    /// Shows or hides the selected version's value. Hiding is local; showing
    /// is gated by the version guard and, when allowed, requests the fetch.
    pub fn toggle_secret_value(&mut self) -> (r: Option<Command>)
        ensures
            old(self).revealed_value is Some ==> {
                &&& *final(self) == (App { revealed_value: None, ..*old(self) })
                &&& r is None
            },
            old(self).revealed_value is None ==> version_read_request(
                *old(self),
                *final(self),
                r,
                "Cannot access destroyed version - data is permanently gone"@,
                false,
            ),
    {
        if self.revealed_value.is_some() {
            self.revealed_value = None;
            return None;
        }
        let target = self.selected_version_target();
        if let Some((secret_name, version_num, state)) = target {
            match check_value_access(state) {
                AccessDecision::DeniedDestroyed => {
                    self.set_status(
                        "Cannot access destroyed version - data is permanently gone",
                        true,
                    );
                    None
                },
                AccessDecision::DeniedDisabled => {
                    self.set_status("Version is disabled - press 'e' to enable it first", true);
                    None
                },
                AccessDecision::Allow => {
                    self.is_loading = true;
                    Some(Command::RevealVersion(secret_name, version_num))
                },
            }
        } else {
            None
        }
    }

    /// Copies the selected version's value: gated by the version guard and,
    /// when allowed, requests the fetch for the clipboard.
    pub fn copy_secret_value(&mut self) -> (r: Option<Command>)
        ensures
            version_read_request(
                *old(self),
                *final(self),
                r,
                "Cannot copy destroyed version - data is permanently gone"@,
                true,
            ),
    {
        let target = self.selected_version_target();
        if let Some((secret_name, version_num, state)) = target {
            match check_value_access(state) {
                AccessDecision::DeniedDestroyed => {
                    self.set_status(
                        "Cannot copy destroyed version - data is permanently gone",
                        true,
                    );
                    None
                },
                AccessDecision::DeniedDisabled => {
                    self.set_status("Version is disabled - press 'e' to enable it first", true);
                    None
                },
                AccessDecision::Allow => {
                    self.is_loading = true;
                    Some(Command::CopyVersion(secret_name, version_num))
                },
            }
        } else {
            None
        }
    }

    /// The selected version's coordinates and state, when a current secret
    /// and a live selection exist.
    fn selected_version_target(&self) -> (r: Option<(String, String, crate::data::VersionState)>)
        ensures
            !(self.current_secret is Some && valid_selection(
                self.versions_state.position,
                self.versions@.len(),
            )) ==> r is None,
            self.current_secret is Some && valid_selection(
                self.versions_state.position,
                self.versions@.len(),
            ) ==> (r matches Some((sn, vn, st)) && sn@ == self.current_secret.unwrap().short_name@
                && vn@ == self.versions@[self.versions_state.position.unwrap() as int].version@
                && st == self.versions@[self.versions_state.position.unwrap() as int].state),
    {
        match (&self.current_secret, self.versions_state.selected()) {
            (Some(secret), Some(idx)) => {
                if idx < self.versions.len() {
                    Some(
                        (
                            secret.short_name.clone(),
                            self.versions[idx].version.clone(),
                            self.versions[idx].state,
                        ),
                    )
                } else {
                    None
                }
            },
            _ => None,
        }
    }

    /// Enables the selected version: only a disabled version may be
    /// enabled; anything else is rejected locally.
    pub fn enable_selected_version(&mut self) -> (r: Option<Command>)
        ensures
            version_state_change_request(*old(self), *final(self), r, true),
    {
        let target = self.selected_version_target();
        if let Some((secret_name, version_num, state)) = target {
            if !crate::guard::can_enable(state) {
                self.set_status("Can only enable disabled versions", true);
                None
            } else {
                self.is_loading = true;
                Some(Command::EnableVersion(secret_name, version_num))
            }
        } else {
            None
        }
    }

    /// Disables the selected version: only an enabled version may be
    /// disabled; anything else is rejected locally.
    pub fn disable_selected_version(&mut self) -> (r: Option<Command>)
        ensures
            version_state_change_request(*old(self), *final(self), r, false),
    {
        let target = self.selected_version_target();
        if let Some((secret_name, version_num, state)) = target {
            if !crate::guard::can_disable(state) {
                self.set_status("Can only disable enabled versions", true);
                None
            } else {
                self.is_loading = true;
                Some(Command::DisableVersion(secret_name, version_num))
            }
        } else {
            None
        }
    }

    // --- Outcomes of the mutating calls ---

    /// Takes the outcome of creating a secret named `name`. Either way the
    /// input session ends and the prior view returns; success asks for a
    /// secrets reload.
    pub fn finish_create_secret(&mut self, name: &str, result: Result<(), String>) -> (r: Option<
        Command,
    >)
        ensures
            *final(self) == (App {
                status: final(self).status,
                current_view: back_target(*old(self)),
                previous_view: None,
                revealed_value: None,
                is_loading: false,
                ..*old(self)
            }),
            result is Ok ==> status_is(*final(self), "Created secret: "@ + name@, false) && r
                == Some(Command::LoadSecrets),
            result matches Err(e) ==> status_is(*final(self), "Failed to create secret: "@ + e@, true)
                && r is None,
    {
        let r = match result {
            Ok(_) => {
                let msg = concat2("Created secret: ", name);
                self.set_status_owned(msg, false);
                Some(Command::LoadSecrets)
            },
            Err(e) => {
                let msg = concat2("Failed to create secret: ", e.as_str());
                self.set_status_owned(msg, true);
                None
            },
        };
        self.go_back();
        self.is_loading = false;
        r
    }

    /// Takes the outcome of adding a version; `Ok` carries the new
    /// version's identifier. Either way the input session ends and the
    /// prior view returns; success asks for a versions reload.
    pub fn finish_add_version(&mut self, result: Result<String, String>) -> (r: Option<Command>)
        ensures
            *final(self) == (App {
                status: final(self).status,
                current_view: back_target(*old(self)),
                previous_view: None,
                revealed_value: None,
                is_loading: false,
                ..*old(self)
            }),
            result matches Ok(v) ==> status_is(*final(self), "Added version: "@ + v@, false) && r
                == Some(Command::LoadVersions),
            result matches Err(e) ==> status_is(*final(self), "Failed to add version: "@ + e@, true)
                && r is None,
    {
        let r = match result {
            Ok(version) => {
                let msg = concat2("Added version: ", version.as_str());
                self.set_status_owned(msg, false);
                Some(Command::LoadVersions)
            },
            Err(e) => {
                let msg = concat2("Failed to add version: ", e.as_str());
                self.set_status_owned(msg, true);
                None
            },
        };
        self.go_back();
        self.is_loading = false;
        r
    }

    /// Takes the outcome of enabling version `version`. Success asks for a
    /// versions reload; failure only reports.
    pub fn finish_enable_version(&mut self, version: &str, result: Result<(), String>) -> (r:
        Option<Command>)
        ensures
            *final(self) == (App {
                status: final(self).status,
                is_loading: false,
                ..*old(self)
            }),
            result is Ok ==> status_is(*final(self), "Enabled version: "@ + version@, false) && r
                == Some(Command::LoadVersions),
            result matches Err(e) ==> status_is(*final(self), "Failed to enable: "@ + e@, true) && r
                is None,
    {
        let r = match result {
            Ok(_) => {
                let msg = concat2("Enabled version: ", version);
                self.set_status_owned(msg, false);
                Some(Command::LoadVersions)
            },
            Err(e) => {
                let msg = concat2("Failed to enable: ", e.as_str());
                self.set_status_owned(msg, true);
                None
            },
        };
        self.is_loading = false;
        r
    }

    /// Takes the outcome of disabling version `version`. Success asks for a
    /// versions reload; failure only reports.
    pub fn finish_disable_version(&mut self, version: &str, result: Result<(), String>) -> (r:
        Option<Command>)
        ensures
            *final(self) == (App {
                status: final(self).status,
                is_loading: false,
                ..*old(self)
            }),
            result is Ok ==> status_is(*final(self), "Disabled version: "@ + version@, false) && r
                == Some(Command::LoadVersions),
            result matches Err(e) ==> status_is(*final(self), "Failed to disable: "@ + e@, true)
                && r is None,
    {
        let r = match result {
            Ok(_) => {
                let msg = concat2("Disabled version: ", version);
                self.set_status_owned(msg, false);
                Some(Command::LoadVersions)
            },
            Err(e) => {
                let msg = concat2("Failed to disable: ", e.as_str());
                self.set_status_owned(msg, true);
                None
            },
        };
        self.is_loading = false;
        r
    }

    /// Takes the outcome of destroying version `version`. Either way the
    /// confirmation closes and the prior view returns; success asks for a
    /// versions reload.
    pub fn finish_destroy_version(&mut self, version: &str, result: Result<(), String>) -> (r:
        Option<Command>)
        ensures
            *final(self) == (App {
                status: final(self).status,
                current_view: back_target(*old(self)),
                previous_view: None,
                revealed_value: None,
                is_loading: false,
                ..*old(self)
            }),
            result is Ok ==> status_is(*final(self), "Destroyed version: "@ + version@, false) && r
                == Some(Command::LoadVersions),
            result matches Err(e) ==> status_is(*final(self), "Failed to destroy: "@ + e@, true)
                && r is None,
    {
        let r = match result {
            Ok(_) => {
                let msg = concat2("Destroyed version: ", version);
                self.set_status_owned(msg, false);
                Some(Command::LoadVersions)
            },
            Err(e) => {
                let msg = concat2("Failed to destroy: ", e.as_str());
                self.set_status_owned(msg, true);
                None
            },
        };
        self.go_back();
        self.is_loading = false;
        r
    }

    /// Takes the outcome of deleting secret `name`. Success lands on the
    /// secrets list with no way back and asks for a reload; failure returns
    /// to the prior view.
    pub fn finish_delete_secret(&mut self, name: &str, result: Result<(), String>) -> (r: Option<
        Command,
    >)
        ensures
            result is Ok ==> {
                &&& *final(self) == (App {
                    status: final(self).status,
                    current_view: View::SecretsList,
                    previous_view: None,
                    is_loading: false,
                    ..*old(self)
                })
                &&& status_is(*final(self), "Deleted secret: "@ + name@, false)
                &&& r == Some(Command::LoadSecrets)
            },
            result matches Err(e) ==> {
                &&& *final(self) == (App {
                    status: final(self).status,
                    current_view: back_target(*old(self)),
                    previous_view: None,
                    revealed_value: None,
                    is_loading: false,
                    ..*old(self)
                })
                &&& status_is(*final(self), "Failed to delete: "@ + e@, true)
                &&& r is None
            },
    {
        let r = match result {
            Ok(_) => {
                let msg = concat2("Deleted secret: ", name);
                self.set_status_owned(msg, false);
                self.current_view = View::SecretsList;
                self.previous_view = None;
                Some(Command::LoadSecrets)
            },
            Err(e) => {
                let msg = concat2("Failed to delete: ", e.as_str());
                self.set_status_owned(msg, true);
                self.go_back();
                None
            },
        };
        self.is_loading = false;
        r
    }

    /// Takes the outcome of fetching a payload to show it. Success reveals
    /// the value; failure only reports.
    pub fn finish_reveal(&mut self, result: Result<String, String>)
        ensures
            result matches Ok(value) ==> {
                &&& *final(self) == (App {
                    revealed_value: Some(value),
                    status: final(self).status,
                    is_loading: false,
                    ..*old(self)
                })
                &&& status_is(*final(self), "Press 's' to hide value"@, false)
            },
            result matches Err(e) ==> {
                &&& *final(self) == (App {
                    status: final(self).status,
                    is_loading: false,
                    ..*old(self)
                })
                &&& status_is(*final(self), "Failed to access: "@ + e@, true)
            },
    {
        match result {
            Ok(value) => {
                self.revealed_value = Some(value);
                self.set_status("Press 's' to hide value", false);
            },
            Err(e) => {
                let msg = concat2("Failed to access: ", e.as_str());
                self.set_status_owned(msg, true);
            },
        }
        self.is_loading = false;
    }

    /// Takes the outcome of fetching a payload for the clipboard: how the
    /// handoff to the clipboard went, or the fetch error.
    pub fn finish_copy(&mut self, result: Result<CopyOutcome, String>)
        ensures
            *final(self) == (App {
                status: final(self).status,
                is_loading: false,
                ..*old(self)
            }),
            result == Ok::<CopyOutcome, String>(CopyOutcome::Copied) ==> status_is(
                *final(self),
                "Copied to clipboard!"@,
                false,
            ),
            result == Ok::<CopyOutcome, String>(CopyOutcome::CopyFailed) ==> status_is(
                *final(self),
                "Failed to copy to clipboard"@,
                true,
            ),
            result == Ok::<CopyOutcome, String>(CopyOutcome::Unavailable) ==> status_is(
                *final(self),
                "Clipboard not available"@,
                true,
            ),
            result matches Err(e) ==> status_is(*final(self), "Failed to access: "@ + e@, true),
    {
        match result {
            Ok(CopyOutcome::Copied) => {
                self.set_status("Copied to clipboard!", false);
            },
            Ok(CopyOutcome::CopyFailed) => {
                self.set_status("Failed to copy to clipboard", true);
            },
            Ok(CopyOutcome::Unavailable) => {
                self.set_status("Clipboard not available", true);
            },
            Err(e) => {
                let msg = concat2("Failed to access: ", e.as_str());
                self.set_status_owned(msg, true);
            },
        }
        self.is_loading = false;
    }

    // --- Dispatch ---

    /// Handles an action in the auth-required view: confirm starts the
    /// interactive re-authentication, quit quits, everything else is
    /// swallowed. The state does not change.
    pub fn handle_auth_required_action(&mut self, action: &Action) -> (r: Option<AppAction>)
        ensures
            *final(self) == *old(self),
            auth_required_step(*old(self), *final(self), *action, (r, None)),
    {
        match action {
            Action::Quit => Some(AppAction::Quit),
            Action::Enter => Some(AppAction::RunGcloudAuth),
            _ => None,
        }
    }

    /// Handles an action on the secrets list.
    pub fn handle_secrets_list_action(&mut self, action: Action) -> (r: (
        Option<AppAction>,
        Option<Command>,
    ))
        ensures
            secrets_list_step(*old(self), *final(self), action, r),
    {
        match action {
            Action::Quit => (Some(AppAction::Quit), None),
            Action::Up => {
                self.select_previous_secret();
                (None, None)
            },
            Action::Down => {
                self.select_next_secret();
                (None, None)
            },
            Action::Top => {
                self.select_first_secret();
                (None, None)
            },
            Action::Bottom => {
                self.select_last_secret();
                (None, None)
            },
            Action::Enter => {
                let c = self.enter_secret_detail();
                (None, c)
            },
            Action::Refresh => (None, Some(Command::LoadSecrets)),
            Action::NewSecret => {
                self.start_new_secret();
                (None, None)
            },
            Action::Delete => {
                self.confirm_delete_secret();
                (None, None)
            },
            Action::OpenProjectSelector => (None, Some(Command::OpenProjectSelector)),
            _ => (None, None),
        }
    }

    /// Handles an action on the secret detail view.
    pub fn handle_secret_detail_action(&mut self, action: Action) -> (r: (
        Option<AppAction>,
        Option<Command>,
    ))
        ensures
            secret_detail_step(*old(self), *final(self), action, r),
    {
        match action {
            Action::Quit => (Some(AppAction::Quit), None),
            Action::Back => {
                self.go_back();
                (None, None)
            },
            Action::Up => {
                self.select_previous_version();
                (None, None)
            },
            Action::Down => {
                self.select_next_version();
                (None, None)
            },
            Action::Top => {
                self.select_first_version();
                (None, None)
            },
            Action::Bottom => {
                self.select_last_version();
                (None, None)
            },
            Action::Refresh => (None, Some(Command::LoadVersions)),
            Action::NewVersion => {
                self.start_new_version();
                (None, None)
            },
            Action::ToggleSecretValue => {
                let c = self.toggle_secret_value();
                (None, c)
            },
            Action::Copy => {
                let c = self.copy_secret_value();
                (None, c)
            },
            Action::Enable => {
                let c = self.enable_selected_version();
                (None, c)
            },
            Action::Disable => {
                let c = self.disable_selected_version();
                (None, c)
            },
            Action::Delete => {
                self.confirm_destroy_version();
                (None, None)
            },
            Action::OpenProjectSelector => (None, Some(Command::OpenProjectSelector)),
            _ => (None, None),
        }
    }

    /// Handles an action on the project selector.
    pub fn handle_project_selector_action(&mut self, action: Action) -> (r: (
        Option<AppAction>,
        Option<Command>,
    ))
        ensures
            project_selector_step(*old(self), *final(self), action, r),
    {
        match action {
            Action::Quit => (Some(AppAction::Quit), None),
            Action::Back => {
                self.go_back();
                (None, None)
            },
            Action::Up => {
                self.select_previous_project();
                (None, None)
            },
            Action::Down => {
                self.select_next_project();
                (None, None)
            },
            Action::Top => {
                self.select_first_project();
                (None, None)
            },
            Action::Bottom => {
                self.select_last_project();
                (None, None)
            },
            Action::Enter => {
                let c = self.select_project();
                (None, c)
            },
            _ => (None, None),
        }
    }

    /// Handles an action during text entry in `mode`.
    pub fn handle_input_action(&mut self, action: Action, mode: InputMode) -> (r: (
        Option<AppAction>,
        Option<Command>,
    ))
        requires
            editor_wf(*old(self)),
        ensures
            input_step(*old(self), *final(self), action, mode, r),
    {
        match action {
            Action::Quit => (Some(AppAction::Quit), None),
            Action::Back => {
                self.input_buffer = String::new();
                self.cursor_position = 0;
                self.go_back();
                (None, None)
            },
            Action::Enter => {
                let c = self.submit_input(mode);
                (None, c)
            },
            Action::Char(c) => {
                self.input_char(c);
                (None, None)
            },
            Action::Backspace => {
                self.input_backspace();
                (None, None)
            },
            Action::CursorLeft => {
                self.cursor_left();
                (None, None)
            },
            Action::CursorRight => {
                self.cursor_right();
                (None, None)
            },
            _ => (None, None),
        }
    }

    /// Handles an action in a confirmation dialog whose pending operation
    /// is `confirm`: confirm requests exactly the captured operation, back
    /// and quit cancel.
    pub fn handle_confirm_action(&mut self, action: Action, confirm: ConfirmAction) -> (r: (
        Option<AppAction>,
        Option<Command>,
    ))
        ensures
            confirm_step(*old(self), *final(self), action, confirm, r),
    {
        match action {
            Action::Enter => {
                self.is_loading = true;
                match confirm {
                    ConfirmAction::DeleteSecret(name) => (None, Some(Command::DeleteSecret(name))),
                    ConfirmAction::DestroyVersion(sname, vname) => (
                        None,
                        Some(Command::DestroyVersion(sname, vname)),
                    ),
                }
            },
            Action::Back => {
                self.go_back();
                (None, None)
            },
            Action::Quit => {
                self.go_back();
                (None, None)
            },
            _ => (None, None),
        }
    }

    /// Dispatches one action: the help toggle wins from any view; a showing
    /// help overlay swallows the next action; then the current view's
    /// handler runs.
    pub fn handle_event(&mut self, action: Action) -> (r: (Option<AppAction>, Option<Command>))
        requires
            editor_wf(*old(self)),
        ensures
            handled_event(*old(self), *final(self), action, r),
    {
        if matches!(action, Action::Help) {
            self.show_help = !self.show_help;
            return (None, None);
        }
        if self.show_help {
            self.show_help = false;
            return (None, None);
        }

        let confirm: Option<ConfirmAction> = match &self.current_view {
            View::Confirm(ConfirmAction::DeleteSecret(n)) => Some(
                ConfirmAction::DeleteSecret(n.clone()),
            ),
            View::Confirm(ConfirmAction::DestroyVersion(s, v)) => Some(
                ConfirmAction::DestroyVersion(s.clone(), v.clone()),
            ),
            _ => None,
        };
        if let Some(c) = confirm {
            return self.handle_confirm_action(action, c);
        }

        let input_mode: Option<InputMode> = match &self.current_view {
            View::Input(InputMode::NewSecretName) => Some(InputMode::NewSecretName),
            View::Input(InputMode::NewVersionValue) => Some(InputMode::NewVersionValue),
            _ => None,
        };
        if let Some(m) = input_mode {
            return self.handle_input_action(action, m);
        }

        if matches!(self.current_view, View::AuthRequired) {
            let a = self.handle_auth_required_action(&action);
            (a, None)
        } else if matches!(self.current_view, View::SecretsList) {
            self.handle_secrets_list_action(action)
        } else if matches!(self.current_view, View::SecretDetail) {
            self.handle_secret_detail_action(action)
        } else {
            self.handle_project_selector_action(action)
        }
    }
}

/// How the handoff of a fetched payload to the clipboard went.
#[derive(Clone, Copy, Debug, PartialEq, Eq, Structural)]
pub enum CopyOutcome {
    /// The value reached the clipboard.
    Copied,
    /// The clipboard exists but rejected the value.
    CopyFailed,
    /// No clipboard is available.
    Unavailable,
}

/// Whether `sel` selects a live index of a list of length `len`.
pub open spec fn valid_selection(sel: Option<usize>, len: nat) -> bool {
    sel matches Some(i) && i < len
}

/// Relation of the guarded read requests (reveal and copy): without a
/// target nothing changes; a destroyed or disabled version is rejected with
/// the fitting message; otherwise the busy flag rises and the fetch of
/// exactly the captured target is requested.
pub open spec fn version_read_request(
    pre: App,
    post: App,
    r: Option<Command>,
    destroyed_msg: Seq<char>,
    for_copy: bool,
) -> bool {
    if !(pre.current_secret is Some && valid_selection(
        pre.versions_state.position,
        pre.versions@.len(),
    )) {
        post == pre && r is None
    } else {
        let v = pre.versions@[pre.versions_state.position.unwrap() as int];
        match crate::guard::access_decision(v.state) {
            crate::guard::AccessDecision::DeniedDestroyed => {
                &&& post == (App { status: post.status, ..pre })
                &&& status_is(post, destroyed_msg, true)
                &&& r is None
            },
            crate::guard::AccessDecision::DeniedDisabled => {
                &&& post == (App { status: post.status, ..pre })
                &&& status_is(post, "Version is disabled - press 'e' to enable it first"@, true)
                &&& r is None
            },
            crate::guard::AccessDecision::Allow => {
                &&& post == (App { is_loading: true, ..pre })
                &&& (if for_copy {
                    r matches Some(Command::CopyVersion(sn, vn)) && sn@
                        == pre.current_secret.unwrap().short_name@ && vn@ == v.version@
                } else {
                    r matches Some(Command::RevealVersion(sn, vn)) && sn@
                        == pre.current_secret.unwrap().short_name@ && vn@ == v.version@
                })
            },
        }
    }
}

/// Relation of the guarded enable/disable requests: without a target
/// nothing changes; a version in the wrong state is rejected with the
/// fitting message; otherwise the busy flag rises and the change of exactly
/// the captured target is requested.
pub open spec fn version_state_change_request(
    pre: App,
    post: App,
    r: Option<Command>,
    enabling: bool,
) -> bool {
    if !(pre.current_secret is Some && valid_selection(
        pre.versions_state.position,
        pre.versions@.len(),
    )) {
        post == pre && r is None
    } else {
        let v = pre.versions@[pre.versions_state.position.unwrap() as int];
        let allowed = if enabling {
            v.state is Disabled
        } else {
            v.state is Enabled
        };
        if !allowed {
            &&& post == (App { status: post.status, ..pre })
            &&& status_is(
                post,
                if enabling {
                    "Can only enable disabled versions"@
                } else {
                    "Can only disable enabled versions"@
                },
                true,
            )
            &&& r is None
        } else {
            &&& post == (App { is_loading: true, ..pre })
            &&& (if enabling {
                r matches Some(Command::EnableVersion(sn, vn)) && sn@
                    == pre.current_secret.unwrap().short_name@ && vn@ == v.version@
            } else {
                r matches Some(Command::DisableVersion(sn, vn)) && sn@
                    == pre.current_secret.unwrap().short_name@ && vn@ == v.version@
            })
        }
    }
}

/// A handler's result: what the main loop must do, and which remote call to
/// perform.
pub open spec fn quiet(r: (Option<AppAction>, Option<Command>)) -> bool {
    r.0 is None && r.1 is None
}

/// The handler asked to quit and for nothing else.
pub open spec fn quit_only(r: (Option<AppAction>, Option<Command>)) -> bool {
    r.0 == Some(AppAction::Quit) && r.1 is None
}

/// The handler asked for exactly the remote call `c`.
pub open spec fn cmd_only(r: (Option<AppAction>, Option<Command>), c: Command) -> bool {
    r.0 is None && r.1 == Some(c)
}

/// Relation of starting an input session in `mode`: buffer cleared, cursor
/// reset, the prior view recorded, the input view opened.
pub open spec fn started_input(pre: App, post: App, mode: InputMode) -> bool {
    &&& post == (App {
        input_buffer: post.input_buffer,
        cursor_position: 0usize,
        previous_view: Some(pre.current_view),
        current_view: View::Input(mode),
        ..pre
    })
    &&& post.input_buffer@.len() == 0
}

/// Law: an input session records the view active when it opened as its
/// return target, so going straight back lands on exactly that view.
pub proof fn lemma_input_session_round_trip(a0: App, a1: App, a2: App, mode: InputMode)
    requires
        started_input(a0, a1, mode),
        went_back(a1, a2),
    ensures
        a2.current_view == a0.current_view,
        a2.previous_view is None,
{
}

/// Relation of entering the detail view of the selected secret.
pub open spec fn entered_detail(pre: App, post: App, c: Option<Command>) -> bool {
    if !valid_selection(pre.secrets_state.position, pre.secrets@.len()) {
        post == pre && c is None
    } else {
        &&& post == (App {
            current_secret: post.current_secret,
            previous_view: Some(View::SecretsList),
            current_view: View::SecretDetail,
            versions_state: ListCursor { position: None },
            revealed_value: None,
            ..pre
        })
        &&& post.current_secret matches Some(s) && s@ == pre.secrets@[pre.secrets_state.position.unwrap() as int]@
        &&& c == Some(Command::LoadVersions)
    }
}

/// Relation of opening the delete-secret confirmation for the selection.
pub open spec fn confirmed_delete(pre: App, post: App) -> bool {
    if !valid_selection(pre.secrets_state.position, pre.secrets@.len()) {
        post == pre
    } else {
        &&& post == (App {
            previous_view: Some(pre.current_view),
            current_view: post.current_view,
            ..pre
        })
        &&& post.current_view matches View::Confirm(ConfirmAction::DeleteSecret(n)) && n@
            == pre.secrets@[pre.secrets_state.position.unwrap() as int].short_name@
    }
}

/// Relation of opening the destroy-version confirmation for the selection.
pub open spec fn confirmed_destroy(pre: App, post: App) -> bool {
    if !(pre.current_secret is Some && valid_selection(
        pre.versions_state.position,
        pre.versions@.len(),
    )) {
        post == pre
    } else {
        &&& post == (App {
            previous_view: Some(pre.current_view),
            current_view: post.current_view,
            ..pre
        })
        &&& post.current_view matches View::Confirm(ConfirmAction::DestroyVersion(sn, vn)) && sn@
            == pre.current_secret.unwrap().short_name@ && vn@ == pre.versions@[pre
            .versions_state.position.unwrap() as int].version@
    }
}

/// Relation of switching to the selected project.
pub open spec fn selected_project(pre: App, post: App, c: Option<Command>) -> bool {
    if !valid_selection(pre.projects_state.position, pre.available_projects@.len()) {
        post == pre && c is None
    } else {
        let target = pre.available_projects@[pre.projects_state.position.unwrap() as int]
            .project_id@;
        if target == pre.project_id@ {
            &&& post == (App {
                status: post.status,
                current_view: back_target(pre),
                previous_view: None,
                revealed_value: None,
                ..pre
            })
            &&& status_is(post, "Already on this project"@, false)
            &&& c is None
        } else {
            &&& post == (App {
                project_id: post.project_id,
                has_client: false,
                secrets: post.secrets,
                secrets_state: ListCursor { position: None },
                current_secret: None,
                versions: post.versions,
                versions_state: ListCursor { position: None },
                revealed_value: None,
                status: post.status,
                current_view: View::SecretsList,
                previous_view: None,
                ..pre
            })
            &&& post.project_id@ == target
            &&& post.secrets@.len() == 0
            &&& post.versions@.len() == 0
            &&& status_is(post, "Switched to project: "@ + target, false)
            &&& c == Some(Command::LoadSecrets)
        }
    }
}

/// Relation of submitting the text buffer in `mode`.
pub open spec fn submitted_input(pre: App, post: App, mode: InputMode, c: Option<Command>) -> bool {
    if pre.input_buffer@.len() == 0 {
        &&& post == (App {
            input_buffer: post.input_buffer,
            cursor_position: 0usize,
            status: post.status,
            current_view: back_target(pre),
            previous_view: None,
            revealed_value: None,
            ..pre
        })
        &&& post.input_buffer@.len() == 0
        &&& status_is(post, "Input cannot be empty"@, true)
        &&& c is None
    } else if mode == InputMode::NewSecretName {
        if valid_secret_name(pre.input_buffer@) {
            &&& post == (App {
                input_buffer: post.input_buffer,
                cursor_position: 0usize,
                is_loading: true,
                ..pre
            })
            &&& post.input_buffer@.len() == 0
            &&& (c matches Some(Command::CreateSecret(name)) && name@ == pre.input_buffer@)
        } else {
            &&& post == (App {
                input_buffer: post.input_buffer,
                cursor_position: 0usize,
                status: post.status,
                current_view: back_target(pre),
                previous_view: None,
                revealed_value: None,
                ..pre
            })
            &&& post.input_buffer@.len() == 0
            &&& status_is(post, name_error(pre.input_buffer@), true)
            &&& c is None
        }
    } else {
        if pre.current_secret is Some {
            &&& post == (App {
                input_buffer: post.input_buffer,
                cursor_position: 0usize,
                is_loading: true,
                ..pre
            })
            &&& post.input_buffer@.len() == 0
            &&& (c matches Some(Command::AddVersion(sn, value)) && sn@
                == pre.current_secret.unwrap().short_name@ && value@ == pre.input_buffer@)
        } else {
            &&& post == (App {
                input_buffer: post.input_buffer,
                cursor_position: 0usize,
                ..pre
            })
            &&& post.input_buffer@.len() == 0
            &&& c is None
        }
    }
}

/// Relation of showing or hiding the selected version's value.
pub open spec fn toggled_value(pre: App, post: App, c: Option<Command>) -> bool {
    if pre.revealed_value is Some {
        post == (App { revealed_value: None, ..pre }) && c is None
    } else {
        version_read_request(
            pre,
            post,
            c,
            "Cannot access destroyed version - data is permanently gone"@,
            false,
        )
    }
}

/// The step relation of the auth-required view.
pub open spec fn auth_required_step(
    pre: App,
    post: App,
    action: Action,
    r: (Option<AppAction>, Option<Command>),
) -> bool {
    match action {
        Action::Quit => post == pre && quit_only(r),
        Action::Enter => post == pre && r.0 == Some(AppAction::RunGcloudAuth) && r.1 is None,
        _ => post == pre && quiet(r),
    }
}

/// The step relation of the secrets list.
pub open spec fn secrets_list_step(
    pre: App,
    post: App,
    action: Action,
    r: (Option<AppAction>, Option<Command>),
) -> bool {
    match action {
        Action::Quit => post == pre && quit_only(r),
        Action::Up => post == (App {
            secrets_state: ListCursor {
                position: wrap_previous(pre.secrets_state.position, pre.secrets.len()),
            },
            ..pre
        }) && quiet(r),
        Action::Down => post == (App {
            secrets_state: ListCursor {
                position: wrap_next(pre.secrets_state.position, pre.secrets.len()),
            },
            ..pre
        }) && quiet(r),
        Action::Top => (if pre.secrets@.len() == 0 {
            post == pre
        } else {
            post == (App { secrets_state: ListCursor { position: Some(0usize) }, ..pre })
        }) && quiet(r),
        Action::Bottom => (if pre.secrets@.len() == 0 {
            post == pre
        } else {
            post == (App {
                secrets_state: ListCursor { position: Some((pre.secrets@.len() - 1) as usize) },
                ..pre
            })
        }) && quiet(r),
        Action::Enter => entered_detail(pre, post, r.1) && r.0 is None,
        Action::Refresh => post == pre && cmd_only(r, Command::LoadSecrets),
        Action::NewSecret => started_input(pre, post, InputMode::NewSecretName) && quiet(r),
        Action::Delete => confirmed_delete(pre, post) && quiet(r),
        Action::OpenProjectSelector => post == pre && cmd_only(r, Command::OpenProjectSelector),
        _ => post == pre && quiet(r),
    }
}

/// The step relation of the secret detail view.
pub open spec fn secret_detail_step(
    pre: App,
    post: App,
    action: Action,
    r: (Option<AppAction>, Option<Command>),
) -> bool {
    match action {
        Action::Quit => post == pre && quit_only(r),
        Action::Back => went_back(pre, post) && quiet(r),
        Action::Up => (if pre.versions@.len() == 0 {
            post == pre
        } else {
            post == (App {
                versions_state: ListCursor {
                    position: wrap_previous(pre.versions_state.position, pre.versions.len()),
                },
                revealed_value: None,
                ..pre
            })
        }) && quiet(r),
        Action::Down => (if pre.versions@.len() == 0 {
            post == pre
        } else {
            post == (App {
                versions_state: ListCursor {
                    position: wrap_next(pre.versions_state.position, pre.versions.len()),
                },
                revealed_value: None,
                ..pre
            })
        }) && quiet(r),
        Action::Top => (if pre.versions@.len() == 0 {
            post == pre
        } else {
            post == (App {
                versions_state: ListCursor { position: Some(0usize) },
                revealed_value: None,
                ..pre
            })
        }) && quiet(r),
        Action::Bottom => (if pre.versions@.len() == 0 {
            post == pre
        } else {
            post == (App {
                versions_state: ListCursor { position: Some((pre.versions@.len() - 1) as usize) },
                revealed_value: None,
                ..pre
            })
        }) && quiet(r),
        Action::Refresh => post == pre && cmd_only(r, Command::LoadVersions),
        Action::NewVersion => started_input(pre, post, InputMode::NewVersionValue) && quiet(r),
        Action::ToggleSecretValue => toggled_value(pre, post, r.1) && r.0 is None,
        Action::Copy => version_read_request(
            pre,
            post,
            r.1,
            "Cannot copy destroyed version - data is permanently gone"@,
            true,
        ) && r.0 is None,
        Action::Enable => version_state_change_request(pre, post, r.1, true) && r.0 is None,
        Action::Disable => version_state_change_request(pre, post, r.1, false) && r.0 is None,
        Action::Delete => confirmed_destroy(pre, post) && quiet(r),
        Action::OpenProjectSelector => post == pre && cmd_only(r, Command::OpenProjectSelector),
        _ => post == pre && quiet(r),
    }
}

/// The step relation of the project selector.
pub open spec fn project_selector_step(
    pre: App,
    post: App,
    action: Action,
    r: (Option<AppAction>, Option<Command>),
) -> bool {
    match action {
        Action::Quit => post == pre && quit_only(r),
        Action::Back => went_back(pre, post) && quiet(r),
        Action::Up => post == (App {
            projects_state: ListCursor {
                position: wrap_previous(pre.projects_state.position, pre.available_projects.len()),
            },
            ..pre
        }) && quiet(r),
        Action::Down => post == (App {
            projects_state: ListCursor {
                position: wrap_next(pre.projects_state.position, pre.available_projects.len()),
            },
            ..pre
        }) && quiet(r),
        Action::Top => (if pre.available_projects@.len() == 0 {
            post == pre
        } else {
            post == (App { projects_state: ListCursor { position: Some(0usize) }, ..pre })
        }) && quiet(r),
        Action::Bottom => (if pre.available_projects@.len() == 0 {
            post == pre
        } else {
            post == (App {
                projects_state: ListCursor {
                    position: Some((pre.available_projects@.len() - 1) as usize),
                },
                ..pre
            })
        }) && quiet(r),
        Action::Enter => selected_project(pre, post, r.1) && r.0 is None,
        _ => post == pre && quiet(r),
    }
}

/// The step relation of text-entry mode.
pub open spec fn input_step(
    pre: App,
    post: App,
    action: Action,
    mode: InputMode,
    r: (Option<AppAction>, Option<Command>),
) -> bool {
    match action {
        Action::Quit => post == pre && quit_only(r),
        Action::Back => {
            &&& post == (App {
                input_buffer: post.input_buffer,
                cursor_position: 0usize,
                current_view: back_target(pre),
                previous_view: None,
                revealed_value: None,
                ..pre
            })
            &&& post.input_buffer@.len() == 0
            &&& quiet(r)
        },
        Action::Enter => submitted_input(pre, post, mode, r.1) && r.0 is None,
        Action::Char(c) => {
            &&& post.input_buffer@ == pre.input_buffer@.subrange(0, pre.cursor_position as int)
                + seq![c] + pre.input_buffer@.subrange(
                pre.cursor_position as int,
                pre.input_buffer@.len() as int,
            )
            &&& post.cursor_position == pre.cursor_position + 1
            &&& post == (App {
                input_buffer: post.input_buffer,
                cursor_position: post.cursor_position,
                ..pre
            })
            &&& quiet(r)
        },
        Action::Backspace => (if pre.cursor_position == 0 {
            post == pre
        } else {
            &&& post.input_buffer@ == pre.input_buffer@.subrange(0, pre.cursor_position - 1)
                + pre.input_buffer@.subrange(
                pre.cursor_position as int,
                pre.input_buffer@.len() as int,
            )
            &&& post.cursor_position == pre.cursor_position - 1
            &&& post == (App {
                input_buffer: post.input_buffer,
                cursor_position: post.cursor_position,
                ..pre
            })
        }) && quiet(r),
        Action::CursorLeft => post == (App {
            cursor_position: if pre.cursor_position > 0 {
                (pre.cursor_position - 1) as usize
            } else {
                0usize
            },
            ..pre
        }) && quiet(r),
        Action::CursorRight => post == (App {
            cursor_position: if pre.cursor_position < pre.input_buffer@.len() {
                (pre.cursor_position + 1) as usize
            } else {
                pre.cursor_position
            },
            ..pre
        }) && quiet(r),
        _ => post == pre && quiet(r),
    }
}

/// The step relation of a confirmation dialog whose pending operation is
/// `confirm`.
pub open spec fn confirm_step(
    pre: App,
    post: App,
    action: Action,
    confirm: ConfirmAction,
    r: (Option<AppAction>, Option<Command>),
) -> bool {
    match action {
        Action::Enter => {
            &&& post == (App { is_loading: true, ..pre })
            &&& r.0 is None
            &&& match confirm {
                ConfirmAction::DeleteSecret(name) => r.1 matches Some(Command::DeleteSecret(n))
                    && n@ == name@,
                ConfirmAction::DestroyVersion(sname, vname) => r.1 matches Some(
                    Command::DestroyVersion(sn, vn),
                ) && sn@ == sname@ && vn@ == vname@,
            }
        },
        Action::Back => went_back(pre, post) && quiet(r),
        Action::Quit => went_back(pre, post) && quiet(r),
        _ => post == pre && quiet(r),
    }
}

/// The full step relation of the controller: the help overlay first, then
/// dialogs, then the current view's own table.
pub open spec fn handled_event(
    pre: App,
    post: App,
    action: Action,
    r: (Option<AppAction>, Option<Command>),
) -> bool {
    if action == Action::Help {
        post == (App { show_help: !pre.show_help, ..pre }) && quiet(r)
    } else if pre.show_help {
        post == (App { show_help: false, ..pre }) && quiet(r)
    } else {
        match pre.current_view {
            View::Confirm(confirm) => confirm_step(pre, post, action, confirm, r),
            View::Input(mode) => input_step(pre, post, action, mode, r),
            View::AuthRequired => auth_required_step(pre, post, action, r),
            View::SecretsList => secrets_list_step(pre, post, action, r),
            View::SecretDetail => secret_detail_step(pre, post, action, r),
            View::ProjectSelector => project_selector_step(pre, post, action, r),
        }
    }
}

/// The first index of `ps` whose identifier is `id`; `ps.len()` when none
/// matches.
pub open spec fn find_project(ps: Seq<ProjectInfo>, id: Seq<char>) -> int
    decreases ps.len(),
{
    if ps.len() == 0 {
        0
    } else if ps[0].project_id@ == id {
        0
    } else {
        1 + find_project(ps.subrange(1, ps.len() as int), id)
    }
}

/// The entry the selector highlights after a projects load: the active
/// project's entry when the identifier is set and present, else the first.
pub open spec fn selected_project_index(ps: Seq<ProjectInfo>, id: Seq<char>) -> int {
    if id.len() == 0 {
        0
    } else if find_project(ps, id) < ps.len() {
        find_project(ps, id)
    } else {
        0
    }
}

proof fn lemma_find_project_at(ps: Seq<ProjectInfo>, id: Seq<char>, i: int)
    requires
        0 <= i <= ps.len(),
        forall|k: int| 0 <= k < i ==> (#[trigger] ps[k]).project_id@ != id,
    ensures
        i < ps.len() && ps[i].project_id@ == id ==> find_project(ps, id) == i,
        i == ps.len() ==> find_project(ps, id) == ps.len(),
    decreases ps.len(),
{
    if ps.len() == 0 {
    } else if ps[0].project_id@ == id {
        assert(i == 0 || ps[0].project_id@ != id);
    } else {
        let t = ps.subrange(1, ps.len() as int);
        assert(forall|k: int| 0 <= k < t.len() ==> t[k] == ps[k + 1]);
        if i > 0 {
            lemma_find_project_at(t, id, i - 1);
        } else {
            lemma_find_project_at(t, id, 0);
        }
    }
}

} // verus!
