//! Core state machine of a terminal controller for a remote secret store.
//!
//! The crate holds the verified heart of the application: the view state
//! machine with its navigation history, the selectable-list cursor, the
//! text-input editor, the version-lifecycle guard, secret-name validation,
//! and the pure formatting helpers that turn remote data into display text.
//! Terminal rendering, keyboard polling and the remote clients live outside;
//! they feed plain values in and carry the requested calls out.

pub mod app;
pub mod cursor;
pub mod data;
pub mod event;
pub mod guard;
pub mod text;
pub mod ui_text;
pub mod validation;

pub use cursor::ListCursor;
