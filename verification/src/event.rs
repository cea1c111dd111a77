//! Key decoding: the mapping from pressed keys to controller actions.
//!
//! The terminal delivers key presses as plain values (`KeyPress`); the two
//! decoders below turn them into [`Action`]s. Command-key capture and
//! free-text capture use different tables, selected by the controller's view.

use vstd::prelude::*;

verus! {

/// A decoded key, as the terminal reports it.
#[derive(Clone, Copy, Debug, PartialEq, Eq)]
pub enum Key {
    Up,
    Down,
    Left,
    Right,
    Home,
    End,
    Enter,
    Esc,
    Backspace,
    /// A printable character.
    Char(char),
    /// A function key, by number.
    Function(u8),
    /// Any key this controller does not distinguish.
    Other,
}

/// One key press: the key and whether Control was held.
#[derive(Clone, Copy, Debug, PartialEq, Eq)]
pub struct KeyPress {
    pub key: Key,
    pub ctrl: bool,
}

/// Every action a user can request of the controller.
#[derive(Debug, Clone, PartialEq, Eq)]
pub enum Action {
    /// Quit the application.
    Quit,
    /// Move selection up.
    Up,
    /// Move selection down.
    Down,
    /// Move to the top of the list.
    Top,
    /// Move to the bottom of the list.
    Bottom,
    /// Select the current item or enter a submenu.
    Enter,
    /// Go back to the previous view.
    Back,
    /// Reload the current view's data.
    Refresh,
    /// Create a new secret.
    NewSecret,
    /// Add a new version to the current secret.
    NewVersion,
    /// Delete the selected item.
    Delete,
    /// Copy the revealed value to the clipboard.
    Copy,
    /// Show or hide the selected version's value.
    ToggleSecretValue,
    /// Show help.
    Help,
    /// Enable a disabled version.
    Enable,
    /// Disable an enabled version.
    Disable,
    /// Open the project selector.
    OpenProjectSelector,
    /// Character input, in text-entry mode.
    Char(char),
    /// Backspace, in text-entry mode.
    Backspace,
    /// Move the text cursor left, in text-entry mode.
    CursorLeft,
    /// Move the text cursor right, in text-entry mode.
    CursorRight,
}

/// The command-key decoding table.
pub open spec fn command_action(key: KeyPress) -> Option<Action> {
    if key.ctrl && key.key == Key::Char('c') {
        Some(Action::Quit)
    } else {
        match key.key {
            Key::Up => Some(Action::Up),
            Key::Char('k') => Some(Action::Up),
            Key::Down => Some(Action::Down),
            Key::Char('j') => Some(Action::Down),
            Key::Home => Some(Action::Top),
            Key::Char('g') => Some(Action::Top),
            Key::End => Some(Action::Bottom),
            Key::Char('G') => Some(Action::Bottom),
            Key::Enter => Some(Action::Enter),
            Key::Esc => Some(Action::Back),
            Key::Backspace => Some(Action::Back),
            Key::Char('b') => Some(Action::Back),
            Key::Char('q') => Some(Action::Quit),
            Key::Char('r') => Some(Action::Refresh),
            Key::Char('n') => Some(Action::NewSecret),
            Key::Char('a') => Some(Action::NewVersion),
            Key::Char('d') => Some(Action::Delete),
            Key::Char('c') => Some(Action::Copy),
            Key::Char('s') => Some(Action::ToggleSecretValue),
            Key::Char('?') => Some(Action::Help),
            Key::Function(1) => Some(Action::Help),
            Key::Char('e') => Some(Action::Enable),
            Key::Char('x') => Some(Action::Disable),
            Key::Char('p') => Some(Action::OpenProjectSelector),
            _ => None,
        }
    }
}

/// The text-entry decoding table.
pub open spec fn input_action(key: KeyPress) -> Option<Action> {
    if key.ctrl && key.key == Key::Char('c') {
        Some(Action::Quit)
    } else {
        match key.key {
            Key::Enter => Some(Action::Enter),
            Key::Esc => Some(Action::Back),
            Key::Backspace => Some(Action::Backspace),
            Key::Left => Some(Action::CursorLeft),
            Key::Right => Some(Action::CursorRight),
            Key::Char(c) => Some(Action::Char(c)),
            _ => None,
        }
    }
}

/// Decodes terminal key presses into actions.
pub struct EventHandler {
    /// Poll timeout in milliseconds, for the caller that waits on the
    /// terminal.
    pub poll_timeout_ms: u64,
}

impl EventHandler {
    /// Creates an event handler with the default poll timeout.
    pub fn new() -> (r: EventHandler)
        ensures
            r.poll_timeout_ms == 100,
    {
        EventHandler { poll_timeout_ms: 100 }
    }

    /// Decodes a key press in command mode.
    pub fn key_to_action(&self, key: KeyPress) -> (r: Option<Action>)
        ensures
            r == command_action(key),
    {
        if key.ctrl {
            if let Key::Char(c) = key.key {
                if c == 'c' {
                    return Some(Action::Quit);
                }
            }
        }
        match key.key {
            Key::Up => Some(Action::Up),
            Key::Down => Some(Action::Down),
            Key::Home => Some(Action::Top),
            Key::End => Some(Action::Bottom),
            Key::Enter => Some(Action::Enter),
            Key::Esc => Some(Action::Back),
            Key::Backspace => Some(Action::Back),
            Key::Function(n) => if n == 1 {
                Some(Action::Help)
            } else {
                None
            },
            Key::Char(c) => {
                if c == 'k' {
                    Some(Action::Up)
                } else if c == 'j' {
                    Some(Action::Down)
                } else if c == 'g' {
                    Some(Action::Top)
                } else if c == 'G' {
                    Some(Action::Bottom)
                } else if c == 'b' {
                    Some(Action::Back)
                } else if c == 'q' {
                    Some(Action::Quit)
                } else if c == 'r' {
                    Some(Action::Refresh)
                } else if c == 'n' {
                    Some(Action::NewSecret)
                } else if c == 'a' {
                    Some(Action::NewVersion)
                } else if c == 'd' {
                    Some(Action::Delete)
                } else if c == 'c' {
                    Some(Action::Copy)
                } else if c == 's' {
                    Some(Action::ToggleSecretValue)
                } else if c == '?' {
                    Some(Action::Help)
                } else if c == 'e' {
                    Some(Action::Enable)
                } else if c == 'x' {
                    Some(Action::Disable)
                } else if c == 'p' {
                    Some(Action::OpenProjectSelector)
                } else {
                    None
                }
            },
            _ => None,
        }
    }

    /// Decodes a key press in text-entry mode.
    pub fn key_to_input_action(&self, key: KeyPress) -> (r: Option<Action>)
        ensures
            r == input_action(key),
    {
        if key.ctrl {
            if let Key::Char(c) = key.key {
                if c == 'c' {
                    return Some(Action::Quit);
                }
            }
        }
        match key.key {
            Key::Enter => Some(Action::Enter),
            Key::Esc => Some(Action::Back),
            Key::Backspace => Some(Action::Backspace),
            Key::Left => Some(Action::CursorLeft),
            Key::Right => Some(Action::CursorRight),
            Key::Char(c) => Some(Action::Char(c)),
            _ => None,
        }
    }
}

impl Default for EventHandler {
    /// The default handler: the default poll timeout.
    fn default() -> (r: EventHandler)
        ensures
            r.poll_timeout_ms == 100,
    {
        EventHandler::new()
    }
}

} // verus!
