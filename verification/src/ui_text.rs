//! Fixed texts of the interface: the command hints each view offers, and
//! the glyphs of the input dialog.

use vstd::prelude::*;
use vstd::view::View as VstdView;

use crate::app::View;

verus! {

/// Block cursor drawn in input fields.
pub const BLOCK_CURSOR: &'static str = "\u{2588}";

/// Prompt indicator drawn before the input field.
pub const INPUT_INDICATOR: &'static str = "> ";

/// The command hints of each view: key, then what it does.
pub open spec fn commands_spec(view: View) -> Seq<(Seq<char>, Seq<char>)> {
    match view {
        View::AuthRequired => seq![("Enter"@, "authenticate"@), ("q"@, "quit"@)],
        View::SecretsList => seq![
            ("j/k"@, "navigate"@),
            ("Enter"@, "view"@),
            ("n"@, "new secret"@),
            ("p"@, "switch project"@),
            ("r"@, "refresh"@),
            ("?"@, "help"@),
            ("q"@, "quit"@),
        ],
        View::ProjectSelector => seq![
            ("j/k"@, "navigate"@),
            ("Enter"@, "select"@),
            ("Esc"@, "cancel"@),
        ],
        View::SecretDetail => seq![
            ("b"@, "back"@),
            ("j/k"@, "navigate"@),
            ("s"@, "show"@),
            ("c"@, "copy"@),
            ("a"@, "add"@),
            ("e/x"@, "enable/disable"@),
            ("p"@, "project"@),
        ],
        View::Input(_) => seq![("Enter"@, "submit"@), ("Esc"@, "cancel"@)],
        View::Confirm(_) => seq![("Enter"@, "confirm"@), ("Esc"@, "cancel"@)],
    }
}

/// The command hints available in `view`, in display order.
pub fn get_commands_for_view(view: &View) -> (r: Vec<(&'static str, &'static str)>)
    ensures
        r.deep_view() == commands_spec(*view),
{
    let r: Vec<(&'static str, &'static str)> = match view {
        View::AuthRequired => vec![("Enter", "authenticate"), ("q", "quit")],
        View::SecretsList => vec![
            ("j/k", "navigate"),
            ("Enter", "view"),
            ("n", "new secret"),
            ("p", "switch project"),
            ("r", "refresh"),
            ("?", "help"),
            ("q", "quit"),
        ],
        View::ProjectSelector => vec![("j/k", "navigate"), ("Enter", "select"), ("Esc", "cancel")],
        View::SecretDetail => vec![
            ("b", "back"),
            ("j/k", "navigate"),
            ("s", "show"),
            ("c", "copy"),
            ("a", "add"),
            ("e/x", "enable/disable"),
            ("p", "project"),
        ],
        View::Input(_) => vec![("Enter", "submit"), ("Esc", "cancel")],
        View::Confirm(_) => vec![("Enter", "confirm"), ("Esc", "cancel")],
    };
    proof {
        assert(r.deep_view() =~= commands_spec(*view));
    }
    r
}

} // verus!
