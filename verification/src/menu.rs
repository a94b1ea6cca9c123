//! What the shell shows: the entries of the tray menu, and a greeting.

use vstd::prelude::*;
use vstd::string::StrSliceExecFns;
use vstd::string::StringExecFns;
use crate::text::{chars_of, same_text};

verus! {

/// The label under which a prompt is listed in the menu: its title behind
/// two blanks, cut to 27 characters and three dots where it has more than
/// 30.
pub open spec fn menu_label_text(title: Seq<char>) -> Seq<char> {
    if title.len() > 30 {
        "  "@ + title.take(27) + "..."@
    } else {
        "  "@ + title
    }
}

/// Makes the label under which a prompt is listed in the menu.
pub fn menu_label(title: &str) -> (label: String)
    ensures
        label@ == menu_label_text(title@),
{
    if title.unicode_len() > 30 {
        String::from_str("  ").concat(title.substring_char(0, 27)).concat("...")
    } else {
        String::from_str("  ").concat(title)
    }
}

/// What choosing an entry of the tray menu asks for.
#[derive(Clone, Copy, Debug, PartialEq, Eq, Structural)]
pub enum MenuChoice {
    /// Leave the program.
    Quit,
    /// Bring the main window to the front.
    ShowWindow,
    /// The entry is a heading or a note and does nothing.
    Nothing,
    /// Copy the prompt whose id the entry carries.
    CopyPrompt,
}

/// What the entry with a given id asks for. The ids `quit` and `show-window`
/// are the two commands; `recent-title`, `no-recent` and every id that
/// begins with `no-` do nothing; any other id is the id of a prompt.
pub open spec fn menu_choice_of(id: Seq<char>) -> MenuChoice {
    if id == "quit"@ {
        MenuChoice::Quit
    } else if id == "show-window"@ {
        MenuChoice::ShowWindow
    } else if id == "recent-title"@ || id == "no-recent"@ {
        MenuChoice::Nothing
    } else if id.len() >= 3 && id.take(3) == "no-"@ {
        MenuChoice::Nothing
    } else {
        MenuChoice::CopyPrompt
    }
}

/// Says what the entry with a given id asks for.
pub fn menu_choice(id: &str) -> (choice: MenuChoice)
    ensures
        choice == menu_choice_of(id@),
{
    if same_text(id, "quit") {
        MenuChoice::Quit
    } else if same_text(id, "show-window") {
        MenuChoice::ShowWindow
    } else if same_text(id, "recent-title") || same_text(id, "no-recent") {
        MenuChoice::Nothing
    } else {
        let chars = chars_of(id);
        proof {
            reveal_strlit("no-");
            if chars@.len() >= 3 {
                let head = id@.take(3);
                assert(head.len() == 3 && head[0] == chars@[0] && head[1] == chars@[1] && head[2] == chars@[2]);
                if chars@[0] == 'n' && chars@[1] == 'o' && chars@[2] == '-' {
                    assert(head =~= "no-"@);
                }
            }
        }
        if chars.len() >= 3 && chars[0] == 'n' && chars[1] == 'o' && chars[2] == '-' {
            MenuChoice::Nothing
        } else {
            MenuChoice::CopyPrompt
        }
    }
}

/// The greeting for a name.
pub open spec fn greeting_text(name: Seq<char>) -> Seq<char> {
    "Hello, "@ + name + "! You've been greeted from Rust!"@
}

/// Greets by name.
pub fn greeting(name: &str) -> (words: String)
    ensures
        words@ == greeting_text(name@),
{
    String::from_str("Hello, ").concat(name).concat("! You've been greeted from Rust!")
}

} // verus!
