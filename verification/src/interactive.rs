//! What an entry of the interactive menu asks for.

use vstd::prelude::*;
use crate::text::chars_of;

verus! {

/// An entry of the main menu.
#[derive(Debug, Clone, Copy, PartialEq, Eq, Structural)]
pub enum MenuChoice {
    /// `1`: encrypt a custom identifier.
    Encrypt,
    /// `2`: decrypt a token.
    Decrypt,
    /// `3`: show the help.
    Help,
    /// `0`: leave.
    Exit,
    /// Anything else: ask again.
    Invalid,
}

/// The entry that the text `choice` selects.
pub open spec fn menu_choice_for(choice: Seq<char>) -> MenuChoice {
    if choice == seq!['1'] {
        MenuChoice::Encrypt
    } else if choice == seq!['2'] {
        MenuChoice::Decrypt
    } else if choice == seq!['3'] {
        MenuChoice::Help
    } else if choice == seq!['0'] {
        MenuChoice::Exit
    } else {
        MenuChoice::Invalid
    }
}

/// Reads a menu entry from the line that the user typed.
pub fn menu_choice(choice: &str) -> (r: MenuChoice)
    ensures
        r == menu_choice_for(choice@),
{
    let c = chars_of(choice);
    if c.len() != 1 {
        return MenuChoice::Invalid;
    }
    let d = c[0];
    proof {
        assert(c@ =~= seq![d]);
    }
    if d == '1' {
        MenuChoice::Encrypt
    } else if d == '2' {
        MenuChoice::Decrypt
    } else if d == '3' {
        MenuChoice::Help
    } else if d == '0' {
        MenuChoice::Exit
    } else {
        MenuChoice::Invalid
    }
}

} // verus!
