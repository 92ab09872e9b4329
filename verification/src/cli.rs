//! What the command line asks for.

use vstd::prelude::*;

verus! {

/// The arguments of the command line.
#[derive(Debug, Clone)]
pub struct Cli {
    /// Custom identifier to encrypt.
    pub id: Option<String>,
    /// Encrypted token to decrypt.
    pub eid: Option<String>,
    /// Machine identifier that the key is derived from.
    pub uuid: Option<String>,
    /// Language of the messages.
    pub lang: String,
    /// Whether the detailed help was asked for.
    pub help: bool,
}

/// What the program does for one command line.
#[derive(Debug, Clone, Copy, PartialEq, Eq, Structural)]
pub enum CliAction {
    /// Show the detailed help.
    ShowHelp,
    /// Open the interactive menu.
    Interactive,
    /// Report that the machine identifier is missing.
    MissingUuid,
    /// Encrypt the custom identifier.
    Encrypt,
    /// Decrypt the token.
    Decrypt,
    /// Nothing was asked for.
    Nothing,
}

/// The action for a command line, by what it holds: help comes first; with no argument at
/// all the menu opens; everything else needs the machine identifier; an identifier to
/// encrypt comes before a token to decrypt.
pub open spec fn action_for(help: bool, has_id: bool, has_eid: bool, has_uuid: bool) -> CliAction {
    if help {
        CliAction::ShowHelp
    } else if !has_id && !has_eid && !has_uuid {
        CliAction::Interactive
    } else if !has_uuid {
        CliAction::MissingUuid
    } else if has_id {
        CliAction::Encrypt
    } else if has_eid {
        CliAction::Decrypt
    } else {
        CliAction::Nothing
    }
}

impl Cli {
    /// The action that these arguments ask for.
    pub fn action(&self) -> (action: CliAction)
        ensures
            action == action_for(self.help, self.id is Some, self.eid is Some, self.uuid is Some),
            action == CliAction::Encrypt ==> self.id is Some && self.uuid is Some,
            action == CliAction::Decrypt ==> self.eid is Some && self.uuid is Some,
    {
        let has_id = self.id.is_some();
        let has_eid = self.eid.is_some();
        let has_uuid = self.uuid.is_some();
        if self.help {
            CliAction::ShowHelp
        } else if !has_id && !has_eid && !has_uuid {
            CliAction::Interactive
        } else if !has_uuid {
            CliAction::MissingUuid
        } else if has_id {
            CliAction::Encrypt
        } else if has_eid {
            CliAction::Decrypt
        } else {
            CliAction::Nothing
        }
    }
}

} // verus!
