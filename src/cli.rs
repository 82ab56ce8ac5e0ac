//! The commands the tool understands.
use vstd::prelude::*;

verus! {

/// A parsed command line.
#[derive(Debug)]
pub struct Cli {
    pub command: Commands,
}

/// The top-level commands.
#[derive(Debug, Clone)]
pub enum Commands {
    /// Add a new note to the current vault.
    Add {
        /// Base of the note's file name
        name: String,
        /// Text of the note; without it an editor is opened
        content: Option<String>,
        /// Tags of the note
        tags: Option<Vec<String>>,
        /// Open the note in an editor even when text was given
        edit: bool,
    },
    /// Manage vaults.
    Vault(VaultCommands),
}

/// The commands on vaults.
#[derive(Debug, Clone)]
pub enum VaultCommands {
    /// Register the working directory as a vault and make it active.
    Init,
    /// List the registered vaults.
    List,
}

impl Commands {
    /// Whether running the command opens an editor on the note: for `add`
    /// when no text was given, or when editing was asked for.
    pub fn opens_editor(&self) -> (r: bool)
        ensures
            r == match self {
                Commands::Add { content, edit, .. } => content is None || *edit,
                Commands::Vault(_) => false,
            },
    {
        match self {
            Commands::Add { content, edit, .. } => content.is_none() || *edit,
            Commands::Vault(_) => false,
        }
    }
}

} // verus!
