//! The command line as plain values: the subcommand and its arguments.

use vstd::prelude::*;

verus! {

/// The parsed command line.
#[derive(Debug, Clone, PartialEq, Eq)]
pub struct Cli {
    pub command: Option<Commands>,
}

/// The subcommands and their arguments.
#[derive(Debug, Clone, PartialEq, Eq)]
pub enum Commands {
    /// Remove files or directories by moving them into the vault.
    Rm {
        paths: Vec<String>,
        permanent: bool,
        force: bool,
        recursive: bool,
        verbose: bool,
        interactive: bool,
        dir: bool,
    },
    /// List removed items.
    Ls { limit: usize, all: bool, ids: bool },
    /// Bring an item back by id or name.
    Restore { target: String, keep_vault: bool, force: bool },
    /// Show everything recorded about an entry.
    Inspect { id: i64 },
    /// Remove items from the vault for good.
    Purge { targets: Vec<String>, days: Option<u32>, all: bool, force: bool },
    /// Open the interactive dashboard.
    Tui,
    /// Print the shell integration script.
    Init { shell: Option<String>, alias: String, alias_rm: bool },
    /// Manage or test the exclusion rules.
    Exclude { pattern: Option<String>, list: bool, test: Option<String>, remove: Option<String> },
}

impl Cli {
    /// The subcommand to run: the dashboard when none was given.
    pub fn command_to_run(self) -> (r: Commands)
        ensures
            r == (match self.command {
                Some(c) => c,
                None => Commands::Tui,
            }),
    {
        match self.command {
            Some(c) => c,
            None => Commands::Tui,
        }
    }
}

} // verus!
