//! CLI.
//!
//! The commands of the `trash` program and their arguments, as plain values.

use vstd::prelude::*;

verus! {

/// Perform various operations on the trash.
#[derive(Clone, Debug, PartialEq)]
pub struct Cli {
    /// Command.
    pub command: Command,
}

/// Command.
#[derive(Clone, Debug, PartialEq)]
pub enum Command {
    /// List the files in the trash.
    List(ListArgs),
    /// Put files in the trash.
    Put(PutArgs),
    /// Restore files from the trash.
    Restore(RestoreArgs),
    /// Empty the trash.
    Empty(EmptyArgs),
}

/// Arguments to the `list` command.
#[derive(Clone, Debug, PartialEq)]
pub struct ListArgs {
    /// Verbose output.
    pub verbose: bool,
    /// Print human-readable sizes.
    pub human_readable: bool,
    /// Sort order.
    pub sort_order: SortOrder,
    /// Path patterns: with any, only the entries are listed whose original
    /// path matches one of them.
    pub patterns: Vec<String>,
}

/// Sort order for the `list` command.
#[derive(Clone, Copy, Debug, PartialEq, Eq, Structural)]
pub enum SortOrder {
    /// Path, ascending.
    Path,
    /// Deletion time, descending.
    Date,
}

impl Default for SortOrder {
    fn default() -> (sort_order: SortOrder)
        ensures
            sort_order == SortOrder::Path,
    {
        SortOrder::Path
    }
}

/// Arguments to the `put` command.
#[derive(Clone, Debug, PartialEq)]
pub struct PutArgs {
    /// Prompt before every path.
    pub interactive: bool,
    /// Verbose output.
    pub verbose: bool,
    /// Paths.
    pub paths: Vec<String>,
}

/// Arguments to the `restore` command.
#[derive(Clone, Debug, PartialEq)]
pub struct RestoreArgs {
    /// Prompt before every path.
    pub interactive: bool,
    /// Verbose output.
    pub verbose: bool,
    /// Paths. Defaults to the most recently trashed file.
    pub paths: Vec<String>,
}

/// Arguments to the `empty` command.
#[derive(Clone, Copy, Debug, PartialEq, Eq, Structural)]
pub struct EmptyArgs {
    /// Do not prompt before emptying the trash.
    pub force: bool,
    /// Verbose output.
    pub verbose: bool,
}

} // verus!
