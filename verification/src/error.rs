//! What can end a run early.

use vstd::prelude::*;

verus! {

/// The ways in which a run fails. Every one of them is final: nothing is
/// retried and nothing is rolled back.
#[derive(Debug, Clone, PartialEq, Eq)]
pub enum CargoPlayError {
    /// Reading, writing, copying or removing failed; holds the path.
    FileSystem(String),
    /// The dependency directives are no valid manifest fragment; holds the
    /// parser's message.
    ManifestParse(String),
    /// The edition is none of the accepted ones; holds what was given.
    InvalidEdition(String),
    /// A source file cannot be placed relative to the directory of the
    /// primary file; holds the file's path.
    DiffPath(String),
    /// The build tool or the built program could not be started or did not
    /// report a status; holds the program.
    ChildProcess(String),
}

} // verus!
