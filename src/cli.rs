//! The command-line options, as plain values.

use vstd::prelude::*;
use crate::remote::RemoteFile;

verus! {

/// The options given on the command line.
#[derive(Debug)]
pub struct Cli {
    /// Display more output.
    pub verbose: bool,
    /// Additional checklist files (or directories of them).
    pub checks: Vec<String>,
    /// Directory of the project to audit.
    pub project_dir: Option<String>,
    /// Do not read from the cache.
    pub no_read_cache: bool,
    /// Do not write to the cache.
    pub no_write_cache: bool,
    /// Neither read from nor write to the cache.
    pub no_cache: bool,
    /// Delete the cache before running.
    pub clear_cache: bool,
    /// Do not use the user-wide checklists.
    pub no_user_checklists: bool,
    /// Stop after the first failure.
    pub fail_fast: bool,
    /// External checklists to pull.
    pub external_checklist: Vec<RemoteFile>,
    /// External templates to pull.
    pub external_template: Vec<RemoteFile>,
}

} // verus!
