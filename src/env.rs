//! The process environment as the library sees it: a snapshot of variables,
//! and lookups of executables on the search path.

use vstd::prelude::*;
use crate::keyed::StrMap;

verus! {

/// Relies on `which::which`: whether an executable of that name resolves on
/// the search path. The answer depends on the file system and may differ
/// between calls.
#[verifier::external_body]
pub(crate) fn executable_found(name: &str) -> (r: bool) {
    which::which(name).is_ok()
}

/// A snapshot of environment variables, name to value.
pub type EnvVars = StrMap;

} // verus!
