//! The run's configuration surface: what the command line hands the
//! traversal. Reading the actual command line is the caller's work.

use vstd::prelude::*;

verus! {

/// The configuration of one run: the root search path and the name of the
/// ignore file looked for in every directory.
#[derive(Debug, PartialEq, Eq)]
pub struct Arguments {
    pub path: String,
    pub ignore_file_name: String,
}

} // verus!
