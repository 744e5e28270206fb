//! The outcome of an external command, as the decision functions read it.

use vstd::prelude::*;

verus! {

/// What a finished external command reported; its output decoded as UTF-8
/// (invalid sequences replaced).
#[derive(Debug)]
pub struct CommandOutcome {
    pub success: bool,
    pub code: Option<i32>,
    pub stdout: String,
    pub stderr: String,
}

} // verus!
