//! The command that looks at the revolver.

use vstd::prelude::*;

verus! {

/// Peek the left-over chambers, acquiring count of filled and left chambers.
pub struct PeekCommand;

impl PeekCommand {
    /// Trigger word.
    pub const TRIGGER: &'static str = "peek";

    /// Help message.
    pub const HELP: &'static str =
        "Peek the left-over chambers, acquiring count of filled and left chambers.";
}

} // verus!
