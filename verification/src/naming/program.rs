//! Labels of the places that stand for the program as a whole.

use vstd::prelude::*;

verus! {

/// The place that holds the one token of the initial marking.
pub const PROGRAM_START: &'static str = "PROGRAM_START";

/// The place that a token reaches when the program ends.
pub const PROGRAM_END: &'static str = "PROGRAM_END";

/// The place that a token reaches when a panic ends the program.
pub const PROGRAM_PANIC: &'static str = "PROGRAM_PANIC";

} // verus!
