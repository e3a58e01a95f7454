//! The report targets the engine's decision is handed to.
//!
//! Publishing — printing to the console or commenting on the tracker — is
//! I/O and is left to the surrounding program.

use vstd::prelude::*;

verus! {

/// The report target that prints the answer to standard output.
#[derive(PartialEq, Eq, Structural)]
pub struct StdoutReport {}

impl StdoutReport {
    /// A report target for standard output.
    pub fn new() -> (r: StdoutReport)
        ensures
            r == (StdoutReport {  }),
    {
        StdoutReport {  }
    }
}

impl Default for StdoutReport {
    fn default() -> (r: Self)
        ensures
            r == (StdoutReport {  }),
    {
        StdoutReport {  }
    }
}

} // verus!
