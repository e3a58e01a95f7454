//! The location of the fact file.
//!
//! Reading the file is left to the surrounding program; the engine only
//! carries the path and parses the lines that the program hands over.

use vstd::prelude::*;

verus! {

/// The path of the file that holds the fact lines.
#[derive(Clone)]
pub struct IgnoreFile {
    path: String,
}

impl IgnoreFile {
    /// The path of the fact file.
    pub closed spec fn spec_path(&self) -> Seq<char> {
        self.path@
    }

    /// An ignore file at `path`.
    pub fn new(path: String) -> (r: IgnoreFile)
        ensures
            r.spec_path() == path@,
    {
        IgnoreFile { path }
    }

    /// The path of the fact file.
    pub fn path(&self) -> (r: &str)
        ensures
            r@ == self.spec_path(),
    {
        self.path.as_str()
    }
}

} // verus!
