//! The repository-qualified identity of an issue.

use vstd::prelude::*;

verus! {

/// An issue named by its repository (`owner/name`) and its number.
#[derive(Clone)]
pub struct Issue {
    repo: String,
    number: usize,
}

impl Issue {
    /// The repository, as `owner/name`.
    pub closed spec fn spec_repo(&self) -> Seq<char> {
        self.repo@
    }

    /// The issue number.
    pub closed spec fn spec_number(&self) -> usize {
        self.number
    }

    /// The issue `number` of `repo`.
    pub fn new(repo: String, number: usize) -> (r: Issue)
        ensures
            r.spec_repo() == repo@,
            r.spec_number() == number,
    {
        Issue { repo, number }
    }

    /// The repository, as `owner/name`.
    pub fn repo(&self) -> (r: &str)
        ensures
            r@ == self.spec_repo(),
    {
        self.repo.as_str()
    }

    /// The issue number.
    pub fn number(&self) -> (r: usize)
        ensures
            r == self.spec_number(),
    {
        self.number
    }
}

} // verus!
