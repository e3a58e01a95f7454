//! Dimension matching and the composite ignore decision for one issue.

use vstd::prelude::*;

use crate::facts::FactError;
use crate::facts::FactTable;
use crate::pattern::pattern_matches;
use crate::pattern::spec_pattern_matches;

verus! {

/// Does any one of the patterns match the value? An empty pattern list
/// matches nothing.
pub open spec fn spec_matches_dimension(v: Seq<char>, patterns: Seq<Seq<char>>) -> bool {
    exists|i: int| 0 <= i < patterns.len() && spec_pattern_matches(patterns[i], v)
}

/// Does any one of the patterns match the value?
pub fn matches_dimension(value: &str, patterns: &Vec<String>) -> (r: bool)
    ensures
        r == spec_matches_dimension(value@, patterns.deep_view()),
{
    let mut i: usize = 0;
    while i < patterns.len()
        invariant
            0 <= i <= patterns.len(),
            forall|j: int|
                0 <= j < i ==> !spec_pattern_matches(#[trigger] patterns.deep_view()[j], value@),
        decreases patterns.len() - i,
    {
        if pattern_matches(patterns[i].as_str(), value) {
            proof {
                assert(spec_pattern_matches(patterns.deep_view()[i as int], value@));
            }
            return true;
        }
        i += 1;
    }
    false
}

/// Is the issue title matched by any pattern of the `title` dimension?
/// A table built by the parser always holds the `title` dimension.
pub fn ignores_title(issue: String, facts: &FactTable) -> (r: bool)
    ensures
        r == spec_matches_dimension(issue@, facts.title.deep_view()),
{
    matches_dimension(issue.as_str(), &facts.title)
}

/// Is the value matched by any pattern of the dimension called `dim`?
/// A dimension name outside `author`, `label` and `title` is a caller
/// error, reported as a missing-dimension error naming `dim`.
pub fn ignores_dim(issue: String, dim: String, facts: &FactTable) -> (r: Result<bool, FactError>)
    ensures
        match r {
            Ok(b) => facts.has_dim(dim@) && b == spec_matches_dimension(issue@, facts.dim(dim@)),
            Err(e) => !facts.has_dim(dim@) && (match e {
                FactError::MissingDimension { dimension } => dimension@ == dim@,
                FactError::UnsupportedSyntax { .. } => false,
            }),
        },
{
    match facts.get(dim.as_str()) {
        Ok(patterns) => Ok(matches_dimension(issue.as_str(), patterns)),
        Err(e) => Err(e),
    }
}

/// The three observable attributes of an issue that the engine consumes.
pub struct IssueView {
    pub title: String,
    pub author: String,
    pub labels: Vec<String>,
    pub body: String,
}

/// Should the issue be ignored: does any of its labels match a `label`
/// fact, or its title a `title` fact, or its author an `author` fact?
pub open spec fn spec_ignore_issue(issue: IssueView, facts: FactTable) -> bool {
    ||| exists|i: int|
        0 <= i < issue.labels.deep_view().len() && spec_matches_dimension(
            #[trigger] issue.labels.deep_view()[i],
            facts.label.deep_view(),
        )
    ||| spec_matches_dimension(issue.title@, facts.title.deep_view())
    ||| spec_matches_dimension(issue.author@, facts.author.deep_view())
}

/// Decide whether the issue is ignored. Every label is checked against the
/// `label` dimension, the title against `title`, the author against
/// `author`; the decision is the disjunction of all those checks.
pub fn ignore_issue(issue: &IssueView, facts: &FactTable) -> (r: bool)
    ensures
        r == spec_ignore_issue(*issue, *facts),
{
    let mut result = false;
    let mut i: usize = 0;
    while i < issue.labels.len()
        invariant
            0 <= i <= issue.labels.len(),
            result == exists|j: int|
                0 <= j < i && spec_matches_dimension(
                    #[trigger] issue.labels.deep_view()[j],
                    facts.label.deep_view(),
                ),
        decreases issue.labels.len() - i,
    {
        if matches_dimension(issue.labels[i].as_str(), &facts.label) {
            result = true;
            proof {
                assert(spec_matches_dimension(
                    issue.labels.deep_view()[i as int],
                    facts.label.deep_view(),
                ));
            }
        }
        i += 1;
    }
    if ignores_title(issue.title.clone(), facts) {
        result = true;
    } else if matches_dimension(issue.author.as_str(), &facts.author) {
        result = true;
    }
    result
}

} // verus!
