//! The six pattern forms of a fact line and their match semantics.
//!
//! A pattern is classified purely syntactically, on its first one or two
//! characters: a leading `!` negates the rest, a (then) leading `[` makes an
//! array of comma-separated literals, a (then) leading `*` makes a literal
//! prefix, and anything else is an exact literal. No escaping of `!`, `*`,
//! `[`, `]` or `,` is supported.

use vstd::prelude::*;
use vstd::string::StrSliceExecFns;

use crate::text::contains_string;
use crate::text::split_commas;
use crate::text::split_on;
use crate::text::starts_with_prefix;
use crate::text::str_eq;
use crate::text::strip_brackets;
use crate::text::without_char;

verus! {

/// The elements of an array pattern's body: every `]` is removed, then the
/// body is split at commas. No whitespace is trimmed around the elements.
pub open spec fn array_elements(body: Seq<char>) -> Seq<Seq<char>> {
    split_on(without_char(body, ']'), ',')
}

/// Does the single raw pattern `p` match the value `v`?
pub open spec fn spec_pattern_matches(p: Seq<char>, v: Seq<char>) -> bool {
    if p.len() > 0 && p[0] == '!' {
        let rest = p.skip(1);
        if rest.len() > 0 && rest[0] == '[' {
            !array_elements(rest.skip(1)).contains(v)
        } else if rest.len() > 0 && rest[0] == '*' {
            !rest.skip(1).is_prefix_of(v)
        } else {
            v != rest
        }
    } else if p.len() > 0 && p[0] == '[' {
        array_elements(p.skip(1)).contains(v)
    } else if p.len() > 0 && p[0] == '*' {
        p.skip(1).is_prefix_of(v)
    } else {
        v == p
    }
}

/// The elements of an array pattern body, as owned strings.
pub fn array_elements_exec(body: &str) -> (r: Vec<String>)
    ensures
        r.deep_view() == array_elements(body@),
{
    let cleaned = strip_brackets(body);
    split_commas(cleaned.as_str())
}

/// One fact pattern, classified once into its match form.
pub enum Pattern {
    Exact(String),
    Prefix(String),
    Array(Vec<String>),
    NegatedExact(String),
    NegatedPrefix(String),
    NegatedArray(Vec<String>),
}

impl Pattern {
    /// Does this classified pattern match the value `v`?
    pub open spec fn spec_matches(self, v: Seq<char>) -> bool {
        match self {
            Pattern::Exact(p) => v == p@,
            Pattern::Prefix(p) => p@.is_prefix_of(v),
            Pattern::Array(els) => els.deep_view().contains(v),
            Pattern::NegatedExact(p) => v != p@,
            Pattern::NegatedPrefix(p) => !p@.is_prefix_of(v),
            Pattern::NegatedArray(els) => !els.deep_view().contains(v),
        }
    }

    /// Classify a raw pattern string. The classified pattern matches
    /// exactly the values that the raw pattern matches.
    pub fn classify(raw: &str) -> (p: Pattern)
        ensures
            forall|v: Seq<char>| #[trigger] p.spec_matches(v) == spec_pattern_matches(raw@, v),
    {
        let n = raw.unicode_len();
        if n >= 1 && raw.get_char(0) == '!' {
            if n >= 2 && raw.get_char(1) == '[' {
                proof {
                    assert(raw@.skip(1)[0] == '[');
                    assert(raw@.skip(1).skip(1) =~= raw@.skip(2));
                    assert(raw@.subrange(2, n as int) =~= raw@.skip(2));
                }
                Pattern::NegatedArray(array_elements_exec(raw.substring_char(2, n)))
            } else if n >= 2 && raw.get_char(1) == '*' {
                proof {
                    assert(raw@.skip(1)[0] == '*');
                    assert(raw@.skip(1).skip(1) =~= raw@.skip(2));
                    assert(raw@.subrange(2, n as int) =~= raw@.skip(2));
                }
                Pattern::NegatedPrefix(raw.substring_char(2, n).to_owned())
            } else {
                proof {
                    if n >= 2 {
                        assert(raw@.skip(1)[0] == raw@[1]);
                    }
                    assert(raw@.subrange(1, n as int) =~= raw@.skip(1));
                }
                Pattern::NegatedExact(raw.substring_char(1, n).to_owned())
            }
        } else if n >= 1 && raw.get_char(0) == '[' {
            proof {
                assert(raw@.subrange(1, n as int) =~= raw@.skip(1));
            }
            Pattern::Array(array_elements_exec(raw.substring_char(1, n)))
        } else if n >= 1 && raw.get_char(0) == '*' {
            proof {
                assert(raw@.subrange(1, n as int) =~= raw@.skip(1));
            }
            Pattern::Prefix(raw.substring_char(1, n).to_owned())
        } else {
            Pattern::Exact(raw.to_owned())
        }
    }

    /// Does this pattern match the given value?
    pub fn matches(&self, value: &str) -> (r: bool)
        ensures
            r == self.spec_matches(value@),
    {
        match self {
            Pattern::Exact(p) => str_eq(value, p.as_str()),
            Pattern::Prefix(p) => starts_with_prefix(value, p.as_str()),
            Pattern::Array(els) => contains_string(els, value),
            Pattern::NegatedExact(p) => !str_eq(value, p.as_str()),
            Pattern::NegatedPrefix(p) => !starts_with_prefix(value, p.as_str()),
            Pattern::NegatedArray(els) => !contains_string(els, value),
        }
    }
}

/// Does the raw pattern `raw` match the value?
pub fn pattern_matches(raw: &str, value: &str) -> (r: bool)
    ensures
        r == spec_pattern_matches(raw@, value@),
{
    let p = Pattern::classify(raw);
    p.matches(value)
}

} // verus!
