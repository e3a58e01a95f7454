//! The fact table and the line parser.
//!
//! A fact source is an ordered sequence of lines, each of the form
//! `dimension:pattern` with the dimension one of `author`, `label` or
//! `title`. Parsing keeps each dimension's patterns in input order; a line
//! with no recognized dimension prefix is a fatal error that names the line.

use vstd::prelude::*;
use vstd::string::StringExecFns;

use crate::text::str_eq;
use crate::text::strip_prefix_str;

verus! {

/// A fatal error of the engine: a fact line with no recognized dimension
/// prefix, or a lookup of a dimension that the table does not hold.
#[derive(Debug, Clone, PartialEq, Eq)]
pub enum FactError {
    UnsupportedSyntax { line: String },
    MissingDimension { dimension: String },
}

impl FactError {
    /// The error's description; it names the offending line or dimension.
    pub fn message(&self) -> (r: String)
        ensures
            match self {
                FactError::UnsupportedSyntax { line } => r@ == "Parsing error in line "@ + line@
                    + ": unsupported syntax"@,
                FactError::MissingDimension { dimension } => r@ == "Failed to obtain "@
                    + dimension@ + " facts"@,
            },
    {
        match self {
            FactError::UnsupportedSyntax { line } => String::from_str(
                "Parsing error in line ",
            ).concat(line.as_str()).concat(": unsupported syntax"),
            FactError::MissingDimension { dimension } => String::from_str(
                "Failed to obtain ",
            ).concat(dimension.as_str()).concat(" facts"),
        }
    }
}

/// Does the line open with one of the three recognized dimension prefixes?
pub open spec fn line_supported(l: Seq<char>) -> bool {
    ||| "author:"@.is_prefix_of(l)
    ||| "label:"@.is_prefix_of(l)
    ||| "title:"@.is_prefix_of(l)
}

/// The patterns that the lines assign to the dimension with the given
/// `prefix` (`"author:"`, `"label:"` or `"title:"`), in input order: for
/// each line opening with the prefix, the rest of that line.
pub open spec fn dim_facts(lines: Seq<Seq<char>>, prefix: Seq<char>) -> Seq<Seq<char>>
    decreases lines.len(),
{
    if lines.len() == 0 {
        Seq::empty()
    } else {
        let rest = dim_facts(lines.skip(1), prefix);
        if prefix.is_prefix_of(lines[0]) {
            seq![lines[0].skip(prefix.len() as int)] + rest
        } else {
            rest
        }
    }
}

/// No line opens with two of the three dimension prefixes at once: the
/// prefixes differ already in their first character.
proof fn lemma_prefixes_exclusive(l: Seq<char>)
    ensures
        !("author:"@.is_prefix_of(l) && "label:"@.is_prefix_of(l)),
        !("author:"@.is_prefix_of(l) && "title:"@.is_prefix_of(l)),
        !("label:"@.is_prefix_of(l) && "title:"@.is_prefix_of(l)),
{
    reveal_strlit("author:");
    reveal_strlit("label:");
    reveal_strlit("title:");
    if "author:"@.is_prefix_of(l) {
        assert(l.subrange(0, 7)[0] == l[0]);
    }
    if "label:"@.is_prefix_of(l) {
        assert(l.subrange(0, 6)[0] == l[0]);
    }
    if "title:"@.is_prefix_of(l) {
        assert(l.subrange(0, 6)[0] == l[0]);
    }
}

/// The parsed facts: for each of the three dimensions, its patterns in
/// input order. All three dimensions are always present, possibly with
/// empty pattern lists.
#[derive(Debug)]
pub struct FactTable {
    pub author: Vec<String>,
    pub label: Vec<String>,
    pub title: Vec<String>,
}

impl FactTable {
    /// Is `name` one of the three dimensions the table holds?
    pub open spec fn has_dim(self, name: Seq<char>) -> bool {
        ||| name == "author"@
        ||| name == "label"@
        ||| name == "title"@
    }

    /// The patterns of the dimension called `name`.
    pub open spec fn dim(self, name: Seq<char>) -> Seq<Seq<char>> {
        if name == "author"@ {
            self.author.deep_view()
        } else if name == "label"@ {
            self.label.deep_view()
        } else if name == "title"@ {
            self.title.deep_view()
        } else {
            Seq::empty()
        }
    }

    /// The ordered patterns of dimension `name`, or the missing-dimension
    /// error naming `name` when it is not one of the three dimensions.
    pub fn get(&self, name: &str) -> (r: Result<&Vec<String>, FactError>)
        ensures
            match r {
                Ok(v) => self.has_dim(name@) && v.deep_view() == self.dim(name@),
                Err(e) => !self.has_dim(name@) && (match e {
                    FactError::MissingDimension { dimension } => dimension@ == name@,
                    FactError::UnsupportedSyntax { .. } => false,
                }),
            },
    {
        if str_eq(name, "author") {
            Ok(&self.author)
        } else if str_eq(name, "label") {
            Ok(&self.label)
        } else if str_eq(name, "title") {
            Ok(&self.title)
        } else {
            Err(FactError::MissingDimension { dimension: name.to_owned() })
        }
    }
}

/// Parse fact lines into a fact table.
///
/// Every line must open with `author:`, `label:` or `title:`; the rest of
/// the line, unmodified, becomes one pattern of that dimension, in input
/// order. The first line that opens with none of the three prefixes makes
/// the whole parse fail with an unsupported-syntax error naming that line;
/// an empty line is itself such an error, not a no-op.
pub fn parse_facts(content: Vec<String>) -> (r: Result<FactTable, FactError>)
    ensures
        match r {
            Ok(t) => {
                &&& forall|i: int|
                    0 <= i < content.deep_view().len() ==> line_supported(
                        #[trigger] content.deep_view()[i],
                    )
                &&& t.author.deep_view() == dim_facts(content.deep_view(), "author:"@)
                &&& t.label.deep_view() == dim_facts(content.deep_view(), "label:"@)
                &&& t.title.deep_view() == dim_facts(content.deep_view(), "title:"@)
            },
            Err(e) => match e {
                FactError::UnsupportedSyntax { line } => exists|i: int|
                    {
                        &&& 0 <= i < content.deep_view().len()
                        &&& !line_supported(#[trigger] content.deep_view()[i])
                        &&& line@ == content.deep_view()[i]
                        &&& forall|j: int|
                            0 <= j < i ==> line_supported(#[trigger] content.deep_view()[j])
                    },
                FactError::MissingDimension { .. } => false,
            },
        },
{
    let ghost lv = content.deep_view();
    let mut author: Vec<String> = Vec::new();
    let mut label: Vec<String> = Vec::new();
    let mut title: Vec<String> = Vec::new();
    let mut idx: usize = 0;
    proof {
        assert(lv.skip(0) =~= lv);
        assert(author.deep_view() =~= Seq::<Seq<char>>::empty());
        assert(author.deep_view() + dim_facts(lv, "author:"@) =~= dim_facts(lv, "author:"@));
        assert(label.deep_view() + dim_facts(lv, "label:"@) =~= dim_facts(lv, "label:"@));
        assert(title.deep_view() + dim_facts(lv, "title:"@) =~= dim_facts(lv, "title:"@));
    }
    while idx < content.len()
        invariant
            lv == content.deep_view(),
            0 <= idx <= content.len(),
            forall|j: int| 0 <= j < idx ==> line_supported(#[trigger] lv[j]),
            dim_facts(lv, "author:"@) == author.deep_view() + dim_facts(
                lv.skip(idx as int),
                "author:"@,
            ),
            dim_facts(lv, "label:"@) == label.deep_view() + dim_facts(
                lv.skip(idx as int),
                "label:"@,
            ),
            dim_facts(lv, "title:"@) == title.deep_view() + dim_facts(
                lv.skip(idx as int),
                "title:"@,
            ),
        decreases content.len() - idx,
    {
        let line = &content[idx];
        proof {
            assert(lv.skip(idx as int)[0] == lv[idx as int]);
            assert(lv.skip(idx as int).skip(1) =~= lv.skip(idx as int + 1));
            lemma_prefixes_exclusive(line@);
        }
        if let Some(rest) = strip_prefix_str(line.as_str(), "author:") {
            let ghost prev = author.deep_view();
            author.push(rest);
            proof {
                assert(author.deep_view() =~= prev.push(line@.skip("author:"@.len() as int)));
                assert(prev + (seq![lv[idx as int].skip("author:"@.len() as int)] + dim_facts(
                    lv.skip(idx as int + 1),
                    "author:"@,
                )) =~= author.deep_view() + dim_facts(lv.skip(idx as int + 1), "author:"@));
            }
        } else if let Some(rest) = strip_prefix_str(line.as_str(), "label:") {
            let ghost prev = label.deep_view();
            label.push(rest);
            proof {
                assert(label.deep_view() =~= prev.push(line@.skip("label:"@.len() as int)));
                assert(prev + (seq![lv[idx as int].skip("label:"@.len() as int)] + dim_facts(
                    lv.skip(idx as int + 1),
                    "label:"@,
                )) =~= label.deep_view() + dim_facts(lv.skip(idx as int + 1), "label:"@));
            }
        } else if let Some(rest) = strip_prefix_str(line.as_str(), "title:") {
            let ghost prev = title.deep_view();
            title.push(rest);
            proof {
                assert(title.deep_view() =~= prev.push(line@.skip("title:"@.len() as int)));
                assert(prev + (seq![lv[idx as int].skip("title:"@.len() as int)] + dim_facts(
                    lv.skip(idx as int + 1),
                    "title:"@,
                )) =~= title.deep_view() + dim_facts(lv.skip(idx as int + 1), "title:"@));
            }
        } else {
            return Err(FactError::UnsupportedSyntax { line: line.clone() });
        }
        idx += 1;
    }
    proof {
        assert(lv.skip(content.len() as int) =~= Seq::<Seq<char>>::empty());
        assert(author.deep_view() + Seq::<Seq<char>>::empty() =~= author.deep_view());
        assert(label.deep_view() + Seq::<Seq<char>>::empty() =~= label.deep_view());
        assert(title.deep_view() + Seq::<Seq<char>>::empty() =~= title.deep_view());
    }
    Ok(FactTable { author, label, title })
}

} // verus!
