//! General properties of the matcher, stated and proved once for all
//! values.

use vstd::prelude::*;

use crate::matcher::spec_matches_dimension;
use crate::pattern::array_elements;
use crate::pattern::spec_pattern_matches;

verus! {

/// An empty pattern list matches no value.
pub proof fn lemma_empty_patterns_match_nothing(v: Seq<char>)
    ensures
        !spec_matches_dimension(v, Seq::<Seq<char>>::empty()),
{
}

/// Matching against a one-pattern dimension is matching that pattern.
pub proof fn lemma_singleton_dimension(v: Seq<char>, p: Seq<char>)
    ensures
        spec_matches_dimension(v, seq![p]) == spec_pattern_matches(p, v),
{
    assert(seq![p][0] == p);
    if spec_pattern_matches(p, v) {
        assert(0 <= 0 < seq![p].len() && spec_pattern_matches(seq![p][0], v));
        assert(spec_matches_dimension(v, seq![p]));
    }
}

/// For a literal `p` (one that opens with none of `!`, `[` and `*`), the
/// pattern `p` matches exactly the value `p`, and the negated pattern `!p`
/// matches exactly the other values: the two one-pattern dimensions are
/// complementary.
pub proof fn lemma_exact_and_negated_complementary(p: Seq<char>, v: Seq<char>)
    requires
        p.len() > 0 ==> p[0] != '!' && p[0] != '[' && p[0] != '*',
    ensures
        spec_matches_dimension(v, seq![p]) == (v == p),
        spec_matches_dimension(v, seq![seq!['!'] + p]) == (v != p),
        spec_matches_dimension(v, seq![seq!['!'] + p]) == !spec_matches_dimension(v, seq![p]),
{
    lemma_singleton_dimension(v, p);
    assert(spec_pattern_matches(p, v) == (v == p));
    let np = seq!['!'] + p;
    lemma_singleton_dimension(v, np);
    assert(np[0] == '!');
    assert(np.skip(1) =~= p);
    assert(spec_pattern_matches(np, v) == (v != p));
}

/// The pattern `*p` matches exactly the values that start with `p`, and
/// the negated pattern `!*p` matches exactly the others — for every `p`,
/// even one that itself opens with a special character.
pub proof fn lemma_prefix_and_negated_complementary(p: Seq<char>, v: Seq<char>)
    ensures
        spec_matches_dimension(v, seq![seq!['*'] + p]) == p.is_prefix_of(v),
        spec_matches_dimension(v, seq![seq!['!', '*'] + p]) == !p.is_prefix_of(v),
{
    let sp = seq!['*'] + p;
    lemma_singleton_dimension(v, sp);
    assert(sp[0] == '*');
    assert(sp.skip(1) =~= p);
    let nsp = seq!['!', '*'] + p;
    lemma_singleton_dimension(v, nsp);
    assert(nsp[0] == '!');
    let rest = nsp.skip(1);
    assert(rest =~= seq!['*'] + p);
    assert(rest[0] == '*');
    assert(rest.skip(1) =~= p);
}

/// Array membership is order-independent: two array patterns whose element
/// sequences hold the same values match exactly the same values.
pub proof fn lemma_array_order_independent(b1: Seq<char>, b2: Seq<char>, v: Seq<char>)
    requires
        array_elements(b1).to_set() == array_elements(b2).to_set(),
    ensures
        spec_matches_dimension(v, seq![seq!['['] + b1]) == spec_matches_dimension(
            v,
            seq![seq!['['] + b2],
        ),
{
    let a1 = seq!['['] + b1;
    let a2 = seq!['['] + b2;
    lemma_singleton_dimension(v, a1);
    lemma_singleton_dimension(v, a2);
    assert(a1[0] == '[');
    assert(a1.skip(1) =~= b1);
    assert(a2[0] == '[');
    assert(a2.skip(1) =~= b2);
    assert(array_elements(b1).contains(v) == array_elements(b1).to_set().contains(v));
    assert(array_elements(b2).contains(v) == array_elements(b2).to_set().contains(v));
}

} // verus!
