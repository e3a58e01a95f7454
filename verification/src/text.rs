//! Character-level helpers shared by the parser and the matcher: string
//! equality, prefix tests, prefix stripping, and comma splitting, each with
//! a contract over the `Seq<char>` view of the strings involved.

use vstd::prelude::*;
use vstd::string::StrSliceExecFns;

verus! {

/// No occurrence of `sep` anywhere in `s`.
pub open spec fn sep_free(s: Seq<char>, sep: char) -> bool {
    forall|i: int| 0 <= i < s.len() ==> s[i] != sep
}

/// Split `s` at every occurrence of `sep`, keeping empty segments, exactly
/// as `str::split` does: the empty string yields one empty segment, and a
/// trailing separator yields a trailing empty segment.
pub open spec fn split_on(s: Seq<char>, sep: char) -> Seq<Seq<char>>
    decreases s.len(),
{
    if s.len() == 0 {
        seq![s]
    } else if s[0] == sep {
        seq![Seq::<char>::empty()] + split_on(s.skip(1), sep)
    } else {
        let rest = split_on(s.skip(1), sep);
        seq![seq![s[0]] + rest[0]] + rest.skip(1)
    }
}

/// `s` with every occurrence of `bad` removed.
pub open spec fn without_char(s: Seq<char>, bad: char) -> Seq<char>
    decreases s.len(),
{
    if s.len() == 0 {
        s
    } else if s[0] == bad {
        without_char(s.skip(1), bad)
    } else {
        seq![s[0]] + without_char(s.skip(1), bad)
    }
}

/// A separator-free string is one single segment.
pub proof fn lemma_split_on_sep_free(s: Seq<char>, sep: char)
    requires
        sep_free(s, sep),
    ensures
        split_on(s, sep) == seq![s],
    decreases s.len(),
{
    if s.len() == 0 {
        assert(split_on(s, sep) =~= seq![s]);
    } else {
        assert(s.skip(1).len() == s.len() - 1);
        lemma_split_on_sep_free(s.skip(1), sep);
        let rest = split_on(s.skip(1), sep);
        assert(rest == seq![s.skip(1)]);
        assert(seq![s[0]] + s.skip(1) =~= s);
        assert(rest.skip(1) =~= Seq::<Seq<char>>::empty());
        assert(split_on(s, sep) =~= seq![s]);
    }
}

/// Splitting a string that opens with a separator-free segment `x`, then a
/// separator, peels off exactly `x` and splits the remainder.
pub proof fn lemma_split_on_step(x: Seq<char>, rest: Seq<char>, sep: char)
    requires
        sep_free(x, sep),
    ensures
        split_on(x + seq![sep] + rest, sep) == seq![x] + split_on(rest, sep),
    decreases x.len(),
{
    let s = x + seq![sep] + rest;
    if x.len() == 0 {
        assert(s.len() >= 1 && s[0] == sep);
        assert(s.skip(1) =~= rest);
        assert(x =~= Seq::<char>::empty());
        assert(split_on(s, sep) =~= seq![x] + split_on(rest, sep));
    } else {
        assert(s.len() >= 1 && s[0] == x[0] && s[0] != sep);
        assert(s.skip(1) =~= x.skip(1) + seq![sep] + rest);
        lemma_split_on_step(x.skip(1), rest, sep);
        let r = split_on(s.skip(1), sep);
        assert(r == seq![x.skip(1)] + split_on(rest, sep));
        assert(r[0] == x.skip(1));
        assert(seq![s[0]] + r[0] =~= x);
        assert(r.skip(1) =~= split_on(rest, sep));
        assert(split_on(s, sep) =~= seq![x] + split_on(rest, sep));
    }
}

/// Executable string equality, pinned to equality of the character views.
pub fn str_eq(a: &str, b: &str) -> (r: bool)
    ensures
        r == (a@ == b@),
{
    let n = a.unicode_len();
    if n != b.unicode_len() {
        return false;
    }
    let mut i: usize = 0;
    while i < n
        invariant
            n == a@.len(),
            n == b@.len(),
            0 <= i <= n,
            forall|j: int| 0 <= j < i ==> a@[j] == b@[j],
        decreases n - i,
    {
        if a.get_char(i) != b.get_char(i) {
            return false;
        }
        i += 1;
    }
    proof {
        assert(a@ =~= b@);
    }
    true
}

/// Executable prefix test, pinned to `Seq::is_prefix_of` on the views.
pub fn starts_with_prefix(v: &str, p: &str) -> (r: bool)
    ensures
        r == p@.is_prefix_of(v@),
{
    let np = p.unicode_len();
    let nv = v.unicode_len();
    if np > nv {
        return false;
    }
    let mut i: usize = 0;
    while i < np
        invariant
            np == p@.len(),
            nv == v@.len(),
            np <= nv,
            0 <= i <= np,
            forall|j: int| 0 <= j < i ==> v@[j] == p@[j],
        decreases np - i,
    {
        if v.get_char(i) != p.get_char(i) {
            proof {
                assert(v@.subrange(0, p@.len() as int)[i as int] == v@[i as int]);
            }
            return false;
        }
        i += 1;
    }
    proof {
        assert(v@.subrange(0, p@.len() as int) =~= p@);
    }
    true
}

/// If `p` is a prefix of `s`, the rest of `s` after it; otherwise `None`.
pub fn strip_prefix_str(s: &str, p: &str) -> (r: Option<String>)
    ensures
        match r {
            Some(rest) => p@.is_prefix_of(s@) && rest@ == s@.skip(p@.len() as int),
            None => !p@.is_prefix_of(s@),
        },
{
    if !starts_with_prefix(s, p) {
        return None;
    }
    let np = p.unicode_len();
    let ns = s.unicode_len();
    Some(s.substring_char(np, ns).to_owned())
}

/// Relies on `String::push`: it appends exactly the one given character.
#[verifier::external_body]
fn push_char(s: &mut String, c: char)
    ensures
        final(s)@ == old(s)@.push(c),
{
    s.push(c);
}

/// `s` with every `]` removed, as `str::replace(']', "")` leaves it.
pub fn strip_brackets(s: &str) -> (r: String)
    ensures
        r@ == without_char(s@, ']'),
{
    let n = s.unicode_len();
    let mut out = String::new();
    let mut i: usize = 0;
    proof {
        assert(s@.skip(0) =~= s@);
        assert(out@ + without_char(s@, ']') =~= without_char(s@, ']'));
    }
    while i < n
        invariant
            n == s@.len(),
            0 <= i <= n,
            without_char(s@, ']') == out@ + without_char(s@.skip(i as int), ']'),
        decreases n - i,
    {
        let c = s.get_char(i);
        proof {
            assert(s@.skip(i as int)[0] == c);
            assert(s@.skip(i as int).skip(1) =~= s@.skip(i as int + 1));
        }
        if c != ']' {
            let ghost prev = out@;
            push_char(&mut out, c);
            proof {
                assert(out@ + without_char(s@.skip(i as int + 1), ']') =~= prev + (seq![c]
                    + without_char(s@.skip(i as int + 1), ']')));
            }
        }
        i += 1;
    }
    proof {
        assert(s@.skip(n as int) =~= Seq::<char>::empty());
        assert(out@ + Seq::<char>::empty() =~= out@);
    }
    out
}

/// Split `s` at every comma, exactly as `str::split(',')` does.
pub fn split_commas(s: &str) -> (r: Vec<String>)
    ensures
        r.deep_view() == split_on(s@, ','),
{
    let n = s.unicode_len();
    let mut result: Vec<String> = Vec::new();
    let mut seg = String::new();
    let mut i: usize = 0;
    proof {
        assert(seg@ + s@.skip(0) =~= s@);
        assert(result.deep_view() =~= Seq::<Seq<char>>::empty());
        assert(result.deep_view() + split_on(s@, ',') =~= split_on(s@, ','));
    }
    while i < n
        invariant
            n == s@.len(),
            0 <= i <= n,
            sep_free(seg@, ','),
            split_on(s@, ',') == result.deep_view() + split_on(seg@ + s@.skip(i as int), ','),
        decreases n - i,
    {
        let c = s.get_char(i);
        proof {
            assert(s@.skip(i as int)[0] == c);
            assert(s@.skip(i as int).skip(1) =~= s@.skip(i as int + 1));
        }
        if c == ',' {
            proof {
                assert(seg@ + s@.skip(i as int) =~= seg@ + seq![','] + s@.skip(i as int + 1));
                lemma_split_on_step(seg@, s@.skip(i as int + 1), ',');
            }
            let ghost old_result = result.deep_view();
            let ghost old_seg = seg@;
            result.push(seg);
            seg = String::new();
            proof {
                assert(result.deep_view() =~= old_result.push(old_seg));
                assert(seg@ + s@.skip(i as int + 1) =~= s@.skip(i as int + 1));
                assert(old_result + (seq![old_seg] + split_on(s@.skip(i as int + 1), ','))
                    =~= result.deep_view() + split_on(s@.skip(i as int + 1), ','));
            }
        } else {
            let ghost old_seg = seg@;
            push_char(&mut seg, c);
            proof {
                assert(seg@ + s@.skip(i as int + 1) =~= old_seg + s@.skip(i as int));
            }
        }
        i += 1;
    }
    proof {
        assert(seg@ + s@.skip(n as int) =~= seg@);
        lemma_split_on_sep_free(seg@, ',');
    }
    let ghost old_result = result.deep_view();
    let ghost last_seg = seg@;
    result.push(seg);
    proof {
        assert(result.deep_view() =~= old_result.push(last_seg));
        assert(old_result + seq![last_seg] =~= old_result.push(last_seg));
    }
    result
}

/// Membership of `v` among the strings of `els`, by exact comparison.
pub fn contains_string(els: &Vec<String>, v: &str) -> (r: bool)
    ensures
        r == els.deep_view().contains(v@),
{
    let mut i: usize = 0;
    while i < els.len()
        invariant
            0 <= i <= els.len(),
            forall|j: int| 0 <= j < i ==> els.deep_view()[j] != v@,
        decreases els.len() - i,
    {
        if str_eq(els[i].as_str(), v) {
            proof {
                assert(els.deep_view()[i as int] == v@);
            }
            return true;
        }
        i += 1;
    }
    proof {
        assert(forall|j: int| 0 <= j < els.deep_view().len() ==> els.deep_view()[j] != v@);
    }
    false
}

} // verus!
