//! Output as a sequence of lines, and the few string operations that build them.

use vstd::prelude::*;

verus! {

/// The text of each string of a list.
pub open spec fn views(v: Seq<String>) -> Seq<Seq<char>> {
    v.map_values(|s: String| s@)
}

/// `a` followed by `b`.
pub fn joined(a: &str, b: &str) -> (r: String)
    ensures
        r@ == a@ + b@,
{
    let mut s = String::from_str(a);
    s.append(b);
    s
}

/// Adds the line `s` at the end of `out`.
pub fn push_line(out: &mut Vec<String>, s: &str)
    ensures
        views(final(out)@) == views(old(out)@).push(s@),
{
    out.push(String::from_str(s));
    assert(views(final(out)@) =~= views(old(out)@).push(s@));
}

/// Adds the line `a` followed by `b` at the end of `out`.
pub fn push_joined(out: &mut Vec<String>, a: &str, b: &str)
    ensures
        views(final(out)@) == views(old(out)@).push(a@ + b@),
{
    out.push(joined(a, b));
    assert(views(final(out)@) =~= views(old(out)@).push(a@ + b@));
}

} // verus!
