//! Joining ordered lists of strings into single query values.
use vstd::prelude::*;

verus! {

/// The pieces of `parts` laid end to end with `sep` between each
/// neighbouring pair; the empty list joins to the empty string.
pub open spec fn joined(parts: Seq<Seq<char>>, sep: Seq<char>) -> Seq<char>
    decreases parts.len(),
{
    if parts.len() == 0 {
        Seq::empty()
    } else if parts.len() == 1 {
        parts[0]
    } else {
        joined(parts.drop_last(), sep) + sep + parts.last()
    }
}

/// Joins `parts` with `sep`, as `[String]::join` does.
pub fn join(parts: &Vec<String>, sep: &str) -> (r: String)
    ensures
        r@ == joined(parts.deep_view(), sep@),
{
    let n = parts.len();
    if n == 0 {
        return String::new();
    }
    let mut out = parts[0].clone();
    let mut i: usize = 1;
    while i < n
        invariant
            1 <= i <= n,
            n == parts.len(),
            out@ == joined(parts.deep_view().take(i as int), sep@),
        decreases n - i,
    {
        out.append(sep);
        out.append(parts[i].as_str());
        proof {
            let s = parts.deep_view();
            assert(s.take(i as int + 1).drop_last() =~= s.take(i as int));
        }
        i = i + 1;
    }
    proof {
        assert(parts.deep_view().take(n as int) =~= parts.deep_view());
    }
    out
}

} // verus!
