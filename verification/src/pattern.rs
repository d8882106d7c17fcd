//! The pattern builder: turns a snapshot of a carrier's prefix table into the
//! anchored expression `^(p1|p2|...|pn)\d{7}$`, meaning "one of these
//! prefixes, followed by exactly seven more digits".

use vstd::prelude::*;

use crate::errors::MobileNetworkError;

verus! {

/// The table's entries joined with `|`, in table order.
pub open spec fn spec_join(ps: Seq<Seq<char>>) -> Seq<char>
    decreases ps.len(),
{
    if ps.len() == 0 {
        Seq::empty()
    } else if ps.len() == 1 {
        ps[0]
    } else {
        spec_join(ps.drop_last()) + "|"@ + ps.last()
    }
}

/// The full anchored pattern built from a table snapshot.
pub open spec fn spec_pattern(ps: Seq<Seq<char>>) -> Seq<char> {
    "^("@ + spec_join(ps) + ")\\d{7}$"@
}

/// Composes the pattern text for the given prefixes, verbatim and in order.
/// The composition itself cannot fail; a malformed prefix surfaces later,
/// when the pattern engine compiles the expression.
pub fn generate_pattern(prefixes: &Vec<String>) -> (r: Result<String, MobileNetworkError>)
    ensures
        r matches Ok(s) && s@ == spec_pattern(prefixes.deep_view()),
{
    let ghost dv = prefixes.deep_view();
    let mut joined: String = "^(".to_owned();
    let n = prefixes.len();
    assert(dv.take(0) =~= Seq::<Seq<char>>::empty());
    let mut i: usize = 0;
    while i < n
        invariant
            n == prefixes.len(),
            dv == prefixes.deep_view(),
            dv.len() == n,
            i <= n,
            joined@ == "^("@ + spec_join(dv.take(i as int)),
        decreases n - i,
    {
        if i > 0 {
            joined.append("|");
        }
        joined.append(prefixes[i].as_str());
        proof {
            assert(dv.take(i + 1).drop_last() =~= dv.take(i as int));
            assert(dv.take(i + 1).last() == dv[i as int]);
            assert(dv[i as int] == prefixes@[i as int]@);
            if i == 0 {
                assert(spec_join(dv.take(1)) == dv[0]);
                assert(Seq::<char>::empty() + dv[0] =~= dv[0]);
                assert(joined@ =~= "^("@ + spec_join(dv.take(i + 1)));
            } else {
                assert(joined@ =~= "^("@ + spec_join(dv.take(i + 1)));
            }
        }
        i = i + 1;
    }
    joined.append(")\\d{7}$");
    proof {
        assert(dv.take(n as int) =~= dv);
        assert(joined@ =~= spec_pattern(dv));
    }
    Ok(joined)
}

} // verus!
