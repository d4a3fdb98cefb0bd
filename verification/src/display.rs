//! Helpers for the canonical textual rendering of syntax trees: joining
//! already-rendered pieces with commas, and appending single characters.

use vstd::prelude::*;
use vstd::string::StringExecFns;

verus! {

/// Relies on String::push: appends the one character to the end of the
/// string.
#[verifier::external_body]
pub(crate) fn push_char(s: &mut String, c: char)
    ensures
        final(s)@ == old(s)@.push(c),
{
    s.push(c);
}

/// The first `k` of the given pieces of text, joined with `", "`.
pub open spec fn spec_join_upto(parts: Seq<Seq<char>>, k: int) -> Seq<char>
    decreases k,
{
    if k <= 0 {
        Seq::empty()
    } else if k == 1 {
        spec_join_upto(parts, 0) + parts[0]
    } else {
        spec_join_upto(parts, k - 1) + ", "@ + parts[k - 1]
    }
}

/// Write the pieces in order, a comma and a space between neighbours, and a
/// closing parenthesis at the end: how argument and parameter lists render.
pub fn structured_slice_print(args: &[String]) -> (r: String)
    ensures
        r@ == spec_join_upto(args.deep_view(), args.deep_view().len() as int) + seq![')'],
{
    let ghost parts = args.deep_view();
    let mut out = String::new();
    let n = args.len();
    proof {
        assert(parts.len() == args@.len());
    }
    let mut i: usize = 0;
    while i < n
        invariant
            n == args@.len(),
            parts == args.deep_view(),
            parts.len() == n,
            0 <= i <= n,
            out@ == spec_join_upto(parts, i as int),
        decreases n - i,
    {
        if i != 0 {
            out.append(", ");
        }
        out.append(args[i].as_str());
        proof {
            assert(args[i as int]@ == parts[i as int]);
            if i == 0 {
                assert(out@ =~= spec_join_upto(parts, i as int + 1));
            } else {
                assert(out@ =~= spec_join_upto(parts, i as int + 1));
            }
        }
        i = i + 1;
    }
    push_char(&mut out, ')');
    proof {
        assert(out@ =~= spec_join_upto(parts, n as int) + seq![')']);
    }
    out
}

} // verus!
