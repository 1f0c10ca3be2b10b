use vstd::prelude::*;

verus! {

/// Relies on `rand::random_range` over the half-open range `0..n`: the
/// result is drawn from that range, so it is at least 0 and strictly
/// below `n`.  The call panics on an empty range, which the
/// precondition rules out.
#[verifier::external_body]
pub(crate) fn random_below(n: i64) -> (r: i64)
    requires
        1 <= n,
    ensures
        0 <= r < n,
{
    rand::random_range(0..n)
}

} // verus!
