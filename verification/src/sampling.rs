//! Picking a random element from a list.

use rand::Rng;
use vstd::prelude::*;

verus! {

/// Relies on rand's `Rng::random_range` over `0..n`: a uniformly drawn
/// value below `n`; the range is non-empty, so the call cannot panic.
#[verifier::external_body]
fn random_below(n: usize) -> (r: usize)
    requires
        n > 0,
    ensures
        r < n,
{
    let mut rng = rand::rng();
    rng.random_range(0..n)
}

/// A random element of the list: `None` exactly when the list is empty,
/// else one of its members.
pub fn pick_from_list<'a>(input: &'a [&'a str]) -> (r: Option<&'a str>)
    ensures
        r is None <==> input@.len() == 0,
        r matches Some(s) ==> exists|i: int|
            0 <= i < input@.len() && (#[trigger] input@[i])@ == s@,
{
    if input.len() == 0 {
        None
    } else {
        let i = random_below(input.len());
        Some(input[i])
    }
}

} // verus!
