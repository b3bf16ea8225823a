//! Random sampling, as the matchmaking engine needs it: an unbiased
//! draw of two distinct candidates, and a pick of one element.

use rand::RngExt;
use vstd::prelude::*;

verus! {

/// Relies on rand::seq::index::sample: it returns `amount` distinct
/// indices, each below `length` (it panics when `amount > length`,
/// which the precondition rules out).
#[verifier::external_body]
fn sample_two_indices(length: usize) -> (r: (usize, usize))
    requires
        2 <= length,
    ensures
        r.0 < length,
        r.1 < length,
        r.0 != r.1,
{
    let mut rng = rand::rng();
    let picked = rand::seq::index::sample(&mut rng, length, 2);
    (picked.index(0), picked.index(1))
}

/// Relies on rand's random_range: a value drawn from the given range
/// (it panics on an empty range, which the precondition rules out).
#[verifier::external_body]
pub fn random_below(n: usize) -> (r: usize)
    requires
        1 <= n,
    ensures
        r < n,
{
    let mut rng = rand::rng();
    rng.random_range(0..n)
}

/// Draws two candidate ids from the pool, uniformly at random and
/// without replacement: the two come from distinct positions.  Yields
/// nothing when the pool has fewer than two entries.
pub fn draw_pair(ids: &Vec<i64>) -> (r: Option<(i64, i64)>)
    ensures
        r is None <==> ids@.len() < 2,
        r matches Some(d) ==> exists|i: int, j: int|
            0 <= i < ids@.len() && 0 <= j < ids@.len() && i != j && ids@[i] == d.0 && ids@[j]
                == d.1,
{
    if ids.len() < 2 {
        return None;
    }
    let (i, j) = sample_two_indices(ids.len());
    let drawn = (ids[i], ids[j]);
    proof {
        assert(ids@[i as int] == drawn.0 && ids@[j as int] == drawn.1 && i as int != j as int);
    }
    Some(drawn)
}

} // verus!
