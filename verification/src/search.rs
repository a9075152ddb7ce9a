//! Inverse-transform cell selection: a lower-bound binary search over the
//! monotone cumulative table. The search clamps to the last retained cell
//! when the draw is not below any entry, never to the first: falling back to
//! index zero would bias the distribution toward the first retained cell.

use vstd::prelude::*;

verus! {

/// `t` is the cell the draw `u` selects: the least index whose cumulative
/// weight exceeds `u`.
pub open spec fn selects(cum: Seq<u128>, u: int, t: int) -> bool {
    &&& 0 <= t < cum.len()
    &&& u < cum[t]
    &&& t == 0 || cum[t - 1] <= u
}

/// Finds the retained-cell index that the uniform draw `u` selects: the least
/// `t` with `u < cum[t]`. When every entry is at most `u` (unreachable for a
/// draw below the last entry), the result clamps to the last index.
pub fn choose_voxel_index(u: u128, cum: &Vec<u128>) -> (t: usize)
    requires
        cum@.len() > 0,
        forall|a: int, b: int| 0 <= a <= b < cum@.len() ==> cum@[a] <= cum@[b],
    ensures
        t < cum@.len(),
        u < cum@[cum@.len() - 1] ==> selects(cum@, u as int, t as int),
        !(u < cum@[cum@.len() - 1]) ==> t == cum@.len() - 1,
{
    let n = cum.len();
    let mut lo: usize = 0;
    let mut hi: usize = n - 1;
    while lo < hi
        invariant
            n == cum@.len(),
            0 < n,
            lo <= hi < n,
            forall|a: int, b: int| 0 <= a <= b < cum@.len() ==> cum@[a] <= cum@[b],
            forall|s: int| 0 <= s < lo ==> cum@[s] <= u,
            u < cum@[n - 1] ==> u < cum@[hi as int],
            !(u < cum@[n - 1]) ==> hi == n - 1,
        decreases hi - lo,
    {
        let mid = lo + (hi - lo) / 2;
        if cum[mid] > u {
            hi = mid;
        } else {
            lo = mid + 1;
        }
    }
    lo
}

} // verus!
