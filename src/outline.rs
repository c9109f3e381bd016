//! The degrees at which the circle's outline is sampled.

use vstd::prelude::*;

verus! {

/// How many samples make up the outline: one for each whole degree from 0
/// through 360, so that the last sample closes the loop on the first.
pub const OUTLINE_SAMPLES: usize = 361;

/// The degrees of the outline's samples, in drawing order: sample `i` lies
/// at exactly `i` degrees.
pub fn outline_degrees() -> (r: Vec<u32>)
    ensures
        r@.len() == OUTLINE_SAMPLES,
        forall|i: int| 0 <= i < r@.len() ==> r@[i] == i,
{
    let mut r: Vec<u32> = Vec::new();
    let mut d: u32 = 0;
    while d <= 360
        invariant
            d <= 361,
            r@.len() == d,
            forall|i: int| 0 <= i < r@.len() ==> r@[i] == i,
        decreases 361 - d,
    {
        r.push(d);
        d = d + 1;
    }
    r
}

/// The outline is closed: its first and its last sample lie a whole turn
/// apart, at the same point of the circle.
pub proof fn lemma_outline_closed(r: Seq<u32>)
    requires
        r.len() == OUTLINE_SAMPLES,
        forall|i: int| 0 <= i < r.len() ==> r[i] == i,
    ensures
        r[0] as int % 360 == r[360] as int % 360,
        r[360] == r[0] + 360,
{
}

} // verus!
