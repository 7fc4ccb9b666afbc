//! Pixel-format selection.
//!
//! When the display offers several pixel-format configurations, the demo
//! keeps the one with the largest multisample count; on a tie, the first
//! offered wins. The choice is a pure function of the offered sample
//! counts.

use vstd::prelude::*;

verus! {

/// Picks the configuration to keep among the offered ones, by their sample
/// counts: the index of the first maximum, or `None` when nothing is
/// offered.
pub fn select_config(samples: &Vec<u8>) -> (r: Option<usize>)
    ensures
        r is None <==> samples@.len() == 0,
        match r {
            Some(best) => best < samples@.len() && (forall|j: int|
                0 <= j < samples@.len() ==> samples@[j] <= samples@[best as int]) && (forall|j: int|
                0 <= j < best ==> samples@[j] < samples@[best as int]),
            None => true,
        },
{
    if samples.len() == 0 {
        return None;
    }
    let n = samples.len();
    let mut best: usize = 0;
    let mut i: usize = 1;
    while i < n
        invariant
            1 <= i <= n,
            best < i,
            n == samples@.len(),
            forall|j: int| 0 <= j < i ==> samples@[j] <= samples@[best as int],
            forall|j: int| 0 <= j < best ==> samples@[j] < samples@[best as int],
        decreases n - i,
    {
        if samples[i] > samples[best] {
            best = i;
        }
        i += 1;
    }
    Some(best)
}

} // verus!
