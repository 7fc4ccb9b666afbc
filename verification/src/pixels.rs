//! The software renderer: a solid fill of a CPU pixel buffer.
//!
//! The pixel-buffer variant of the demo draws by writing one constant ARGB
//! value into every pixel of the window's buffer and presenting it.

use vstd::prelude::*;

verus! {

/// The solid fill color, as packed ARGB: opaque blue.
pub const FILL_PIXEL: u32 = 0xFF0066CC;

/// Overwrites every pixel of the buffer with the solid fill color. The
/// buffer keeps its size; its previous contents do not matter.
pub fn fill_buffer(buf: &mut Vec<u32>)
    ensures
        final(buf)@.len() == old(buf)@.len(),
        forall|i: int| 0 <= i < final(buf)@.len() ==> final(buf)@[i] == FILL_PIXEL,
{
    let n = buf.len();
    let mut i: usize = 0;
    while i < n
        invariant
            i <= n,
            n == buf@.len(),
            forall|j: int| 0 <= j < i ==> buf@[j] == FILL_PIXEL,
        decreases n - i,
    {
        buf.set(i, FILL_PIXEL);
        i += 1;
    }
}

} // verus!
