//! Fixed facts about the drawn scene: the window size and where the
//! icosahedron instances stand.

use vstd::prelude::*;

verus! {

/// Width of the demo's window, in pixels.
pub const WINDOW_WIDTH: u32 = 1280;

/// Height of the demo's window, in pixels.
pub const WINDOW_HEIGHT: u32 = 720;

/// How many icosahedron instances are drawn each frame.
pub const INSTANCE_COUNT: usize = 10;

/// The gap between consecutive instances along the z axis, in world units.
pub const INSTANCE_SPACING: i64 = 5;

/// Where each instance stands: instance `i` is translated by
/// `-INSTANCE_SPACING * i` world units along z, so the row recedes from
/// the camera.
pub fn instance_offsets() -> (r: Vec<i64>)
    ensures
        r@.len() == INSTANCE_COUNT,
        forall|i: int| 0 <= i < r@.len() ==> r@[i] == -INSTANCE_SPACING * i,
{
    let mut out: Vec<i64> = Vec::new();
    let mut i: usize = 0;
    while i < INSTANCE_COUNT
        invariant
            i <= INSTANCE_COUNT,
            out@.len() == i,
            forall|k: int| 0 <= k < i ==> out@[k] == -INSTANCE_SPACING * k,
        decreases INSTANCE_COUNT - i,
    {
        out.push(-INSTANCE_SPACING * (i as i64));
        i = i + 1;
    }
    out
}

} // verus!
