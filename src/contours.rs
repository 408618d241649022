use vstd::prelude::*;

verus! {

/// The four cardinal points that every contour starts from.
pub const CARDINAL_POINTS: usize = 4;

/// The number of contour points actually traced: at least the four
/// cardinal points.
pub fn contour_point_count(npoints: usize) -> (r: usize)
    ensures
        r == if npoints < CARDINAL_POINTS { CARDINAL_POINTS } else { npoints },
{
    if npoints < CARDINAL_POINTS {
        CARDINAL_POINTS
    } else {
        npoints
    }
}

} // verus!
