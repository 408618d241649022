use vstd::prelude::*;

verus! {

/// Fewest points of a scan.
pub const MIN_SCAN_STEPS: usize = 2;

/// Most points of a scan.
pub const MAX_SCAN_STEPS: usize = 101;

/// The number of scan steps actually used: the request, brought into
/// `[MIN_SCAN_STEPS, MAX_SCAN_STEPS]`.
pub fn clamp_scan_steps(nsteps: usize) -> (r: usize)
    ensures
        MIN_SCAN_STEPS <= r <= MAX_SCAN_STEPS,
        MIN_SCAN_STEPS <= nsteps <= MAX_SCAN_STEPS ==> r == nsteps,
        nsteps < MIN_SCAN_STEPS ==> r == MIN_SCAN_STEPS,
        nsteps > MAX_SCAN_STEPS ==> r == MAX_SCAN_STEPS,
{
    if nsteps < MIN_SCAN_STEPS {
        MIN_SCAN_STEPS
    } else if nsteps > MAX_SCAN_STEPS {
        MAX_SCAN_STEPS
    } else {
        nsteps
    }
}

} // verus!
