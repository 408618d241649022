use vstd::prelude::*;

verus! {

/// The call budget `200 + 100 n + 5 n²` for `n` variable parameters.
pub open spec fn max_fcn_spec(n: int) -> int {
    200 + 100 * n + 5 * n * n
}

/// Default maximum number of function calls for `n` variable parameters.
pub fn default_max_fcn(n: usize) -> (r: usize)
    requires
        max_fcn_spec(n as int) <= usize::MAX,
    ensures
        r as int == max_fcn_spec(n as int),
{
    assert(0 <= 5 * (n as int) * (n as int) <= max_fcn_spec(n as int)) by (nonlinear_arith)
        requires max_fcn_spec(n as int) <= usize::MAX;
    200 + 100 * n + 5 * n * n
}

/// The call budget of a fit: the one asked for, else the default for `n`
/// variable parameters.
pub fn max_fcn_or_default(max_fcn: Option<usize>, n: usize) -> (r: usize)
    requires
        max_fcn is None ==> max_fcn_spec(n as int) <= usize::MAX,
    ensures
        r as int == match max_fcn {
            Some(m) => m as int,
            None => max_fcn_spec(n as int),
        },
{
    match max_fcn {
        Some(m) => m,
        None => default_max_fcn(n),
    }
}

} // verus!
