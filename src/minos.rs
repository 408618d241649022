use vstd::prelude::*;

use crate::application::{default_max_fcn, max_fcn_spec};
use crate::strategy::{preset, MnStrategy};

verus! {

/// The call budget of a crossing search: `2 (n + 1)` times the default
/// budget of a fit with `n` variable parameters.
pub open spec fn cross_calls_spec(nvar: int) -> int {
    2 * (nvar + 1) * max_fcn_spec(nvar)
}

/// Default call budget of one crossing search.
pub fn default_cross_calls(nvar: usize) -> (r: usize)
    requires
        cross_calls_spec(nvar as int) <= usize::MAX,
    ensures
        r as int == cross_calls_spec(nvar as int),
{
    let ghost n = nvar as int;
    assert(0 <= max_fcn_spec(n) <= cross_calls_spec(n)) by (nonlinear_arith)
        requires
            n >= 0,
            max_fcn_spec(n) == 200 + 100 * n + 5 * n * n,
            cross_calls_spec(n) == 2 * (n + 1) * max_fcn_spec(n),
    ;
    assert(2 * (n + 1) <= cross_calls_spec(n)) by (nonlinear_arith)
        requires
            n >= 0,
            max_fcn_spec(n) >= 200,
            cross_calls_spec(n) == 2 * (n + 1) * max_fcn_spec(n),
    ;
    let m = default_max_fcn(nvar);
    2 * (nvar + 1) * m
}

/// The strategy of the fits nested in a crossing search: one level below
/// the caller's, and never below low.
pub fn crossing_strategy(strategy: &MnStrategy) -> (r: MnStrategy)
    ensures
        r@ == preset(if strategy@.level > 0 { (strategy@.level - 1) as u32 } else { 0 }),
{
    let level = strategy.strategy();
    if level > 0 {
        MnStrategy::new(level - 1)
    } else {
        MnStrategy::new(0)
    }
}

/// How a crossing search ended; exactly one outcome holds.
#[derive(Debug, Clone, Copy, PartialEq, Eq, Structural)]
pub enum CrossStatus {
    /// The crossing was found.
    Valid,
    /// A parameter limit stopped the search.
    AtLimit,
    /// The call budget ran out.
    AtMaxFcn,
    /// A point below the minimum was found; the minimum is stale.
    NewMinimum,
    /// The search failed otherwise.
    Invalid,
}

impl CrossStatus {
    pub fn is_valid(&self) -> (r: bool)
        ensures
            r == (*self == CrossStatus::Valid),
    {
        matches!(self, CrossStatus::Valid)
    }

    pub fn at_limit(&self) -> (r: bool)
        ensures
            r == (*self == CrossStatus::AtLimit),
    {
        matches!(self, CrossStatus::AtLimit)
    }

    pub fn at_max_fcn(&self) -> (r: bool)
        ensures
            r == (*self == CrossStatus::AtMaxFcn),
    {
        matches!(self, CrossStatus::AtMaxFcn)
    }

    pub fn new_minimum(&self) -> (r: bool)
        ensures
            r == (*self == CrossStatus::NewMinimum),
    {
        matches!(self, CrossStatus::NewMinimum)
    }
}

} // verus!
