use vstd::prelude::*;

use crate::strategy::{MnStrategy, StrategyView};

verus! {

/// Which space a user-supplied gradient is expressed in.
#[derive(Debug, Clone, Copy, PartialEq, Eq, Structural)]
pub enum GradientParameterSpace {
    Internal,
    External,
}

/// Heuristic gradient seed, built from the parameters' steps without
/// evaluating the objective.
pub struct InitialGradientCalculator {
    strategy: MnStrategy,
}

impl InitialGradientCalculator {
    pub fn new(strategy: MnStrategy) -> (r: Self)
        ensures
            r.strategy_view() == strategy@,
    {
        InitialGradientCalculator { strategy }
    }

    pub closed spec fn strategy_view(&self) -> StrategyView {
        self.strategy@
    }

    /// The strategy it was built with.
    pub fn strategy(&self) -> (r: MnStrategy)
        ensures
            r@ == self.strategy_view(),
    {
        self.strategy
    }
}

/// Two-point central-difference gradient, refined over the strategy's cycles.
pub struct Numerical2PGradientCalculator {
    strategy: MnStrategy,
}

impl Numerical2PGradientCalculator {
    pub fn new(strategy: MnStrategy) -> (r: Self)
        ensures
            r.strategy_view() == strategy@,
    {
        Numerical2PGradientCalculator { strategy }
    }

    pub closed spec fn strategy_view(&self) -> StrategyView {
        self.strategy@
    }

    /// The strategy it was built with.
    pub fn strategy(&self) -> (r: MnStrategy)
        ensures
            r@ == self.strategy_view(),
    {
        self.strategy
    }
}

} // verus!
