use vstd::prelude::*;

use crate::application::{max_fcn_or_default, max_fcn_spec};
use crate::strategy::{medium_preset, preset, MnStrategy, StrategyView};

verus! {

/// What a Hesse configuration holds: its strategy and an optional call budget.
pub struct HesseView {
    pub strategy: StrategyView,
    pub max_calls: Option<usize>,
}

/// Configuration of a Hesse run: the strategy whose cycle counts and
/// tolerances drive the finite differences, and the call budget.
pub struct MnHesse {
    strategy: MnStrategy,
    max_calls: Option<usize>,
}

impl View for MnHesse {
    type V = HesseView;

    closed spec fn view(&self) -> HesseView {
        HesseView { strategy: self.strategy@, max_calls: self.max_calls }
    }
}

impl MnHesse {
    /// Medium strategy, and the default call budget.
    pub fn new() -> (r: Self)
        ensures
            r@ == (HesseView { strategy: medium_preset(), max_calls: None }),
    {
        MnHesse { strategy: MnStrategy::new(1), max_calls: None }
    }

    /// The same configuration with the strategy of the given level.
    pub fn with_strategy(self, level: u32) -> (r: Self)
        ensures
            r@ == (HesseView { strategy: preset(level), ..self@ }),
    {
        let mut s = self;
        s.strategy = MnStrategy::new(level);
        s
    }

    /// The same configuration with a call budget of `max`.
    pub fn with_max_calls(self, max: usize) -> (r: Self)
        ensures
            r@ == (HesseView { max_calls: Some(max), ..self@ }),
    {
        let mut s = self;
        s.max_calls = Some(max);
        s
    }

    /// Number of cycles of the diagonal pass.
    pub fn ncycles(&self) -> (r: u32)
        ensures
            r == self@.strategy.hess_ncycles,
    {
        self.strategy.hessian_ncycles()
    }

    /// The strategy in use.
    pub fn strategy(&self) -> (r: MnStrategy)
        ensures
            r@ == self@.strategy,
    {
        self.strategy
    }

    /// The call budget that was set, if any.
    pub fn max_calls(&self) -> (r: Option<usize>)
        ensures
            r == self@.max_calls,
    {
        self.max_calls
    }

    /// The call budget for `n` variable parameters: the one that was set,
    /// else `200 + 100 n + 5 n²`.
    pub fn call_limit(&self, n: usize) -> (r: usize)
        requires
            self@.max_calls is None ==> max_fcn_spec(n as int) <= usize::MAX,
        ensures
            r as int == match self@.max_calls {
                Some(m) => m as int,
                None => max_fcn_spec(n as int),
            },
    {
        max_fcn_or_default(self.max_calls, n)
    }
}

impl Default for MnHesse {
    fn default() -> (r: Self)
        ensures
            r@ == (HesseView { strategy: medium_preset(), max_calls: None }),
    {
        MnHesse::new()
    }
}

} // verus!
