use vstd::prelude::*;

verus! {

/// The run that the combined minimizer has just finished.
#[derive(Debug, Clone, Copy, PartialEq, Eq, Structural)]
pub enum CombinedStage {
    /// Migrad with the caller's strategy.
    FirstMigrad,
    /// Simplex from the starting parameters, at the high strategy.
    Simplex,
    /// Migrad from the Simplex minimum, at the high strategy.
    SecondMigrad,
}

/// What the combined minimizer does next.
#[derive(Debug, Clone, Copy, PartialEq, Eq, Structural)]
pub enum CombinedAction {
    /// Return the minimum of the run that just finished.
    ReturnLast,
    /// Return the Simplex minimum.
    ReturnSimplex,
    /// Run Simplex from the starting parameters.
    RunSimplex,
    /// Run Migrad from the Simplex minimum.
    RunSecondMigrad,
}

/// Strategy level of the fallback runs.
pub const FALLBACK_STRATEGY: u32 = 2;

/// The next step after a run: a valid Migrad ends the search; a failed
/// first Migrad falls back to Simplex; a valid Simplex is polished by a
/// second Migrad, whose result is kept only if valid.
pub open spec fn combined_next_spec(stage: CombinedStage, valid: bool) -> CombinedAction {
    match stage {
        CombinedStage::FirstMigrad => if valid {
            CombinedAction::ReturnLast
        } else {
            CombinedAction::RunSimplex
        },
        CombinedStage::Simplex => if valid {
            CombinedAction::RunSecondMigrad
        } else {
            CombinedAction::ReturnLast
        },
        CombinedStage::SecondMigrad => if valid {
            CombinedAction::ReturnLast
        } else {
            CombinedAction::ReturnSimplex
        },
    }
}

/// Decide the next step of the combined minimizer from the run just
/// finished and whether its minimum is valid.
pub fn combined_next(stage: CombinedStage, valid: bool) -> (r: CombinedAction)
    ensures
        r == combined_next_spec(stage, valid),
{
    match stage {
        CombinedStage::FirstMigrad => if valid {
            CombinedAction::ReturnLast
        } else {
            CombinedAction::RunSimplex
        },
        CombinedStage::Simplex => if valid {
            CombinedAction::RunSecondMigrad
        } else {
            CombinedAction::ReturnLast
        },
        CombinedStage::SecondMigrad => if valid {
            CombinedAction::ReturnLast
        } else {
            CombinedAction::ReturnSimplex
        },
    }
}

/// How an engine run ended.
#[derive(Debug, Clone, Copy, PartialEq, Eq, Structural)]
pub enum Termination {
    /// The EDM target was met within the accepted band.
    Converged,
    /// Stopped with the EDM above the accepted band; the result is usable.
    AboveMaxEdm,
    /// The call budget was used up; the result is usable.
    CallLimit,
}

/// Classify the end of a run: an exhausted budget takes precedence over
/// an EDM that is still too large.
pub fn classify_termination(nfcn: usize, maxfcn: usize, edm_too_large: bool) -> (r: Termination)
    ensures
        r == if nfcn >= maxfcn {
            Termination::CallLimit
        } else if edm_too_large {
            Termination::AboveMaxEdm
        } else {
            Termination::Converged
        },
{
    if nfcn >= maxfcn {
        Termination::CallLimit
    } else if edm_too_large {
        Termination::AboveMaxEdm
    } else {
        Termination::Converged
    }
}

} // verus!
