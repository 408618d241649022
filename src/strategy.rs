use vstd::prelude::*;

verus! {

/// The settings of a strategy, as plain numbers.
///
/// Tolerances are fixed-point: the step tolerances in tenths, the gradient
/// and g2 tolerances in hundredths.
pub struct StrategyView {
    pub level: u32,
    pub grad_ncycles: u32,
    pub grad_step_tol: u32,
    pub grad_tol: u32,
    pub hess_ncycles: u32,
    pub hess_step_tol: u32,
    pub hess_g2_tol: u32,
    pub hess_grad_ncycles: u32,
    pub hess_cfd_g2: u32,
    pub hess_force_pos_def: u32,
    pub store_level: u32,
}

/// The low preset (level 0): fewest cycles, loosest tolerances.
pub open spec fn low_preset() -> StrategyView {
    StrategyView {
        level: 0,
        grad_ncycles: 2,
        grad_step_tol: 5,
        grad_tol: 10,
        hess_ncycles: 3,
        hess_step_tol: 5,
        hess_g2_tol: 10,
        hess_grad_ncycles: 1,
        hess_cfd_g2: 0,
        hess_force_pos_def: 1,
        store_level: 1,
    }
}

/// The medium preset (level 1), the default.
pub open spec fn medium_preset() -> StrategyView {
    StrategyView {
        level: 1,
        grad_ncycles: 3,
        grad_step_tol: 3,
        grad_tol: 5,
        hess_ncycles: 5,
        hess_step_tol: 3,
        hess_g2_tol: 5,
        hess_grad_ncycles: 2,
        hess_cfd_g2: 0,
        hess_force_pos_def: 1,
        store_level: 1,
    }
}

/// The high preset (level 2): most cycles, tightest tolerances.
pub open spec fn high_preset() -> StrategyView {
    StrategyView {
        level: 2,
        grad_ncycles: 5,
        grad_step_tol: 1,
        grad_tol: 2,
        hess_ncycles: 7,
        hess_step_tol: 1,
        hess_g2_tol: 2,
        hess_grad_ncycles: 6,
        hess_cfd_g2: 0,
        hess_force_pos_def: 1,
        store_level: 1,
    }
}

/// The preset that a requested level selects: 0 is low, 2 is high, any
/// other level is medium.
pub open spec fn preset(level: u32) -> StrategyView {
    if level == 0 {
        low_preset()
    } else if level == 2 {
        high_preset()
    } else {
        medium_preset()
    }
}

/// Tuning constants for gradient and Hessian refinement.
#[derive(Debug, Clone, Copy, PartialEq, Eq, Structural)]
pub struct MnStrategy {
    strategy: u32,
    grad_ncycles: u32,
    hess_ncycles: u32,
    hess_grad_ncycles: u32,
    grad_step_tol: u32,
    grad_tol: u32,
    hess_step_tol: u32,
    hess_g2_tol: u32,
    hess_cfd_g2: u32,
    hess_force_pos_def: u32,
    store_level: u32,
}

impl View for MnStrategy {
    type V = StrategyView;

    closed spec fn view(&self) -> StrategyView {
        StrategyView {
            level: self.strategy,
            grad_ncycles: self.grad_ncycles,
            grad_step_tol: self.grad_step_tol,
            grad_tol: self.grad_tol,
            hess_ncycles: self.hess_ncycles,
            hess_step_tol: self.hess_step_tol,
            hess_g2_tol: self.hess_g2_tol,
            hess_grad_ncycles: self.hess_grad_ncycles,
            hess_cfd_g2: self.hess_cfd_g2,
            hess_force_pos_def: self.hess_force_pos_def,
            store_level: self.store_level,
        }
    }
}

impl MnStrategy {
    /// A strategy at the given level (0 low, 1 medium, 2 high; any other
    /// level gives medium).
    pub fn new(level: u32) -> (r: Self)
        ensures
            r@ == preset(level),
    {
        let mut s = MnStrategy {
            strategy: level,
            grad_ncycles: 0,
            hess_ncycles: 0,
            hess_grad_ncycles: 0,
            grad_step_tol: 0,
            grad_tol: 0,
            hess_step_tol: 0,
            hess_g2_tol: 0,
            hess_cfd_g2: 0,
            hess_force_pos_def: 1,
            store_level: 1,
        };
        if level == 0 {
            s.set_low_strategy();
        } else if level == 2 {
            s.set_high_strategy();
        } else {
            s.set_medium_strategy();
        }
        s
    }

    /// Load the low preset.
    pub fn set_low_strategy(&mut self)
        ensures
            final(self)@ == low_preset(),
    {
        self.strategy = 0;
        self.grad_ncycles = 2;
        self.grad_step_tol = 5;
        self.grad_tol = 10;
        self.hess_ncycles = 3;
        self.hess_step_tol = 5;
        self.hess_g2_tol = 10;
        self.hess_grad_ncycles = 1;
        self.hess_cfd_g2 = 0;
        self.hess_force_pos_def = 1;
        self.store_level = 1;
    }

    /// Load the medium preset.
    pub fn set_medium_strategy(&mut self)
        ensures
            final(self)@ == medium_preset(),
    {
        self.strategy = 1;
        self.grad_ncycles = 3;
        self.grad_step_tol = 3;
        self.grad_tol = 5;
        self.hess_ncycles = 5;
        self.hess_step_tol = 3;
        self.hess_g2_tol = 5;
        self.hess_grad_ncycles = 2;
        self.hess_cfd_g2 = 0;
        self.hess_force_pos_def = 1;
        self.store_level = 1;
    }

    /// Load the high preset.
    pub fn set_high_strategy(&mut self)
        ensures
            final(self)@ == high_preset(),
    {
        self.strategy = 2;
        self.grad_ncycles = 5;
        self.grad_step_tol = 1;
        self.grad_tol = 2;
        self.hess_ncycles = 7;
        self.hess_step_tol = 1;
        self.hess_g2_tol = 2;
        self.hess_grad_ncycles = 6;
        self.hess_cfd_g2 = 0;
        self.hess_force_pos_def = 1;
        self.store_level = 1;
    }

    /// Load the high preset and mark the level as 3.
    pub fn set_very_high_strategy(&mut self)
        ensures
            final(self)@ == (StrategyView { level: 3, ..high_preset() }),
    {
        self.set_high_strategy();
        self.strategy = 3;
    }

    /// The strategy level.
    pub fn strategy(&self) -> (r: u32)
        ensures
            r == self@.level,
    {
        self.strategy
    }

    /// Number of refinement cycles of the numerical gradient.
    pub fn grad_ncycles(&self) -> (r: u32)
        ensures
            r == self@.grad_ncycles,
    {
        self.grad_ncycles
    }

    /// Same as `grad_ncycles`.
    pub fn gradient_ncycles(&self) -> (r: u32)
        ensures
            r == self@.grad_ncycles,
    {
        self.grad_ncycles()
    }

    /// Gradient step tolerance, in tenths.
    pub fn gradient_step_tolerance_tenths(&self) -> (r: u32)
        ensures
            r == self@.grad_step_tol,
    {
        self.grad_step_tol
    }

    /// Gradient tolerance, in hundredths.
    pub fn gradient_tolerance_hundredths(&self) -> (r: u32)
        ensures
            r == self@.grad_tol,
    {
        self.grad_tol
    }

    /// Number of cycles of the Hessian diagonal pass.
    pub fn hess_ncycles(&self) -> (r: u32)
        ensures
            r == self@.hess_ncycles,
    {
        self.hess_ncycles
    }

    /// Same as `hess_ncycles`.
    pub fn hessian_ncycles(&self) -> (r: u32)
        ensures
            r == self@.hess_ncycles,
    {
        self.hess_ncycles()
    }

    /// Hessian step tolerance, in tenths.
    pub fn hessian_step_tolerance_tenths(&self) -> (r: u32)
        ensures
            r == self@.hess_step_tol,
    {
        self.hess_step_tol
    }

    /// Hessian g2 tolerance, in hundredths.
    pub fn hessian_g2_tolerance_hundredths(&self) -> (r: u32)
        ensures
            r == self@.hess_g2_tol,
    {
        self.hess_g2_tol
    }

    /// Number of cycles of the gradient pass inside Hesse.
    pub fn hess_grad_ncycles(&self) -> (r: u32)
        ensures
            r == self@.hess_grad_ncycles,
    {
        self.hess_grad_ncycles
    }

    /// Same as `hess_grad_ncycles`.
    pub fn hessian_gradient_ncycles(&self) -> (r: u32)
        ensures
            r == self@.hess_grad_ncycles,
    {
        self.hess_grad_ncycles()
    }

    /// How much of the iteration history is kept.
    pub fn storage_level(&self) -> (r: u32)
        ensures
            r == self@.store_level,
    {
        self.store_level
    }

    /// Whether mixed derivatives use central differences.
    pub fn hessian_central_fd_mixed_derivatives(&self) -> (r: u32)
        ensures
            r == self@.hess_cfd_g2,
    {
        self.hess_cfd_g2
    }

    /// Whether Hesse forces the Hessian positive-definite.
    pub fn hessian_force_pos_def(&self) -> (r: u32)
        ensures
            r == self@.hess_force_pos_def,
    {
        self.hess_force_pos_def
    }

    pub fn set_gradient_ncycles(&mut self, ncycles: u32)
        ensures
            final(self)@ == (StrategyView { grad_ncycles: ncycles, ..old(self)@ }),
    {
        self.grad_ncycles = ncycles;
    }

    /// Set the gradient step tolerance, in tenths.
    pub fn set_gradient_step_tolerance_tenths(&mut self, tenths: u32)
        ensures
            final(self)@ == (StrategyView { grad_step_tol: tenths, ..old(self)@ }),
    {
        self.grad_step_tol = tenths;
    }

    /// Set the gradient tolerance, in hundredths.
    pub fn set_gradient_tolerance_hundredths(&mut self, hundredths: u32)
        ensures
            final(self)@ == (StrategyView { grad_tol: hundredths, ..old(self)@ }),
    {
        self.grad_tol = hundredths;
    }

    pub fn set_hessian_ncycles(&mut self, ncycles: u32)
        ensures
            final(self)@ == (StrategyView { hess_ncycles: ncycles, ..old(self)@ }),
    {
        self.hess_ncycles = ncycles;
    }

    /// Set the Hessian step tolerance, in tenths.
    pub fn set_hessian_step_tolerance_tenths(&mut self, tenths: u32)
        ensures
            final(self)@ == (StrategyView { hess_step_tol: tenths, ..old(self)@ }),
    {
        self.hess_step_tol = tenths;
    }

    /// Set the Hessian g2 tolerance, in hundredths.
    pub fn set_hessian_g2_tolerance_hundredths(&mut self, hundredths: u32)
        ensures
            final(self)@ == (StrategyView { hess_g2_tol: hundredths, ..old(self)@ }),
    {
        self.hess_g2_tol = hundredths;
    }

    pub fn set_hessian_gradient_ncycles(&mut self, ncycles: u32)
        ensures
            final(self)@ == (StrategyView { hess_grad_ncycles: ncycles, ..old(self)@ }),
    {
        self.hess_grad_ncycles = ncycles;
    }

    pub fn set_hessian_central_fd_mixed_derivatives(&mut self, flag: u32)
        ensures
            final(self)@ == (StrategyView { hess_cfd_g2: flag, ..old(self)@ }),
    {
        self.hess_cfd_g2 = flag;
    }

    pub fn set_hessian_force_pos_def(&mut self, flag: u32)
        ensures
            final(self)@ == (StrategyView { hess_force_pos_def: flag, ..old(self)@ }),
    {
        self.hess_force_pos_def = flag;
    }

    pub fn set_storage_level(&mut self, level: u32)
        ensures
            final(self)@ == (StrategyView { store_level: level, ..old(self)@ }),
    {
        self.store_level = level;
    }

    pub fn is_low(&self) -> (r: bool)
        ensures
            r == (self@.level == 0),
    {
        self.strategy == 0
    }

    pub fn is_medium(&self) -> (r: bool)
        ensures
            r == (self@.level == 1),
    {
        self.strategy == 1
    }

    /// True from level 2 up.
    pub fn is_high(&self) -> (r: bool)
        ensures
            r == (self@.level >= 2),
    {
        self.strategy >= 2
    }

    /// True from level 3 up.
    pub fn is_very_high(&self) -> (r: bool)
        ensures
            r == (self@.level >= 3),
    {
        self.strategy >= 3
    }
}

impl Default for MnStrategy {
    /// The medium strategy.
    fn default() -> (r: Self)
        ensures
            r@ == medium_preset(),
    {
        MnStrategy::new(1)
    }
}

} // verus!
