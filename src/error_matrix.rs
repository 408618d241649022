use vstd::prelude::*;

verus! {

/// How the error matrix was obtained.
#[derive(Debug, Clone, Copy, PartialEq, Eq, Structural)]
pub enum ErrorMatrixStatus {
    /// Not calculated yet.
    NotAvailable,
    /// Approximation from the initial step sizes.
    ApproximateFromSteps,
    /// Forced positive-definite; may not be accurate.
    MadePositiveDefinite,
    /// Full calculation.
    Accurate,
}

/// The status and the flags of an error matrix, as plain values.
pub struct ErrorFlagsView {
    pub status: ErrorMatrixStatus,
    pub hesse_failed: bool,
    pub made_pos_def: bool,
    pub invert_failed: bool,
    pub reached_call_limit: bool,
    pub valid: bool,
}

/// A failed Hessian, a failed inversion or an exhausted call budget each
/// leave the matrix invalid.
pub open spec fn flags_consistent(v: ErrorFlagsView) -> bool {
    (v.hesse_failed || v.invert_failed || v.reached_call_limit) ==> !v.valid
}

/// Fresh flags with the given status: nothing failed, valid.
pub open spec fn fresh_flags(status: ErrorMatrixStatus) -> ErrorFlagsView {
    ErrorFlagsView {
        status,
        hesse_failed: false,
        made_pos_def: false,
        invert_failed: false,
        reached_call_limit: false,
        valid: true,
    }
}

/// Status and failure flags of an error matrix.
#[derive(Debug, Clone, Copy, PartialEq, Eq, Structural)]
pub struct ErrorMatrixFlags {
    status: ErrorMatrixStatus,
    hesse_failed: bool,
    made_pos_def: bool,
    invert_failed: bool,
    reached_call_limit: bool,
    valid: bool,
}

impl View for ErrorMatrixFlags {
    type V = ErrorFlagsView;

    closed spec fn view(&self) -> ErrorFlagsView {
        ErrorFlagsView {
            status: self.status,
            hesse_failed: self.hesse_failed,
            made_pos_def: self.made_pos_def,
            invert_failed: self.invert_failed,
            reached_call_limit: self.reached_call_limit,
            valid: self.valid,
        }
    }
}

impl ErrorMatrixFlags {
    /// Flags of a matrix approximated from the step sizes.
    pub fn approximate() -> (r: Self)
        ensures
            r@ == fresh_flags(ErrorMatrixStatus::ApproximateFromSteps),
            flags_consistent(r@),
    {
        ErrorMatrixFlags {
            status: ErrorMatrixStatus::ApproximateFromSteps,
            hesse_failed: false,
            made_pos_def: false,
            invert_failed: false,
            reached_call_limit: false,
            valid: true,
        }
    }

    /// Flags of a fully calculated matrix.
    pub fn accurate() -> (r: Self)
        ensures
            r@ == fresh_flags(ErrorMatrixStatus::Accurate),
            flags_consistent(r@),
    {
        ErrorMatrixFlags {
            status: ErrorMatrixStatus::Accurate,
            hesse_failed: false,
            made_pos_def: false,
            invert_failed: false,
            reached_call_limit: false,
            valid: true,
        }
    }

    pub fn status(&self) -> (r: ErrorMatrixStatus)
        ensures
            r == self@.status,
    {
        self.status
    }

    pub fn set_status(&mut self, status: ErrorMatrixStatus)
        ensures
            final(self)@ == (ErrorFlagsView { status, ..old(self)@ }),
            flags_consistent(old(self)@) ==> flags_consistent(final(self)@),
    {
        self.status = status;
    }

    pub fn is_valid(&self) -> (r: bool)
        ensures
            r == self@.valid,
    {
        self.valid
    }

    pub fn is_accurate(&self) -> (r: bool)
        ensures
            r == (self@.status == ErrorMatrixStatus::Accurate),
    {
        self.status == ErrorMatrixStatus::Accurate
    }

    pub fn hesse_failed(&self) -> (r: bool)
        ensures
            r == self@.hesse_failed,
    {
        self.hesse_failed
    }

    pub fn made_pos_def(&self) -> (r: bool)
        ensures
            r == self@.made_pos_def,
    {
        self.made_pos_def
    }

    pub fn invert_failed(&self) -> (r: bool)
        ensures
            r == self@.invert_failed,
    {
        self.invert_failed
    }

    pub fn reached_call_limit(&self) -> (r: bool)
        ensures
            r == self@.reached_call_limit,
    {
        self.reached_call_limit
    }

    /// Record whether the Hessian failed; a failure makes the matrix invalid.
    pub fn set_hesse_failed(&mut self, failed: bool)
        ensures
            final(self)@ == (ErrorFlagsView {
                hesse_failed: failed,
                valid: old(self)@.valid && !failed,
                ..old(self)@
            }),
            flags_consistent(old(self)@) ==> flags_consistent(final(self)@),
    {
        self.hesse_failed = failed;
        if failed {
            self.valid = false;
        }
    }

    /// Record whether the call budget ran out; if so the matrix is invalid.
    pub fn set_reached_call_limit(&mut self, reached: bool)
        ensures
            final(self)@ == (ErrorFlagsView {
                reached_call_limit: reached,
                valid: old(self)@.valid && !reached,
                ..old(self)@
            }),
            flags_consistent(old(self)@) ==> flags_consistent(final(self)@),
    {
        self.reached_call_limit = reached;
        if reached {
            self.valid = false;
        }
    }

    /// Record whether the matrix was made positive-definite; if so the
    /// status says so.
    pub fn set_made_pos_def(&mut self, made: bool)
        ensures
            final(self)@ == (ErrorFlagsView {
                made_pos_def: made,
                status: if made { ErrorMatrixStatus::MadePositiveDefinite } else { old(self)@.status },
                ..old(self)@
            }),
            flags_consistent(old(self)@) ==> flags_consistent(final(self)@),
    {
        self.made_pos_def = made;
        if made {
            self.status = ErrorMatrixStatus::MadePositiveDefinite;
        }
    }

    /// Record whether the inversion failed; a failure makes the matrix invalid.
    pub fn set_invert_failed(&mut self, failed: bool)
        ensures
            final(self)@ == (ErrorFlagsView {
                invert_failed: failed,
                valid: old(self)@.valid && !failed,
                ..old(self)@
            }),
            flags_consistent(old(self)@) ==> flags_consistent(final(self)@),
    {
        self.invert_failed = failed;
        if failed {
            self.valid = false;
        }
    }
}

} // verus!
