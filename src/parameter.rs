use vstd::prelude::*;

verus! {

/// The flags of one parameter, as plain values.
pub struct StatusView {
    pub is_const: bool,
    pub is_fixed: bool,
    pub has_lower_limit: bool,
    pub has_upper_limit: bool,
}

/// A constant parameter is always fixed.
pub open spec fn status_wf(v: StatusView) -> bool {
    v.is_const ==> v.is_fixed
}

/// Flags of a parameter that is neither fixed nor constant.
pub open spec fn free_status(has_lower_limit: bool, has_upper_limit: bool) -> StatusView {
    StatusView { is_const: false, is_fixed: false, has_lower_limit, has_upper_limit }
}

/// Which bounds a parameter has, and whether it is fixed or constant.
/// The bound values themselves are kept by the owner of the parameter.
#[derive(Debug, Clone, Copy, PartialEq, Eq, Structural)]
pub struct ParameterStatus {
    is_const: bool,
    is_fixed: bool,
    has_lower_limit: bool,
    has_upper_limit: bool,
}

impl View for ParameterStatus {
    type V = StatusView;

    closed spec fn view(&self) -> StatusView {
        StatusView {
            is_const: self.is_const,
            is_fixed: self.is_fixed,
            has_lower_limit: self.has_lower_limit,
            has_upper_limit: self.has_upper_limit,
        }
    }
}

impl ParameterStatus {
    /// A free parameter with the given bounds.
    pub fn free(has_lower_limit: bool, has_upper_limit: bool) -> (r: Self)
        ensures
            r@ == free_status(has_lower_limit, has_upper_limit),
            status_wf(r@),
    {
        ParameterStatus { is_const: false, is_fixed: false, has_lower_limit, has_upper_limit }
    }

    /// A constant parameter: fixed for good, without bounds.
    pub fn constant() -> (r: Self)
        ensures
            r@ == (StatusView {
                is_const: true,
                is_fixed: true,
                has_lower_limit: false,
                has_upper_limit: false,
            }),
            status_wf(r@),
    {
        ParameterStatus {
            is_const: true,
            is_fixed: true,
            has_lower_limit: false,
            has_upper_limit: false,
        }
    }

    pub fn is_fixed(&self) -> (r: bool)
        ensures
            r == self@.is_fixed,
    {
        self.is_fixed
    }

    pub fn is_const(&self) -> (r: bool)
        ensures
            r == self@.is_const,
    {
        self.is_const
    }

    pub fn has_lower_limit(&self) -> (r: bool)
        ensures
            r == self@.has_lower_limit,
    {
        self.has_lower_limit
    }

    pub fn has_upper_limit(&self) -> (r: bool)
        ensures
            r == self@.has_upper_limit,
    {
        self.has_upper_limit
    }

    /// Bounded on both sides.
    pub fn has_limits(&self) -> (r: bool)
        ensures
            r == (self@.has_lower_limit && self@.has_upper_limit),
    {
        self.has_lower_limit && self.has_upper_limit
    }

    pub fn fix(&mut self)
        ensures
            final(self)@ == (StatusView { is_fixed: true, ..old(self)@ }),
            status_wf(final(self)@),
    {
        self.is_fixed = true;
    }

    /// Free the parameter, unless it is constant: then nothing changes.
    pub fn release(&mut self)
        ensures
            final(self)@ == (if old(self)@.is_const {
                old(self)@
            } else {
                StatusView { is_fixed: false, ..old(self)@ }
            }),
            status_wf(old(self)@) ==> status_wf(final(self)@),
    {
        if !self.is_const {
            self.is_fixed = false;
        }
    }

    pub fn set_lower_limit(&mut self)
        ensures
            final(self)@ == (StatusView { has_lower_limit: true, ..old(self)@ }),
            status_wf(old(self)@) ==> status_wf(final(self)@),
    {
        self.has_lower_limit = true;
    }

    pub fn set_upper_limit(&mut self)
        ensures
            final(self)@ == (StatusView { has_upper_limit: true, ..old(self)@ }),
            status_wf(old(self)@) ==> status_wf(final(self)@),
    {
        self.has_upper_limit = true;
    }

    /// Bound on both sides.
    pub fn set_limits(&mut self)
        ensures
            final(self)@ == (StatusView {
                has_lower_limit: true,
                has_upper_limit: true,
                ..old(self)@
            }),
            status_wf(old(self)@) ==> status_wf(final(self)@),
    {
        self.has_lower_limit = true;
        self.has_upper_limit = true;
    }

    pub fn remove_limits(&mut self)
        ensures
            final(self)@ == (StatusView {
                has_lower_limit: false,
                has_upper_limit: false,
                ..old(self)@
            }),
            status_wf(old(self)@) ==> status_wf(final(self)@),
    {
        self.has_lower_limit = false;
        self.has_upper_limit = false;
    }
}

} // verus!
