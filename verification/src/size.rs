//! The width/height pair that a point can be built from.

use vstd::prelude::*;
use vstd::std_specs::cmp::PartialEqSpec;

verus! {

/// The extent of a rectangle: a width and a height.
#[derive(Debug)]
pub struct Size<S> {
    /// The width.
    pub w: S,
    /// The height.
    pub h: S,
}

impl<S: Copy> Copy for Size<S> {

}

impl<S: Copy> Clone for Size<S> {
    /// A size is a plain value: its clone is the size itself.
    fn clone(&self) -> (s: Size<S>)
        ensures
            s == *self,
    {
        *self
    }
}

impl<S: PartialEq> PartialEq for Size<S> {
    /// Two sizes are equal when their widths are equal and their heights are
    /// equal, by the scalar's own `==`.
    fn eq(&self, other: &Size<S>) -> (r: bool)
        ensures
            S::obeys_eq_spec() ==> r == (self.w.eq_spec(&other.w) && self.h.eq_spec(&other.h)),
    {
        self.w == other.w && self.h == other.h
    }
}

impl<S: PartialEq> vstd::std_specs::cmp::PartialEqSpecImpl for Size<S> {
    open spec fn obeys_eq_spec() -> bool {
        S::obeys_eq_spec()
    }

    open spec fn eq_spec(&self, other: &Size<S>) -> bool {
        self.w.eq_spec(&other.w) && self.h.eq_spec(&other.h)
    }
}

} // verus!
