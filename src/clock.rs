use vstd::prelude::*;

verus! {

/// A component driven one clock tick at a time.
pub trait Clock: Sized {
    type Error;

    /// Whether the component can take a tick.
    spec fn ready(&self) -> bool;

    /// Whether one tick took the component from `self` to `after`, returning `r`.
    spec fn ticked(&self, after: &Self, r: Result<(), Self::Error>) -> bool;

    fn clock(&mut self) -> (r: Result<(), Self::Error>)
        requires
            old(self).ready(),
        ensures
            old(self).ticked(final(self), r),
    ;
}

} // verus!
