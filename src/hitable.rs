use vstd::prelude::*;

verus! {

/// A decorator that reports its inner hitable's hits with the surface normal
/// reversed, and its bounding box unchanged.
pub struct FlipNormals<T> {
    hitable: T,
}

impl<T> FlipNormals<T> {
    /// Wraps `hitable`.
    pub fn new(hitable: T) -> (r: Self)
        ensures
            r.spec_inner() == hitable,
    {
        FlipNormals { hitable }
    }

    /// The wrapped hitable.
    pub closed spec fn spec_inner(&self) -> T {
        self.hitable
    }

    /// The wrapped hitable.
    pub fn inner(&self) -> (r: &T)
        ensures
            *r == self.spec_inner(),
    {
        &self.hitable
    }
}

} // verus!
