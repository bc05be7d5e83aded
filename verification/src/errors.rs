use vstd::prelude::*;

verus! {

/// The error a failed checked push returns: the container was already at
/// capacity, and the rejected element rides along so the caller can retry
/// it elsewhere or discard it deliberately. No element is ever lost.
#[derive(Debug)]
pub struct CapacityError<T> {
    /// The element that did not fit.
    pub element: T,
}

impl<T> CapacityError<T> {
    /// Wraps a rejected element.
    pub fn new(element: T) -> (r: Self)
        ensures
            r.element == element,
    {
        CapacityError { element }
    }
}

} // verus!
