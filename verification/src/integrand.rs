use vstd::prelude::*;
use crate::region::{EstimateError, Region};

verus! {

/// A function of one real variable that can be integrated by sampling.
///
/// The function itself is never evaluated. What sampling needs is the decision
/// whether a grid point lies on or under its graph, and an implementation gives
/// that decision exactly, on integers.
pub trait Integrand {
    /// The function has a value at the real abscissa `x / scale`.
    spec fn defined_at(&self, scale: int, x: int) -> bool;

    /// The real point `(x / scale, y / scale)` lies on or under the graph:
    /// `y / scale <= f(x / scale)`. Meaningful where `scale > 0` and the function
    /// is defined at `x`.
    spec fn under(&self, scale: int, x: int, y: int) -> bool;

    /// Decides whether a grid point lies on or under the graph. A point exactly
    /// on the graph is under it. Where the function has no value at the point's
    /// abscissa, the result is an error and no decision is made.
    fn accepts(&self, scale: i32, x: i32, y: i32) -> (r: Result<bool, EstimateError>)
        ensures
            self.defined_at(scale as int, x as int) ==> r == Ok::<bool, EstimateError>(
                self.under(scale as int, x as int, y as int),
            ),
            !self.defined_at(scale as int, x as int) ==> r == Err::<bool, EstimateError>(
                EstimateError::NumericDomain,
            ),
    ;
}

/// The function has a value everywhere on the region's horizontal interval.
pub open spec fn defined_on<F: Integrand>(f: F, region: Region) -> bool {
    forall|x: int| region.a <= x < region.b ==> #[trigger] f.defined_at(region.scale as int, x)
}

} // verus!
