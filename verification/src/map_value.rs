//! A value-mapping combinator: apply a function to any value in place of a
//! temporary binding.

use vstd::prelude::*;

verus! {

/// Lets any sized value be piped through a function, `v.map_value(f)` being
/// `f(v)`.
pub trait MapValue: Sized {
    /// Applies `f` to `self` and returns the result.
    fn map_value<U, F: FnOnce(Self) -> U>(self, f: F) -> (r: U)
        requires
            call_requires(f, (self,)),
        ensures
            call_ensures(f, (self,), r),
    {
        f(self)
    }
}

impl<T: Sized> MapValue for T {

}

} // verus!
