//! Composable style functions.
use vstd::prelude::*;

verus! {

/// Composable style functions for styled builders.
///
/// `apply` is just `f(self)`: the value of the trait is making method chains
/// read left-to-right when mixing builder calls with reusable style functions.
pub trait Apply: Sized {
    /// Apply a style function to this builder.
    fn apply<F: FnOnce(Self) -> Self>(self, f: F) -> (r: Self)
        requires
            f.requires((self,)),
        ensures
            f.ensures((self,), r),
    {
        f(self)
    }
}

} // verus!
