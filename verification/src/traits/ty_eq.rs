use vstd::prelude::*;

verus! {

/// Says that `Self` and `T` are the same type, where a bound cannot say so
/// directly.
pub trait TyEq<T>: Sized {
    /// The value as a `T`.
    spec fn spec_cast(self) -> T;

    /// Casts `self` to `T`, since `Self` and `T` are the same type.
    fn cast(self) -> (same: T)
        ensures
            same == self.spec_cast(),
    ;
}

impl<T> TyEq<T> for T {
    open spec fn spec_cast(self) -> T {
        self
    }

    fn cast(self) -> (same: T) {
        self
    }
}

} // verus!
