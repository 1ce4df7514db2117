use vstd::prelude::*;

verus! {

/// Conversion of a value, consumed, into another representation `T` of it.
///
/// A type may convert into several targets; the target that the caller asks
/// for selects the implementation. Each implementation says, through
/// `pat_requires` and `pat_ensures`, on which values it may be called and
/// what it returns.
pub trait AsPattern<T> {
    /// The values of `Self` that can be converted into a `T`.
    spec fn pat_requires(self) -> bool;

    /// Whether `r` is a possible result of converting `self`.
    spec fn pat_ensures(self, r: T) -> bool;

    /// Converts `self` into a `T`, taking ownership of it.
    fn pat(self) -> (r: T)
        requires
            self.pat_requires(),
        ensures
            self.pat_ensures(r),
    ;
}

/// Every type converts into itself, unchanged.
impl<T> AsPattern<T> for T {
    open spec fn pat_requires(self) -> bool {
        true
    }

    open spec fn pat_ensures(self, r: T) -> bool {
        r == self
    }

    fn pat(self) -> (r: T) {
        self
    }
}

} // verus!
