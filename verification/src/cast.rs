//! The two conversion traits.
//!
//! [`CastFrom`] is the relation itself: `U: CastFrom<T>` says that a `T` can
//! be converted to a `U`, and `U::cast_from_spec` says to which one.
//! [`CastInto`] is the same relation read from the source's side; its only
//! impl is derived from `CastFrom`, so the two cannot disagree.
//!
//! `cast_from_spec` and `cast_into_spec` are specification functions: they
//! are what contracts and proofs speak of, and nothing calls them at run
//! time.
use vstd::prelude::*;

verus! {

/// Conversion from a `T`.
///
/// `U: CastFrom<T>` means that a `U` can be made from a `T`. The conversion is
/// a total function of the value: `cast_from_spec` is that function, and
/// `cast_from` computes it.
pub trait CastFrom<T>: Sized {
    /// The value that `value` converts to.
    ///
    /// A verified impl states it. An impl in plain Rust cannot, and for such
    /// an impl this is a value of which nothing is known.
    open spec fn cast_from_spec(value: T) -> Self {
        vstd::pervasive::arbitrary()
    }

    /// Converts `value` to `Self`.
    fn cast_from(value: T) -> (result: Self)
        ensures
            result == Self::cast_from_spec(value),
    ;
}

/// Every type converts to itself, and the value is unchanged.
impl<T> CastFrom<T> for T {
    open spec fn cast_from_spec(value: T) -> T {
        value
    }

    fn cast_from(value: T) -> (result: T)
        ensures
            result == value,
    {
        value
    }
}

/// Conversion into a `T`: [`CastFrom`] with the roles of source and target
/// exchanged.
///
/// The impl below covers every pair that has a `CastFrom`; implement that
/// trait, never this one.
pub trait CastInto<T>: Sized {
    /// The value that `self` converts to.
    spec fn cast_into_spec(self) -> T;

    /// Converts `self` to `T`.
    fn cast_into(self) -> (result: T)
        ensures
            result == self.cast_into_spec(),
    ;
}

/// Wherever `U` converts from `T`, `T` converts into `U`, to the same value.
impl<T, U: CastFrom<T>> CastInto<U> for T {
    open spec fn cast_into_spec(self) -> U {
        U::cast_from_spec(self)
    }

    fn cast_into(self) -> (result: U) {
        U::cast_from(self)
    }
}

} // verus!
