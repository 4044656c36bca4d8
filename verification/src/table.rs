//! The table of conversions between primitives.
//!
//! Every entry between two distinct types is an impl of [`CastFrom`] that
//! states the converted value and computes it with `as`; they stand in one
//! file for each source type. The entries into an integer type all follow one
//! rule, [`IntKind::wrap`], and [`IntegerEdge`] is the proof of that, entry by
//! entry.
use crate::cast::CastFrom;
use crate::kind::IntKind;
use crate::primitive::{Numbered, PrimitiveInteger};
use vstd::prelude::*;

mod from_bool;
mod from_char;
mod from_u8;
mod from_u16;
mod from_u32;
mod from_u64;
mod from_u128;
mod from_usize;
mod from_i8;
mod from_i16;
mod from_i32;
mod from_i64;
mod from_i128;
mod from_isize;

verus! {

/// A conversion into an integer type that follows the general rule: the
/// number that the source stands for, wrapped into the target's kind.
///
/// Every conversion of this crate into an integer type is such an edge, from
/// `bool`, from `char`, from another integer type and from the type itself.
pub trait IntegerEdge<T: Numbered>: PrimitiveInteger + CastFrom<T> {
    /// The result stands for the source's number wrapped into the target's
    /// kind.
    proof fn lemma_wraps(value: T)
        ensures
            <Self as CastFrom<T>>::cast_from_spec(value).value() == Self::kind().wrap(
                value.value(),
            ),
    ;
}

/// `u8` to itself is the identity, and the identity keeps the number.
impl IntegerEdge<u8> for u8 {
    proof fn lemma_wraps(value: u8) {
        crate::kind::lemma_wrap_fixes_range(IntKind::U8, value as int);
    }
}

/// `u16` to itself is the identity, and the identity keeps the number.
impl IntegerEdge<u16> for u16 {
    proof fn lemma_wraps(value: u16) {
        crate::kind::lemma_wrap_fixes_range(IntKind::U16, value as int);
    }
}

/// `u32` to itself is the identity, and the identity keeps the number.
impl IntegerEdge<u32> for u32 {
    proof fn lemma_wraps(value: u32) {
        crate::kind::lemma_wrap_fixes_range(IntKind::U32, value as int);
    }
}

/// `u64` to itself is the identity, and the identity keeps the number.
impl IntegerEdge<u64> for u64 {
    proof fn lemma_wraps(value: u64) {
        crate::kind::lemma_wrap_fixes_range(IntKind::U64, value as int);
    }
}

/// `u128` to itself is the identity, and the identity keeps the number.
impl IntegerEdge<u128> for u128 {
    proof fn lemma_wraps(value: u128) {
        crate::kind::lemma_wrap_fixes_range(IntKind::U128, value as int);
    }
}

/// `usize` to itself is the identity, and the identity keeps the number.
impl IntegerEdge<usize> for usize {
    proof fn lemma_wraps(value: usize) {
        crate::kind::lemma_wrap_fixes_range(IntKind::Usize, value as int);
    }
}

/// `i8` to itself is the identity, and the identity keeps the number.
impl IntegerEdge<i8> for i8 {
    proof fn lemma_wraps(value: i8) {
        crate::kind::lemma_wrap_fixes_range(IntKind::I8, value as int);
    }
}

/// `i16` to itself is the identity, and the identity keeps the number.
impl IntegerEdge<i16> for i16 {
    proof fn lemma_wraps(value: i16) {
        crate::kind::lemma_wrap_fixes_range(IntKind::I16, value as int);
    }
}

/// `i32` to itself is the identity, and the identity keeps the number.
impl IntegerEdge<i32> for i32 {
    proof fn lemma_wraps(value: i32) {
        crate::kind::lemma_wrap_fixes_range(IntKind::I32, value as int);
    }
}

/// `i64` to itself is the identity, and the identity keeps the number.
impl IntegerEdge<i64> for i64 {
    proof fn lemma_wraps(value: i64) {
        crate::kind::lemma_wrap_fixes_range(IntKind::I64, value as int);
    }
}

/// `i128` to itself is the identity, and the identity keeps the number.
impl IntegerEdge<i128> for i128 {
    proof fn lemma_wraps(value: i128) {
        crate::kind::lemma_wrap_fixes_range(IntKind::I128, value as int);
    }
}

/// `isize` to itself is the identity, and the identity keeps the number.
impl IntegerEdge<isize> for isize {
    proof fn lemma_wraps(value: isize) {
        crate::kind::lemma_wrap_fixes_range(IntKind::Isize, value as int);
    }
}

} // verus!
