//! The conversions from `usize`: into every other integer type.
use crate::cast::CastFrom;
use crate::kind::IntKind;
use crate::table::IntegerEdge;
use vstd::prelude::*;

verus! {

/// `usize` to `u8`: the low 8 bits.
impl CastFrom<usize> for u8 {
    open spec fn cast_from_spec(value: usize) -> u8 {
        IntKind::U8.wrap(value as int) as u8
    }

    fn cast_from(value: usize) -> (result: u8)
        ensures
            result as int == IntKind::U8.wrap(value as int),
    {
        proof {
            crate::truncation::lemma_as_u8(value as int);
        }
        #[verifier::truncate]
        (value as u8)
    }
}

impl IntegerEdge<usize> for u8 {
    proof fn lemma_wraps(value: usize) {
    }
}

/// `usize` to `u16`: the low 16 bits.
impl CastFrom<usize> for u16 {
    open spec fn cast_from_spec(value: usize) -> u16 {
        IntKind::U16.wrap(value as int) as u16
    }

    fn cast_from(value: usize) -> (result: u16)
        ensures
            result as int == IntKind::U16.wrap(value as int),
    {
        proof {
            crate::truncation::lemma_as_u16(value as int);
        }
        #[verifier::truncate]
        (value as u16)
    }
}

impl IntegerEdge<usize> for u16 {
    proof fn lemma_wraps(value: usize) {
    }
}

/// `usize` to `u32`: the low 32 bits.
impl CastFrom<usize> for u32 {
    open spec fn cast_from_spec(value: usize) -> u32 {
        IntKind::U32.wrap(value as int) as u32
    }

    fn cast_from(value: usize) -> (result: u32)
        ensures
            result as int == IntKind::U32.wrap(value as int),
    {
        proof {
            crate::truncation::lemma_as_u32(value as int);
        }
        #[verifier::truncate]
        (value as u32)
    }
}

impl IntegerEdge<usize> for u32 {
    proof fn lemma_wraps(value: usize) {
    }
}

/// `usize` to `u64`: zero-extended; the number is kept.
impl CastFrom<usize> for u64 {
    open spec fn cast_from_spec(value: usize) -> u64 {
        value as u64
    }

    fn cast_from(value: usize) -> (result: u64)
        ensures
            result as int == value as int,
    {
        value as u64
    }
}

impl IntegerEdge<usize> for u64 {
    proof fn lemma_wraps(value: usize) {
        crate::kind::lemma_wrap_fixes_range(IntKind::U64, value as int);
    }
}

/// `usize` to `u128`: zero-extended; the number is kept.
impl CastFrom<usize> for u128 {
    open spec fn cast_from_spec(value: usize) -> u128 {
        value as u128
    }

    fn cast_from(value: usize) -> (result: u128)
        ensures
            result as int == value as int,
    {
        value as u128
    }
}

impl IntegerEdge<usize> for u128 {
    proof fn lemma_wraps(value: usize) {
        crate::kind::lemma_wrap_fixes_range(IntKind::U128, value as int);
    }
}

/// `usize` to `i8`: the low 8 bits, read as signed.
impl CastFrom<usize> for i8 {
    open spec fn cast_from_spec(value: usize) -> i8 {
        IntKind::I8.wrap(value as int) as i8
    }

    fn cast_from(value: usize) -> (result: i8)
        ensures
            result as int == IntKind::I8.wrap(value as int),
    {
        proof {
            crate::truncation::lemma_as_i8(value as int);
        }
        #[verifier::truncate]
        (value as i8)
    }
}

impl IntegerEdge<usize> for i8 {
    proof fn lemma_wraps(value: usize) {
    }
}

/// `usize` to `i16`: the low 16 bits, read as signed.
impl CastFrom<usize> for i16 {
    open spec fn cast_from_spec(value: usize) -> i16 {
        IntKind::I16.wrap(value as int) as i16
    }

    fn cast_from(value: usize) -> (result: i16)
        ensures
            result as int == IntKind::I16.wrap(value as int),
    {
        proof {
            crate::truncation::lemma_as_i16(value as int);
        }
        #[verifier::truncate]
        (value as i16)
    }
}

impl IntegerEdge<usize> for i16 {
    proof fn lemma_wraps(value: usize) {
    }
}

/// `usize` to `i32`: the low 32 bits, read as signed.
impl CastFrom<usize> for i32 {
    open spec fn cast_from_spec(value: usize) -> i32 {
        IntKind::I32.wrap(value as int) as i32
    }

    fn cast_from(value: usize) -> (result: i32)
        ensures
            result as int == IntKind::I32.wrap(value as int),
    {
        proof {
            crate::truncation::lemma_as_i32(value as int);
        }
        #[verifier::truncate]
        (value as i32)
    }
}

impl IntegerEdge<usize> for i32 {
    proof fn lemma_wraps(value: usize) {
    }
}

/// `usize` to `i64`: the low 64 bits, read as signed.
impl CastFrom<usize> for i64 {
    open spec fn cast_from_spec(value: usize) -> i64 {
        IntKind::I64.wrap(value as int) as i64
    }

    fn cast_from(value: usize) -> (result: i64)
        ensures
            result as int == IntKind::I64.wrap(value as int),
    {
        proof {
            crate::truncation::lemma_as_i64(value as int);
        }
        #[verifier::truncate]
        (value as i64)
    }
}

impl IntegerEdge<usize> for i64 {
    proof fn lemma_wraps(value: usize) {
    }
}

/// `usize` to `i128`: zero-extended; the number is kept.
impl CastFrom<usize> for i128 {
    open spec fn cast_from_spec(value: usize) -> i128 {
        value as i128
    }

    fn cast_from(value: usize) -> (result: i128)
        ensures
            result as int == value as int,
    {
        value as i128
    }
}

impl IntegerEdge<usize> for i128 {
    proof fn lemma_wraps(value: usize) {
        crate::kind::lemma_wrap_fixes_range(IntKind::I128, value as int);
    }
}

/// `usize` to `isize`: the same `isize::BITS` bits, read as signed.
impl CastFrom<usize> for isize {
    open spec fn cast_from_spec(value: usize) -> isize {
        IntKind::Isize.wrap(value as int) as isize
    }

    fn cast_from(value: usize) -> (result: isize)
        ensures
            result as int == IntKind::Isize.wrap(value as int),
            usize::BITS == 32 ==> result as int == IntKind::I32.wrap(value as int),
            usize::BITS == 64 ==> result as int == IntKind::I64.wrap(value as int),
    {
        proof {
            crate::truncation::lemma_as_isize(value as int);
            crate::kind::lemma_pointer_sized_wrap(value as int);
        }
        #[verifier::truncate]
        (value as isize)
    }
}

impl IntegerEdge<usize> for isize {
    proof fn lemma_wraps(value: usize) {
    }
}

} // verus!
