//! The conversions from `isize`: into every other integer type.
use crate::cast::CastFrom;
use crate::kind::IntKind;
use crate::table::IntegerEdge;
use vstd::prelude::*;

verus! {

/// `isize` to `u8`: the low 8 bits.
impl CastFrom<isize> for u8 {
    open spec fn cast_from_spec(value: isize) -> u8 {
        IntKind::U8.wrap(value as int) as u8
    }

    fn cast_from(value: isize) -> (result: u8)
        ensures
            result as int == IntKind::U8.wrap(value as int),
    {
        proof {
            crate::truncation::lemma_as_u8(value as int);
        }
        #[verifier::truncate]
        (value as u8)
    }
}

impl IntegerEdge<isize> for u8 {
    proof fn lemma_wraps(value: isize) {
    }
}

/// `isize` to `u16`: the low 16 bits.
impl CastFrom<isize> for u16 {
    open spec fn cast_from_spec(value: isize) -> u16 {
        IntKind::U16.wrap(value as int) as u16
    }

    fn cast_from(value: isize) -> (result: u16)
        ensures
            result as int == IntKind::U16.wrap(value as int),
    {
        proof {
            crate::truncation::lemma_as_u16(value as int);
        }
        #[verifier::truncate]
        (value as u16)
    }
}

impl IntegerEdge<isize> for u16 {
    proof fn lemma_wraps(value: isize) {
    }
}

/// `isize` to `u32`: the low 32 bits.
impl CastFrom<isize> for u32 {
    open spec fn cast_from_spec(value: isize) -> u32 {
        IntKind::U32.wrap(value as int) as u32
    }

    fn cast_from(value: isize) -> (result: u32)
        ensures
            result as int == IntKind::U32.wrap(value as int),
    {
        proof {
            crate::truncation::lemma_as_u32(value as int);
        }
        #[verifier::truncate]
        (value as u32)
    }
}

impl IntegerEdge<isize> for u32 {
    proof fn lemma_wraps(value: isize) {
    }
}

/// `isize` to `u64`: the low 64 bits.
impl CastFrom<isize> for u64 {
    open spec fn cast_from_spec(value: isize) -> u64 {
        IntKind::U64.wrap(value as int) as u64
    }

    fn cast_from(value: isize) -> (result: u64)
        ensures
            result as int == IntKind::U64.wrap(value as int),
    {
        proof {
            crate::truncation::lemma_as_u64(value as int);
        }
        #[verifier::truncate]
        (value as u64)
    }
}

impl IntegerEdge<isize> for u64 {
    proof fn lemma_wraps(value: isize) {
    }
}

/// `isize` to `u128`: sign-extended to 128 bits, read as unsigned.
impl CastFrom<isize> for u128 {
    open spec fn cast_from_spec(value: isize) -> u128 {
        IntKind::U128.wrap(value as int) as u128
    }

    fn cast_from(value: isize) -> (result: u128)
        ensures
            result as int == IntKind::U128.wrap(value as int),
    {
        proof {
            crate::truncation::lemma_as_u128(value as int);
        }
        #[verifier::truncate]
        (value as u128)
    }
}

impl IntegerEdge<isize> for u128 {
    proof fn lemma_wraps(value: isize) {
    }
}

/// `isize` to `usize`: the same `usize::BITS` bits, read as unsigned.
impl CastFrom<isize> for usize {
    open spec fn cast_from_spec(value: isize) -> usize {
        IntKind::Usize.wrap(value as int) as usize
    }

    fn cast_from(value: isize) -> (result: usize)
        ensures
            result as int == IntKind::Usize.wrap(value as int),
            usize::BITS == 32 ==> result as int == IntKind::U32.wrap(value as int),
            usize::BITS == 64 ==> result as int == IntKind::U64.wrap(value as int),
    {
        proof {
            crate::truncation::lemma_as_usize(value as int);
            crate::kind::lemma_pointer_sized_wrap(value as int);
        }
        #[verifier::truncate]
        (value as usize)
    }
}

impl IntegerEdge<isize> for usize {
    proof fn lemma_wraps(value: isize) {
    }
}

/// `isize` to `i8`: the low 8 bits, read as signed.
impl CastFrom<isize> for i8 {
    open spec fn cast_from_spec(value: isize) -> i8 {
        IntKind::I8.wrap(value as int) as i8
    }

    fn cast_from(value: isize) -> (result: i8)
        ensures
            result as int == IntKind::I8.wrap(value as int),
    {
        proof {
            crate::truncation::lemma_as_i8(value as int);
        }
        #[verifier::truncate]
        (value as i8)
    }
}

impl IntegerEdge<isize> for i8 {
    proof fn lemma_wraps(value: isize) {
    }
}

/// `isize` to `i16`: the low 16 bits, read as signed.
impl CastFrom<isize> for i16 {
    open spec fn cast_from_spec(value: isize) -> i16 {
        IntKind::I16.wrap(value as int) as i16
    }

    fn cast_from(value: isize) -> (result: i16)
        ensures
            result as int == IntKind::I16.wrap(value as int),
    {
        proof {
            crate::truncation::lemma_as_i16(value as int);
        }
        #[verifier::truncate]
        (value as i16)
    }
}

impl IntegerEdge<isize> for i16 {
    proof fn lemma_wraps(value: isize) {
    }
}

/// `isize` to `i32`: the low 32 bits, read as signed.
impl CastFrom<isize> for i32 {
    open spec fn cast_from_spec(value: isize) -> i32 {
        IntKind::I32.wrap(value as int) as i32
    }

    fn cast_from(value: isize) -> (result: i32)
        ensures
            result as int == IntKind::I32.wrap(value as int),
    {
        proof {
            crate::truncation::lemma_as_i32(value as int);
        }
        #[verifier::truncate]
        (value as i32)
    }
}

impl IntegerEdge<isize> for i32 {
    proof fn lemma_wraps(value: isize) {
    }
}

/// `isize` to `i64`: sign-extended; the number is kept.
impl CastFrom<isize> for i64 {
    open spec fn cast_from_spec(value: isize) -> i64 {
        value as i64
    }

    fn cast_from(value: isize) -> (result: i64)
        ensures
            result as int == value as int,
    {
        value as i64
    }
}

impl IntegerEdge<isize> for i64 {
    proof fn lemma_wraps(value: isize) {
        crate::kind::lemma_wrap_fixes_range(IntKind::I64, value as int);
    }
}

/// `isize` to `i128`: sign-extended; the number is kept.
impl CastFrom<isize> for i128 {
    open spec fn cast_from_spec(value: isize) -> i128 {
        value as i128
    }

    fn cast_from(value: isize) -> (result: i128)
        ensures
            result as int == value as int,
    {
        value as i128
    }
}

impl IntegerEdge<isize> for i128 {
    proof fn lemma_wraps(value: isize) {
        crate::kind::lemma_wrap_fixes_range(IntKind::I128, value as int);
    }
}

} // verus!
