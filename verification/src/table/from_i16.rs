//! The conversions from `i16`: into every other integer type.
use crate::cast::CastFrom;
use crate::kind::IntKind;
use crate::table::IntegerEdge;
use vstd::prelude::*;

verus! {

/// `i16` to `u8`: the low 8 bits.
impl CastFrom<i16> for u8 {
    open spec fn cast_from_spec(value: i16) -> u8 {
        IntKind::U8.wrap(value as int) as u8
    }

    fn cast_from(value: i16) -> (result: u8)
        ensures
            result as int == IntKind::U8.wrap(value as int),
    {
        proof {
            crate::truncation::lemma_as_u8(value as int);
        }
        #[verifier::truncate]
        (value as u8)
    }
}

impl IntegerEdge<i16> for u8 {
    proof fn lemma_wraps(value: i16) {
    }
}

/// `i16` to `u16`: the same 16 bits, read as unsigned.
impl CastFrom<i16> for u16 {
    open spec fn cast_from_spec(value: i16) -> u16 {
        IntKind::U16.wrap(value as int) as u16
    }

    fn cast_from(value: i16) -> (result: u16)
        ensures
            result as int == IntKind::U16.wrap(value as int),
    {
        proof {
            crate::truncation::lemma_as_u16(value as int);
        }
        #[verifier::truncate]
        (value as u16)
    }
}

impl IntegerEdge<i16> for u16 {
    proof fn lemma_wraps(value: i16) {
    }
}

/// `i16` to `u32`: sign-extended to 32 bits, read as unsigned.
impl CastFrom<i16> for u32 {
    open spec fn cast_from_spec(value: i16) -> u32 {
        IntKind::U32.wrap(value as int) as u32
    }

    fn cast_from(value: i16) -> (result: u32)
        ensures
            result as int == IntKind::U32.wrap(value as int),
    {
        proof {
            crate::truncation::lemma_as_u32(value as int);
        }
        #[verifier::truncate]
        (value as u32)
    }
}

impl IntegerEdge<i16> for u32 {
    proof fn lemma_wraps(value: i16) {
    }
}

/// `i16` to `u64`: sign-extended to 64 bits, read as unsigned.
impl CastFrom<i16> for u64 {
    open spec fn cast_from_spec(value: i16) -> u64 {
        IntKind::U64.wrap(value as int) as u64
    }

    fn cast_from(value: i16) -> (result: u64)
        ensures
            result as int == IntKind::U64.wrap(value as int),
    {
        proof {
            crate::truncation::lemma_as_u64(value as int);
        }
        #[verifier::truncate]
        (value as u64)
    }
}

impl IntegerEdge<i16> for u64 {
    proof fn lemma_wraps(value: i16) {
    }
}

/// `i16` to `u128`: sign-extended to 128 bits, read as unsigned.
impl CastFrom<i16> for u128 {
    open spec fn cast_from_spec(value: i16) -> u128 {
        IntKind::U128.wrap(value as int) as u128
    }

    fn cast_from(value: i16) -> (result: u128)
        ensures
            result as int == IntKind::U128.wrap(value as int),
    {
        proof {
            crate::truncation::lemma_as_u128(value as int);
        }
        #[verifier::truncate]
        (value as u128)
    }
}

impl IntegerEdge<i16> for u128 {
    proof fn lemma_wraps(value: i16) {
    }
}

/// `i16` to `usize`: sign-extended to `usize::BITS` bits, read as unsigned.
impl CastFrom<i16> for usize {
    open spec fn cast_from_spec(value: i16) -> usize {
        IntKind::Usize.wrap(value as int) as usize
    }

    fn cast_from(value: i16) -> (result: usize)
        ensures
            result as int == IntKind::Usize.wrap(value as int),
            usize::BITS == 32 ==> result as int == IntKind::U32.wrap(value as int),
            usize::BITS == 64 ==> result as int == IntKind::U64.wrap(value as int),
    {
        proof {
            crate::truncation::lemma_as_usize(value as int);
            crate::kind::lemma_pointer_sized_wrap(value as int);
        }
        #[verifier::truncate]
        (value as usize)
    }
}

impl IntegerEdge<i16> for usize {
    proof fn lemma_wraps(value: i16) {
    }
}

/// `i16` to `i8`: the low 8 bits, read as signed.
impl CastFrom<i16> for i8 {
    open spec fn cast_from_spec(value: i16) -> i8 {
        IntKind::I8.wrap(value as int) as i8
    }

    fn cast_from(value: i16) -> (result: i8)
        ensures
            result as int == IntKind::I8.wrap(value as int),
    {
        proof {
            crate::truncation::lemma_as_i8(value as int);
        }
        #[verifier::truncate]
        (value as i8)
    }
}

impl IntegerEdge<i16> for i8 {
    proof fn lemma_wraps(value: i16) {
    }
}

/// `i16` to `i32`: sign-extended; the number is kept.
impl CastFrom<i16> for i32 {
    open spec fn cast_from_spec(value: i16) -> i32 {
        value as i32
    }

    fn cast_from(value: i16) -> (result: i32)
        ensures
            result as int == value as int,
    {
        value as i32
    }
}

impl IntegerEdge<i16> for i32 {
    proof fn lemma_wraps(value: i16) {
        crate::kind::lemma_wrap_fixes_range(IntKind::I32, value as int);
    }
}

/// `i16` to `i64`: sign-extended; the number is kept.
impl CastFrom<i16> for i64 {
    open spec fn cast_from_spec(value: i16) -> i64 {
        value as i64
    }

    fn cast_from(value: i16) -> (result: i64)
        ensures
            result as int == value as int,
    {
        value as i64
    }
}

impl IntegerEdge<i16> for i64 {
    proof fn lemma_wraps(value: i16) {
        crate::kind::lemma_wrap_fixes_range(IntKind::I64, value as int);
    }
}

/// `i16` to `i128`: sign-extended; the number is kept.
impl CastFrom<i16> for i128 {
    open spec fn cast_from_spec(value: i16) -> i128 {
        value as i128
    }

    fn cast_from(value: i16) -> (result: i128)
        ensures
            result as int == value as int,
    {
        value as i128
    }
}

impl IntegerEdge<i16> for i128 {
    proof fn lemma_wraps(value: i16) {
        crate::kind::lemma_wrap_fixes_range(IntKind::I128, value as int);
    }
}

/// `i16` to `isize`: sign-extended; the number is kept.
impl CastFrom<i16> for isize {
    open spec fn cast_from_spec(value: i16) -> isize {
        value as isize
    }

    fn cast_from(value: i16) -> (result: isize)
        ensures
            result as int == value as int,
    {
        value as isize
    }
}

impl IntegerEdge<i16> for isize {
    proof fn lemma_wraps(value: i16) {
        crate::kind::lemma_wrap_fixes_range(IntKind::Isize, value as int);
    }
}

} // verus!
