//! The conversions from `i32`: into every other integer type.
use crate::cast::CastFrom;
use crate::kind::IntKind;
use crate::table::IntegerEdge;
use vstd::prelude::*;

verus! {

/// `i32` to `u8`: the low 8 bits.
impl CastFrom<i32> for u8 {
    open spec fn cast_from_spec(value: i32) -> u8 {
        IntKind::U8.wrap(value as int) as u8
    }

    fn cast_from(value: i32) -> (result: u8)
        ensures
            result as int == IntKind::U8.wrap(value as int),
    {
        proof {
            crate::truncation::lemma_as_u8(value as int);
        }
        #[verifier::truncate]
        (value as u8)
    }
}

impl IntegerEdge<i32> for u8 {
    proof fn lemma_wraps(value: i32) {
    }
}

/// `i32` to `u16`: the low 16 bits.
impl CastFrom<i32> for u16 {
    open spec fn cast_from_spec(value: i32) -> u16 {
        IntKind::U16.wrap(value as int) as u16
    }

    fn cast_from(value: i32) -> (result: u16)
        ensures
            result as int == IntKind::U16.wrap(value as int),
    {
        proof {
            crate::truncation::lemma_as_u16(value as int);
        }
        #[verifier::truncate]
        (value as u16)
    }
}

impl IntegerEdge<i32> for u16 {
    proof fn lemma_wraps(value: i32) {
    }
}

/// `i32` to `u32`: the same 32 bits, read as unsigned.
impl CastFrom<i32> for u32 {
    open spec fn cast_from_spec(value: i32) -> u32 {
        IntKind::U32.wrap(value as int) as u32
    }

    fn cast_from(value: i32) -> (result: u32)
        ensures
            result as int == IntKind::U32.wrap(value as int),
    {
        proof {
            crate::truncation::lemma_as_u32(value as int);
        }
        #[verifier::truncate]
        (value as u32)
    }
}

impl IntegerEdge<i32> for u32 {
    proof fn lemma_wraps(value: i32) {
    }
}

/// `i32` to `u64`: sign-extended to 64 bits, read as unsigned.
impl CastFrom<i32> for u64 {
    open spec fn cast_from_spec(value: i32) -> u64 {
        IntKind::U64.wrap(value as int) as u64
    }

    fn cast_from(value: i32) -> (result: u64)
        ensures
            result as int == IntKind::U64.wrap(value as int),
    {
        proof {
            crate::truncation::lemma_as_u64(value as int);
        }
        #[verifier::truncate]
        (value as u64)
    }
}

impl IntegerEdge<i32> for u64 {
    proof fn lemma_wraps(value: i32) {
    }
}

/// `i32` to `u128`: sign-extended to 128 bits, read as unsigned.
impl CastFrom<i32> for u128 {
    open spec fn cast_from_spec(value: i32) -> u128 {
        IntKind::U128.wrap(value as int) as u128
    }

    fn cast_from(value: i32) -> (result: u128)
        ensures
            result as int == IntKind::U128.wrap(value as int),
    {
        proof {
            crate::truncation::lemma_as_u128(value as int);
        }
        #[verifier::truncate]
        (value as u128)
    }
}

impl IntegerEdge<i32> for u128 {
    proof fn lemma_wraps(value: i32) {
    }
}

/// `i32` to `usize`: the low `usize::BITS` bits.
impl CastFrom<i32> for usize {
    open spec fn cast_from_spec(value: i32) -> usize {
        IntKind::Usize.wrap(value as int) as usize
    }

    fn cast_from(value: i32) -> (result: usize)
        ensures
            result as int == IntKind::Usize.wrap(value as int),
            usize::BITS == 32 ==> result as int == IntKind::U32.wrap(value as int),
            usize::BITS == 64 ==> result as int == IntKind::U64.wrap(value as int),
    {
        proof {
            crate::truncation::lemma_as_usize(value as int);
            crate::kind::lemma_pointer_sized_wrap(value as int);
        }
        #[verifier::truncate]
        (value as usize)
    }
}

impl IntegerEdge<i32> for usize {
    proof fn lemma_wraps(value: i32) {
    }
}

/// `i32` to `i8`: the low 8 bits, read as signed.
impl CastFrom<i32> for i8 {
    open spec fn cast_from_spec(value: i32) -> i8 {
        IntKind::I8.wrap(value as int) as i8
    }

    fn cast_from(value: i32) -> (result: i8)
        ensures
            result as int == IntKind::I8.wrap(value as int),
    {
        proof {
            crate::truncation::lemma_as_i8(value as int);
        }
        #[verifier::truncate]
        (value as i8)
    }
}

impl IntegerEdge<i32> for i8 {
    proof fn lemma_wraps(value: i32) {
    }
}

/// `i32` to `i16`: the low 16 bits, read as signed.
impl CastFrom<i32> for i16 {
    open spec fn cast_from_spec(value: i32) -> i16 {
        IntKind::I16.wrap(value as int) as i16
    }

    fn cast_from(value: i32) -> (result: i16)
        ensures
            result as int == IntKind::I16.wrap(value as int),
    {
        proof {
            crate::truncation::lemma_as_i16(value as int);
        }
        #[verifier::truncate]
        (value as i16)
    }
}

impl IntegerEdge<i32> for i16 {
    proof fn lemma_wraps(value: i32) {
    }
}

/// `i32` to `i64`: sign-extended; the number is kept.
impl CastFrom<i32> for i64 {
    open spec fn cast_from_spec(value: i32) -> i64 {
        value as i64
    }

    fn cast_from(value: i32) -> (result: i64)
        ensures
            result as int == value as int,
    {
        value as i64
    }
}

impl IntegerEdge<i32> for i64 {
    proof fn lemma_wraps(value: i32) {
        crate::kind::lemma_wrap_fixes_range(IntKind::I64, value as int);
    }
}

/// `i32` to `i128`: sign-extended; the number is kept.
impl CastFrom<i32> for i128 {
    open spec fn cast_from_spec(value: i32) -> i128 {
        value as i128
    }

    fn cast_from(value: i32) -> (result: i128)
        ensures
            result as int == value as int,
    {
        value as i128
    }
}

impl IntegerEdge<i32> for i128 {
    proof fn lemma_wraps(value: i32) {
        crate::kind::lemma_wrap_fixes_range(IntKind::I128, value as int);
    }
}

/// `i32` to `isize`: sign-extended; the number is kept.
impl CastFrom<i32> for isize {
    open spec fn cast_from_spec(value: i32) -> isize {
        value as isize
    }

    fn cast_from(value: i32) -> (result: isize)
        ensures
            result as int == value as int,
    {
        value as isize
    }
}

impl IntegerEdge<i32> for isize {
    proof fn lemma_wraps(value: i32) {
        crate::kind::lemma_wrap_fixes_range(IntKind::Isize, value as int);
    }
}

} // verus!
