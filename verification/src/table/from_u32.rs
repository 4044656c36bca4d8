//! The conversions from `u32`: into every other integer type.
use crate::cast::CastFrom;
use crate::kind::IntKind;
use crate::table::IntegerEdge;
use vstd::prelude::*;

verus! {

/// `u32` to `u8`: the low 8 bits.
impl CastFrom<u32> for u8 {
    open spec fn cast_from_spec(value: u32) -> u8 {
        IntKind::U8.wrap(value as int) as u8
    }

    fn cast_from(value: u32) -> (result: u8)
        ensures
            result as int == IntKind::U8.wrap(value as int),
    {
        proof {
            crate::truncation::lemma_as_u8(value as int);
        }
        #[verifier::truncate]
        (value as u8)
    }
}

impl IntegerEdge<u32> for u8 {
    proof fn lemma_wraps(value: u32) {
    }
}

/// `u32` to `u16`: the low 16 bits.
impl CastFrom<u32> for u16 {
    open spec fn cast_from_spec(value: u32) -> u16 {
        IntKind::U16.wrap(value as int) as u16
    }

    fn cast_from(value: u32) -> (result: u16)
        ensures
            result as int == IntKind::U16.wrap(value as int),
    {
        proof {
            crate::truncation::lemma_as_u16(value as int);
        }
        #[verifier::truncate]
        (value as u16)
    }
}

impl IntegerEdge<u32> for u16 {
    proof fn lemma_wraps(value: u32) {
    }
}

/// `u32` to `u64`: zero-extended; the number is kept.
impl CastFrom<u32> for u64 {
    open spec fn cast_from_spec(value: u32) -> u64 {
        value as u64
    }

    fn cast_from(value: u32) -> (result: u64)
        ensures
            result as int == value as int,
    {
        value as u64
    }
}

impl IntegerEdge<u32> for u64 {
    proof fn lemma_wraps(value: u32) {
        crate::kind::lemma_wrap_fixes_range(IntKind::U64, value as int);
    }
}

/// `u32` to `u128`: zero-extended; the number is kept.
impl CastFrom<u32> for u128 {
    open spec fn cast_from_spec(value: u32) -> u128 {
        value as u128
    }

    fn cast_from(value: u32) -> (result: u128)
        ensures
            result as int == value as int,
    {
        value as u128
    }
}

impl IntegerEdge<u32> for u128 {
    proof fn lemma_wraps(value: u32) {
        crate::kind::lemma_wrap_fixes_range(IntKind::U128, value as int);
    }
}

/// `u32` to `usize`: zero-extended; the number is kept.
impl CastFrom<u32> for usize {
    open spec fn cast_from_spec(value: u32) -> usize {
        value as usize
    }

    fn cast_from(value: u32) -> (result: usize)
        ensures
            result as int == value as int,
    {
        value as usize
    }
}

impl IntegerEdge<u32> for usize {
    proof fn lemma_wraps(value: u32) {
        crate::kind::lemma_wrap_fixes_range(IntKind::Usize, value as int);
    }
}

/// `u32` to `i8`: the low 8 bits, read as signed.
impl CastFrom<u32> for i8 {
    open spec fn cast_from_spec(value: u32) -> i8 {
        IntKind::I8.wrap(value as int) as i8
    }

    fn cast_from(value: u32) -> (result: i8)
        ensures
            result as int == IntKind::I8.wrap(value as int),
    {
        proof {
            crate::truncation::lemma_as_i8(value as int);
        }
        #[verifier::truncate]
        (value as i8)
    }
}

impl IntegerEdge<u32> for i8 {
    proof fn lemma_wraps(value: u32) {
    }
}

/// `u32` to `i16`: the low 16 bits, read as signed.
impl CastFrom<u32> for i16 {
    open spec fn cast_from_spec(value: u32) -> i16 {
        IntKind::I16.wrap(value as int) as i16
    }

    fn cast_from(value: u32) -> (result: i16)
        ensures
            result as int == IntKind::I16.wrap(value as int),
    {
        proof {
            crate::truncation::lemma_as_i16(value as int);
        }
        #[verifier::truncate]
        (value as i16)
    }
}

impl IntegerEdge<u32> for i16 {
    proof fn lemma_wraps(value: u32) {
    }
}

/// `u32` to `i32`: the same 32 bits, read as signed.
impl CastFrom<u32> for i32 {
    open spec fn cast_from_spec(value: u32) -> i32 {
        IntKind::I32.wrap(value as int) as i32
    }

    fn cast_from(value: u32) -> (result: i32)
        ensures
            result as int == IntKind::I32.wrap(value as int),
    {
        proof {
            crate::truncation::lemma_as_i32(value as int);
        }
        #[verifier::truncate]
        (value as i32)
    }
}

impl IntegerEdge<u32> for i32 {
    proof fn lemma_wraps(value: u32) {
    }
}

/// `u32` to `i64`: zero-extended; the number is kept.
impl CastFrom<u32> for i64 {
    open spec fn cast_from_spec(value: u32) -> i64 {
        value as i64
    }

    fn cast_from(value: u32) -> (result: i64)
        ensures
            result as int == value as int,
    {
        value as i64
    }
}

impl IntegerEdge<u32> for i64 {
    proof fn lemma_wraps(value: u32) {
        crate::kind::lemma_wrap_fixes_range(IntKind::I64, value as int);
    }
}

/// `u32` to `i128`: zero-extended; the number is kept.
impl CastFrom<u32> for i128 {
    open spec fn cast_from_spec(value: u32) -> i128 {
        value as i128
    }

    fn cast_from(value: u32) -> (result: i128)
        ensures
            result as int == value as int,
    {
        value as i128
    }
}

impl IntegerEdge<u32> for i128 {
    proof fn lemma_wraps(value: u32) {
        crate::kind::lemma_wrap_fixes_range(IntKind::I128, value as int);
    }
}

/// `u32` to `isize`: the low `isize::BITS` bits, read as signed.
impl CastFrom<u32> for isize {
    open spec fn cast_from_spec(value: u32) -> isize {
        IntKind::Isize.wrap(value as int) as isize
    }

    fn cast_from(value: u32) -> (result: isize)
        ensures
            result as int == IntKind::Isize.wrap(value as int),
            usize::BITS == 32 ==> result as int == IntKind::I32.wrap(value as int),
            usize::BITS == 64 ==> result as int == IntKind::I64.wrap(value as int),
    {
        proof {
            crate::truncation::lemma_as_isize(value as int);
            crate::kind::lemma_pointer_sized_wrap(value as int);
        }
        #[verifier::truncate]
        (value as isize)
    }
}

impl IntegerEdge<u32> for isize {
    proof fn lemma_wraps(value: u32) {
    }
}

} // verus!
