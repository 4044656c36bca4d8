//! The conversions from `u128`: into every other integer type.
use crate::cast::CastFrom;
use crate::kind::IntKind;
use crate::table::IntegerEdge;
use vstd::prelude::*;

verus! {

/// `u128` to `u8`: the low 8 bits.
impl CastFrom<u128> for u8 {
    open spec fn cast_from_spec(value: u128) -> u8 {
        IntKind::U8.wrap(value as int) as u8
    }

    fn cast_from(value: u128) -> (result: u8)
        ensures
            result as int == IntKind::U8.wrap(value as int),
    {
        proof {
            crate::truncation::lemma_as_u8(value as int);
        }
        #[verifier::truncate]
        (value as u8)
    }
}

impl IntegerEdge<u128> for u8 {
    proof fn lemma_wraps(value: u128) {
    }
}

/// `u128` to `u16`: the low 16 bits.
impl CastFrom<u128> for u16 {
    open spec fn cast_from_spec(value: u128) -> u16 {
        IntKind::U16.wrap(value as int) as u16
    }

    fn cast_from(value: u128) -> (result: u16)
        ensures
            result as int == IntKind::U16.wrap(value as int),
    {
        proof {
            crate::truncation::lemma_as_u16(value as int);
        }
        #[verifier::truncate]
        (value as u16)
    }
}

impl IntegerEdge<u128> for u16 {
    proof fn lemma_wraps(value: u128) {
    }
}

/// `u128` to `u32`: the low 32 bits.
impl CastFrom<u128> for u32 {
    open spec fn cast_from_spec(value: u128) -> u32 {
        IntKind::U32.wrap(value as int) as u32
    }

    fn cast_from(value: u128) -> (result: u32)
        ensures
            result as int == IntKind::U32.wrap(value as int),
    {
        proof {
            crate::truncation::lemma_as_u32(value as int);
        }
        #[verifier::truncate]
        (value as u32)
    }
}

impl IntegerEdge<u128> for u32 {
    proof fn lemma_wraps(value: u128) {
    }
}

/// `u128` to `u64`: the low 64 bits.
impl CastFrom<u128> for u64 {
    open spec fn cast_from_spec(value: u128) -> u64 {
        IntKind::U64.wrap(value as int) as u64
    }

    fn cast_from(value: u128) -> (result: u64)
        ensures
            result as int == IntKind::U64.wrap(value as int),
    {
        proof {
            crate::truncation::lemma_as_u64(value as int);
        }
        #[verifier::truncate]
        (value as u64)
    }
}

impl IntegerEdge<u128> for u64 {
    proof fn lemma_wraps(value: u128) {
    }
}

/// `u128` to `usize`: the low `usize::BITS` bits.
impl CastFrom<u128> for usize {
    open spec fn cast_from_spec(value: u128) -> usize {
        IntKind::Usize.wrap(value as int) as usize
    }

    fn cast_from(value: u128) -> (result: usize)
        ensures
            result as int == IntKind::Usize.wrap(value as int),
            usize::BITS == 32 ==> result as int == IntKind::U32.wrap(value as int),
            usize::BITS == 64 ==> result as int == IntKind::U64.wrap(value as int),
    {
        proof {
            crate::truncation::lemma_as_usize(value as int);
            crate::kind::lemma_pointer_sized_wrap(value as int);
        }
        #[verifier::truncate]
        (value as usize)
    }
}

impl IntegerEdge<u128> for usize {
    proof fn lemma_wraps(value: u128) {
    }
}

/// `u128` to `i8`: the low 8 bits, read as signed.
impl CastFrom<u128> for i8 {
    open spec fn cast_from_spec(value: u128) -> i8 {
        IntKind::I8.wrap(value as int) as i8
    }

    fn cast_from(value: u128) -> (result: i8)
        ensures
            result as int == IntKind::I8.wrap(value as int),
    {
        proof {
            crate::truncation::lemma_as_i8(value as int);
        }
        #[verifier::truncate]
        (value as i8)
    }
}

impl IntegerEdge<u128> for i8 {
    proof fn lemma_wraps(value: u128) {
    }
}

/// `u128` to `i16`: the low 16 bits, read as signed.
impl CastFrom<u128> for i16 {
    open spec fn cast_from_spec(value: u128) -> i16 {
        IntKind::I16.wrap(value as int) as i16
    }

    fn cast_from(value: u128) -> (result: i16)
        ensures
            result as int == IntKind::I16.wrap(value as int),
    {
        proof {
            crate::truncation::lemma_as_i16(value as int);
        }
        #[verifier::truncate]
        (value as i16)
    }
}

impl IntegerEdge<u128> for i16 {
    proof fn lemma_wraps(value: u128) {
    }
}

/// `u128` to `i32`: the low 32 bits, read as signed.
impl CastFrom<u128> for i32 {
    open spec fn cast_from_spec(value: u128) -> i32 {
        IntKind::I32.wrap(value as int) as i32
    }

    fn cast_from(value: u128) -> (result: i32)
        ensures
            result as int == IntKind::I32.wrap(value as int),
    {
        proof {
            crate::truncation::lemma_as_i32(value as int);
        }
        #[verifier::truncate]
        (value as i32)
    }
}

impl IntegerEdge<u128> for i32 {
    proof fn lemma_wraps(value: u128) {
    }
}

/// `u128` to `i64`: the low 64 bits, read as signed.
impl CastFrom<u128> for i64 {
    open spec fn cast_from_spec(value: u128) -> i64 {
        IntKind::I64.wrap(value as int) as i64
    }

    fn cast_from(value: u128) -> (result: i64)
        ensures
            result as int == IntKind::I64.wrap(value as int),
    {
        proof {
            crate::truncation::lemma_as_i64(value as int);
        }
        #[verifier::truncate]
        (value as i64)
    }
}

impl IntegerEdge<u128> for i64 {
    proof fn lemma_wraps(value: u128) {
    }
}

/// `u128` to `i128`: the same 128 bits, read as signed.
impl CastFrom<u128> for i128 {
    open spec fn cast_from_spec(value: u128) -> i128 {
        IntKind::I128.wrap(value as int) as i128
    }

    fn cast_from(value: u128) -> (result: i128)
        ensures
            result as int == IntKind::I128.wrap(value as int),
    {
        proof {
            crate::truncation::lemma_as_i128(value as int);
        }
        #[verifier::truncate]
        (value as i128)
    }
}

impl IntegerEdge<u128> for i128 {
    proof fn lemma_wraps(value: u128) {
    }
}

/// `u128` to `isize`: the low `isize::BITS` bits, read as signed.
impl CastFrom<u128> for isize {
    open spec fn cast_from_spec(value: u128) -> isize {
        IntKind::Isize.wrap(value as int) as isize
    }

    fn cast_from(value: u128) -> (result: isize)
        ensures
            result as int == IntKind::Isize.wrap(value as int),
            usize::BITS == 32 ==> result as int == IntKind::I32.wrap(value as int),
            usize::BITS == 64 ==> result as int == IntKind::I64.wrap(value as int),
    {
        proof {
            crate::truncation::lemma_as_isize(value as int);
            crate::kind::lemma_pointer_sized_wrap(value as int);
        }
        #[verifier::truncate]
        (value as isize)
    }
}

impl IntegerEdge<u128> for isize {
    proof fn lemma_wraps(value: u128) {
    }
}

} // verus!
