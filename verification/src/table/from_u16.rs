//! The conversions from `u16`: into every other integer type.
use crate::cast::CastFrom;
use crate::kind::IntKind;
use crate::table::IntegerEdge;
use vstd::prelude::*;

verus! {

/// `u16` to `u8`: the low 8 bits.
impl CastFrom<u16> for u8 {
    open spec fn cast_from_spec(value: u16) -> u8 {
        IntKind::U8.wrap(value as int) as u8
    }

    fn cast_from(value: u16) -> (result: u8)
        ensures
            result as int == IntKind::U8.wrap(value as int),
    {
        proof {
            crate::truncation::lemma_as_u8(value as int);
        }
        #[verifier::truncate]
        (value as u8)
    }
}

impl IntegerEdge<u16> for u8 {
    proof fn lemma_wraps(value: u16) {
    }
}

/// `u16` to `u32`: zero-extended; the number is kept.
impl CastFrom<u16> for u32 {
    open spec fn cast_from_spec(value: u16) -> u32 {
        value as u32
    }

    fn cast_from(value: u16) -> (result: u32)
        ensures
            result as int == value as int,
    {
        value as u32
    }
}

impl IntegerEdge<u16> for u32 {
    proof fn lemma_wraps(value: u16) {
        crate::kind::lemma_wrap_fixes_range(IntKind::U32, value as int);
    }
}

/// `u16` to `u64`: zero-extended; the number is kept.
impl CastFrom<u16> for u64 {
    open spec fn cast_from_spec(value: u16) -> u64 {
        value as u64
    }

    fn cast_from(value: u16) -> (result: u64)
        ensures
            result as int == value as int,
    {
        value as u64
    }
}

impl IntegerEdge<u16> for u64 {
    proof fn lemma_wraps(value: u16) {
        crate::kind::lemma_wrap_fixes_range(IntKind::U64, value as int);
    }
}

/// `u16` to `u128`: zero-extended; the number is kept.
impl CastFrom<u16> for u128 {
    open spec fn cast_from_spec(value: u16) -> u128 {
        value as u128
    }

    fn cast_from(value: u16) -> (result: u128)
        ensures
            result as int == value as int,
    {
        value as u128
    }
}

impl IntegerEdge<u16> for u128 {
    proof fn lemma_wraps(value: u16) {
        crate::kind::lemma_wrap_fixes_range(IntKind::U128, value as int);
    }
}

/// `u16` to `usize`: zero-extended; the number is kept.
impl CastFrom<u16> for usize {
    open spec fn cast_from_spec(value: u16) -> usize {
        value as usize
    }

    fn cast_from(value: u16) -> (result: usize)
        ensures
            result as int == value as int,
    {
        value as usize
    }
}

impl IntegerEdge<u16> for usize {
    proof fn lemma_wraps(value: u16) {
        crate::kind::lemma_wrap_fixes_range(IntKind::Usize, value as int);
    }
}

/// `u16` to `i8`: the low 8 bits, read as signed.
impl CastFrom<u16> for i8 {
    open spec fn cast_from_spec(value: u16) -> i8 {
        IntKind::I8.wrap(value as int) as i8
    }

    fn cast_from(value: u16) -> (result: i8)
        ensures
            result as int == IntKind::I8.wrap(value as int),
    {
        proof {
            crate::truncation::lemma_as_i8(value as int);
        }
        #[verifier::truncate]
        (value as i8)
    }
}

impl IntegerEdge<u16> for i8 {
    proof fn lemma_wraps(value: u16) {
    }
}

/// `u16` to `i16`: the same 16 bits, read as signed.
impl CastFrom<u16> for i16 {
    open spec fn cast_from_spec(value: u16) -> i16 {
        IntKind::I16.wrap(value as int) as i16
    }

    fn cast_from(value: u16) -> (result: i16)
        ensures
            result as int == IntKind::I16.wrap(value as int),
    {
        proof {
            crate::truncation::lemma_as_i16(value as int);
        }
        #[verifier::truncate]
        (value as i16)
    }
}

impl IntegerEdge<u16> for i16 {
    proof fn lemma_wraps(value: u16) {
    }
}

/// `u16` to `i32`: zero-extended; the number is kept.
impl CastFrom<u16> for i32 {
    open spec fn cast_from_spec(value: u16) -> i32 {
        value as i32
    }

    fn cast_from(value: u16) -> (result: i32)
        ensures
            result as int == value as int,
    {
        value as i32
    }
}

impl IntegerEdge<u16> for i32 {
    proof fn lemma_wraps(value: u16) {
        crate::kind::lemma_wrap_fixes_range(IntKind::I32, value as int);
    }
}

/// `u16` to `i64`: zero-extended; the number is kept.
impl CastFrom<u16> for i64 {
    open spec fn cast_from_spec(value: u16) -> i64 {
        value as i64
    }

    fn cast_from(value: u16) -> (result: i64)
        ensures
            result as int == value as int,
    {
        value as i64
    }
}

impl IntegerEdge<u16> for i64 {
    proof fn lemma_wraps(value: u16) {
        crate::kind::lemma_wrap_fixes_range(IntKind::I64, value as int);
    }
}

/// `u16` to `i128`: zero-extended; the number is kept.
impl CastFrom<u16> for i128 {
    open spec fn cast_from_spec(value: u16) -> i128 {
        value as i128
    }

    fn cast_from(value: u16) -> (result: i128)
        ensures
            result as int == value as int,
    {
        value as i128
    }
}

impl IntegerEdge<u16> for i128 {
    proof fn lemma_wraps(value: u16) {
        crate::kind::lemma_wrap_fixes_range(IntKind::I128, value as int);
    }
}

/// `u16` to `isize`: zero-extended; the number is kept.
impl CastFrom<u16> for isize {
    open spec fn cast_from_spec(value: u16) -> isize {
        value as isize
    }

    fn cast_from(value: u16) -> (result: isize)
        ensures
            result as int == value as int,
    {
        value as isize
    }
}

impl IntegerEdge<u16> for isize {
    proof fn lemma_wraps(value: u16) {
        crate::kind::lemma_wrap_fixes_range(IntKind::Isize, value as int);
    }
}

} // verus!
