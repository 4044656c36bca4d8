//! The conversions from `char`: into every integer type, as the code point.
//!
//! A code point has 21 bits, so the types of 32 bits and more hold it and
//! those of 8 and 16 bits keep its low bits.
use crate::cast::CastFrom;
use crate::kind::IntKind;
use crate::table::IntegerEdge;
use vstd::prelude::*;

verus! {

/// `char` to `u8`: the low 8 bits of the code point.
impl CastFrom<char> for u8 {
    open spec fn cast_from_spec(value: char) -> u8 {
        IntKind::U8.wrap(value as int) as u8
    }

    fn cast_from(value: char) -> (result: u8)
        ensures
            result as int == IntKind::U8.wrap(value as int),
    {
        proof {
            crate::primitive::lemma_char_is_scalar(value);
            crate::truncation::lemma_as_u8(value as int);
        }
        #[verifier::truncate]
        (value as u8)
    }
}

impl IntegerEdge<char> for u8 {
    proof fn lemma_wraps(value: char) {
    }
}

/// `char` to `u16`: the low 16 bits of the code point.
impl CastFrom<char> for u16 {
    open spec fn cast_from_spec(value: char) -> u16 {
        IntKind::U16.wrap(value as int) as u16
    }

    fn cast_from(value: char) -> (result: u16)
        ensures
            result as int == IntKind::U16.wrap(value as int),
    {
        proof {
            crate::primitive::lemma_char_is_scalar(value);
            crate::truncation::lemma_as_u16(value as int);
        }
        #[verifier::truncate]
        (value as u16)
    }
}

impl IntegerEdge<char> for u16 {
    proof fn lemma_wraps(value: char) {
    }
}

/// `char` to `u32`: the code point.
impl CastFrom<char> for u32 {
    open spec fn cast_from_spec(value: char) -> u32 {
        value as u32
    }

    fn cast_from(value: char) -> (result: u32)
        ensures
            result as int == value as int,
    {
        proof {
            crate::primitive::lemma_char_is_scalar(value);
        }
        value as u32
    }
}

impl IntegerEdge<char> for u32 {
    proof fn lemma_wraps(value: char) {
        crate::primitive::lemma_char_is_scalar(value);
        crate::kind::lemma_wrap_fixes_range(IntKind::U32, value as int);
    }
}

/// `char` to `u64`: the code point.
impl CastFrom<char> for u64 {
    open spec fn cast_from_spec(value: char) -> u64 {
        value as u64
    }

    fn cast_from(value: char) -> (result: u64)
        ensures
            result as int == value as int,
    {
        proof {
            crate::primitive::lemma_char_is_scalar(value);
        }
        value as u64
    }
}

impl IntegerEdge<char> for u64 {
    proof fn lemma_wraps(value: char) {
        crate::primitive::lemma_char_is_scalar(value);
        crate::kind::lemma_wrap_fixes_range(IntKind::U64, value as int);
    }
}

/// `char` to `u128`: the code point.
impl CastFrom<char> for u128 {
    open spec fn cast_from_spec(value: char) -> u128 {
        value as u128
    }

    fn cast_from(value: char) -> (result: u128)
        ensures
            result as int == value as int,
    {
        proof {
            crate::primitive::lemma_char_is_scalar(value);
        }
        value as u128
    }
}

impl IntegerEdge<char> for u128 {
    proof fn lemma_wraps(value: char) {
        crate::primitive::lemma_char_is_scalar(value);
        crate::kind::lemma_wrap_fixes_range(IntKind::U128, value as int);
    }
}

/// `char` to `usize`: the code point.
impl CastFrom<char> for usize {
    open spec fn cast_from_spec(value: char) -> usize {
        value as usize
    }

    fn cast_from(value: char) -> (result: usize)
        ensures
            result as int == value as int,
    {
        proof {
            crate::primitive::lemma_char_is_scalar(value);
        }
        value as usize
    }
}

impl IntegerEdge<char> for usize {
    proof fn lemma_wraps(value: char) {
        crate::primitive::lemma_char_is_scalar(value);
        crate::kind::lemma_wrap_fixes_range(IntKind::Usize, value as int);
    }
}

/// `char` to `i8`: the low 8 bits of the code point, read as signed.
impl CastFrom<char> for i8 {
    open spec fn cast_from_spec(value: char) -> i8 {
        IntKind::I8.wrap(value as int) as i8
    }

    fn cast_from(value: char) -> (result: i8)
        ensures
            result as int == IntKind::I8.wrap(value as int),
    {
        proof {
            crate::primitive::lemma_char_is_scalar(value);
            crate::truncation::lemma_as_i8(value as int);
        }
        #[verifier::truncate]
        (value as i8)
    }
}

impl IntegerEdge<char> for i8 {
    proof fn lemma_wraps(value: char) {
    }
}

/// `char` to `i16`: the low 16 bits of the code point, read as signed.
impl CastFrom<char> for i16 {
    open spec fn cast_from_spec(value: char) -> i16 {
        IntKind::I16.wrap(value as int) as i16
    }

    fn cast_from(value: char) -> (result: i16)
        ensures
            result as int == IntKind::I16.wrap(value as int),
    {
        proof {
            crate::primitive::lemma_char_is_scalar(value);
            crate::truncation::lemma_as_i16(value as int);
        }
        #[verifier::truncate]
        (value as i16)
    }
}

impl IntegerEdge<char> for i16 {
    proof fn lemma_wraps(value: char) {
    }
}

/// `char` to `i32`: the code point.
impl CastFrom<char> for i32 {
    open spec fn cast_from_spec(value: char) -> i32 {
        value as i32
    }

    fn cast_from(value: char) -> (result: i32)
        ensures
            result as int == value as int,
    {
        proof {
            crate::primitive::lemma_char_is_scalar(value);
        }
        value as i32
    }
}

impl IntegerEdge<char> for i32 {
    proof fn lemma_wraps(value: char) {
        crate::primitive::lemma_char_is_scalar(value);
        crate::kind::lemma_wrap_fixes_range(IntKind::I32, value as int);
    }
}

/// `char` to `i64`: the code point.
impl CastFrom<char> for i64 {
    open spec fn cast_from_spec(value: char) -> i64 {
        value as i64
    }

    fn cast_from(value: char) -> (result: i64)
        ensures
            result as int == value as int,
    {
        proof {
            crate::primitive::lemma_char_is_scalar(value);
        }
        value as i64
    }
}

impl IntegerEdge<char> for i64 {
    proof fn lemma_wraps(value: char) {
        crate::primitive::lemma_char_is_scalar(value);
        crate::kind::lemma_wrap_fixes_range(IntKind::I64, value as int);
    }
}

/// `char` to `i128`: the code point.
impl CastFrom<char> for i128 {
    open spec fn cast_from_spec(value: char) -> i128 {
        value as i128
    }

    fn cast_from(value: char) -> (result: i128)
        ensures
            result as int == value as int,
    {
        proof {
            crate::primitive::lemma_char_is_scalar(value);
        }
        value as i128
    }
}

impl IntegerEdge<char> for i128 {
    proof fn lemma_wraps(value: char) {
        crate::primitive::lemma_char_is_scalar(value);
        crate::kind::lemma_wrap_fixes_range(IntKind::I128, value as int);
    }
}

/// `char` to `isize`: the code point.
impl CastFrom<char> for isize {
    open spec fn cast_from_spec(value: char) -> isize {
        value as isize
    }

    fn cast_from(value: char) -> (result: isize)
        ensures
            result as int == value as int,
    {
        proof {
            crate::primitive::lemma_char_is_scalar(value);
        }
        value as isize
    }
}

impl IntegerEdge<char> for isize {
    proof fn lemma_wraps(value: char) {
        crate::primitive::lemma_char_is_scalar(value);
        crate::kind::lemma_wrap_fixes_range(IntKind::Isize, value as int);
    }
}

} // verus!
