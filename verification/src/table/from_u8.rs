//! The conversions from `u8`: into every other integer type and into `char`.
use crate::cast::CastFrom;
use crate::kind::IntKind;
use crate::table::IntegerEdge;
use vstd::prelude::*;

verus! {

/// `u8` to `u16`: zero-extended; the number is kept.
impl CastFrom<u8> for u16 {
    open spec fn cast_from_spec(value: u8) -> u16 {
        value as u16
    }

    fn cast_from(value: u8) -> (result: u16)
        ensures
            result as int == value as int,
    {
        value as u16
    }
}

impl IntegerEdge<u8> for u16 {
    proof fn lemma_wraps(value: u8) {
        crate::kind::lemma_wrap_fixes_range(IntKind::U16, value as int);
    }
}

/// `u8` to `u32`: zero-extended; the number is kept.
impl CastFrom<u8> for u32 {
    open spec fn cast_from_spec(value: u8) -> u32 {
        value as u32
    }

    fn cast_from(value: u8) -> (result: u32)
        ensures
            result as int == value as int,
    {
        value as u32
    }
}

impl IntegerEdge<u8> for u32 {
    proof fn lemma_wraps(value: u8) {
        crate::kind::lemma_wrap_fixes_range(IntKind::U32, value as int);
    }
}

/// `u8` to `u64`: zero-extended; the number is kept.
impl CastFrom<u8> for u64 {
    open spec fn cast_from_spec(value: u8) -> u64 {
        value as u64
    }

    fn cast_from(value: u8) -> (result: u64)
        ensures
            result as int == value as int,
    {
        value as u64
    }
}

impl IntegerEdge<u8> for u64 {
    proof fn lemma_wraps(value: u8) {
        crate::kind::lemma_wrap_fixes_range(IntKind::U64, value as int);
    }
}

/// `u8` to `u128`: zero-extended; the number is kept.
impl CastFrom<u8> for u128 {
    open spec fn cast_from_spec(value: u8) -> u128 {
        value as u128
    }

    fn cast_from(value: u8) -> (result: u128)
        ensures
            result as int == value as int,
    {
        value as u128
    }
}

impl IntegerEdge<u8> for u128 {
    proof fn lemma_wraps(value: u8) {
        crate::kind::lemma_wrap_fixes_range(IntKind::U128, value as int);
    }
}

/// `u8` to `usize`: zero-extended; the number is kept.
impl CastFrom<u8> for usize {
    open spec fn cast_from_spec(value: u8) -> usize {
        value as usize
    }

    fn cast_from(value: u8) -> (result: usize)
        ensures
            result as int == value as int,
    {
        value as usize
    }
}

impl IntegerEdge<u8> for usize {
    proof fn lemma_wraps(value: u8) {
        crate::kind::lemma_wrap_fixes_range(IntKind::Usize, value as int);
    }
}

/// `u8` to `i8`: the same 8 bits, read as signed.
impl CastFrom<u8> for i8 {
    open spec fn cast_from_spec(value: u8) -> i8 {
        IntKind::I8.wrap(value as int) as i8
    }

    fn cast_from(value: u8) -> (result: i8)
        ensures
            result as int == IntKind::I8.wrap(value as int),
    {
        proof {
            crate::truncation::lemma_as_i8(value as int);
        }
        #[verifier::truncate]
        (value as i8)
    }
}

impl IntegerEdge<u8> for i8 {
    proof fn lemma_wraps(value: u8) {
    }
}

/// `u8` to `i16`: zero-extended; the number is kept.
impl CastFrom<u8> for i16 {
    open spec fn cast_from_spec(value: u8) -> i16 {
        value as i16
    }

    fn cast_from(value: u8) -> (result: i16)
        ensures
            result as int == value as int,
    {
        value as i16
    }
}

impl IntegerEdge<u8> for i16 {
    proof fn lemma_wraps(value: u8) {
        crate::kind::lemma_wrap_fixes_range(IntKind::I16, value as int);
    }
}

/// `u8` to `i32`: zero-extended; the number is kept.
impl CastFrom<u8> for i32 {
    open spec fn cast_from_spec(value: u8) -> i32 {
        value as i32
    }

    fn cast_from(value: u8) -> (result: i32)
        ensures
            result as int == value as int,
    {
        value as i32
    }
}

impl IntegerEdge<u8> for i32 {
    proof fn lemma_wraps(value: u8) {
        crate::kind::lemma_wrap_fixes_range(IntKind::I32, value as int);
    }
}

/// `u8` to `i64`: zero-extended; the number is kept.
impl CastFrom<u8> for i64 {
    open spec fn cast_from_spec(value: u8) -> i64 {
        value as i64
    }

    fn cast_from(value: u8) -> (result: i64)
        ensures
            result as int == value as int,
    {
        value as i64
    }
}

impl IntegerEdge<u8> for i64 {
    proof fn lemma_wraps(value: u8) {
        crate::kind::lemma_wrap_fixes_range(IntKind::I64, value as int);
    }
}

/// `u8` to `i128`: zero-extended; the number is kept.
impl CastFrom<u8> for i128 {
    open spec fn cast_from_spec(value: u8) -> i128 {
        value as i128
    }

    fn cast_from(value: u8) -> (result: i128)
        ensures
            result as int == value as int,
    {
        value as i128
    }
}

impl IntegerEdge<u8> for i128 {
    proof fn lemma_wraps(value: u8) {
        crate::kind::lemma_wrap_fixes_range(IntKind::I128, value as int);
    }
}

/// `u8` to `isize`: zero-extended; the number is kept.
impl CastFrom<u8> for isize {
    open spec fn cast_from_spec(value: u8) -> isize {
        value as isize
    }

    fn cast_from(value: u8) -> (result: isize)
        ensures
            result as int == value as int,
    {
        value as isize
    }
}

impl IntegerEdge<u8> for isize {
    proof fn lemma_wraps(value: u8) {
        crate::kind::lemma_wrap_fixes_range(IntKind::Isize, value as int);
    }
}

/// `u8` to `char`: the character with that code point; every `u8` is one.
impl CastFrom<u8> for char {
    open spec fn cast_from_spec(value: u8) -> char {
        value as char
    }

    fn cast_from(value: u8) -> (result: char)
        ensures
            result as int == value as int,
    {
        value as char
    }
}

} // verus!
