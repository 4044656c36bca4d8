//! The conversions from `bool`: into every integer type, as 0 or 1.
use crate::cast::CastFrom;
use crate::kind::IntKind;
use crate::table::IntegerEdge;
use vstd::prelude::*;

verus! {

/// `bool` to `u8`: 0 for `false`, 1 for `true`.
impl CastFrom<bool> for u8 {
    open spec fn cast_from_spec(value: bool) -> u8 {
        if value {
            1
        } else {
            0
        }
    }

    fn cast_from(value: bool) -> (result: u8)
        ensures
            value ==> result == 1,
            !value ==> result == 0,
    {
        value as u8
    }
}

impl IntegerEdge<bool> for u8 {
    proof fn lemma_wraps(value: bool) {
        crate::kind::lemma_wrap_fixes_range(IntKind::U8, if value { 1 } else { 0 });
    }
}

/// `bool` to `u16`: 0 for `false`, 1 for `true`.
impl CastFrom<bool> for u16 {
    open spec fn cast_from_spec(value: bool) -> u16 {
        if value {
            1
        } else {
            0
        }
    }

    fn cast_from(value: bool) -> (result: u16)
        ensures
            value ==> result == 1,
            !value ==> result == 0,
    {
        value as u16
    }
}

impl IntegerEdge<bool> for u16 {
    proof fn lemma_wraps(value: bool) {
        crate::kind::lemma_wrap_fixes_range(IntKind::U16, if value { 1 } else { 0 });
    }
}

/// `bool` to `u32`: 0 for `false`, 1 for `true`.
impl CastFrom<bool> for u32 {
    open spec fn cast_from_spec(value: bool) -> u32 {
        if value {
            1
        } else {
            0
        }
    }

    fn cast_from(value: bool) -> (result: u32)
        ensures
            value ==> result == 1,
            !value ==> result == 0,
    {
        value as u32
    }
}

impl IntegerEdge<bool> for u32 {
    proof fn lemma_wraps(value: bool) {
        crate::kind::lemma_wrap_fixes_range(IntKind::U32, if value { 1 } else { 0 });
    }
}

/// `bool` to `u64`: 0 for `false`, 1 for `true`.
impl CastFrom<bool> for u64 {
    open spec fn cast_from_spec(value: bool) -> u64 {
        if value {
            1
        } else {
            0
        }
    }

    fn cast_from(value: bool) -> (result: u64)
        ensures
            value ==> result == 1,
            !value ==> result == 0,
    {
        value as u64
    }
}

impl IntegerEdge<bool> for u64 {
    proof fn lemma_wraps(value: bool) {
        crate::kind::lemma_wrap_fixes_range(IntKind::U64, if value { 1 } else { 0 });
    }
}

/// `bool` to `u128`: 0 for `false`, 1 for `true`.
impl CastFrom<bool> for u128 {
    open spec fn cast_from_spec(value: bool) -> u128 {
        if value {
            1
        } else {
            0
        }
    }

    fn cast_from(value: bool) -> (result: u128)
        ensures
            value ==> result == 1,
            !value ==> result == 0,
    {
        value as u128
    }
}

impl IntegerEdge<bool> for u128 {
    proof fn lemma_wraps(value: bool) {
        crate::kind::lemma_wrap_fixes_range(IntKind::U128, if value { 1 } else { 0 });
    }
}

/// `bool` to `usize`: 0 for `false`, 1 for `true`.
impl CastFrom<bool> for usize {
    open spec fn cast_from_spec(value: bool) -> usize {
        if value {
            1
        } else {
            0
        }
    }

    fn cast_from(value: bool) -> (result: usize)
        ensures
            value ==> result == 1,
            !value ==> result == 0,
    {
        value as usize
    }
}

impl IntegerEdge<bool> for usize {
    proof fn lemma_wraps(value: bool) {
        crate::kind::lemma_wrap_fixes_range(IntKind::Usize, if value { 1 } else { 0 });
    }
}

/// `bool` to `i8`: 0 for `false`, 1 for `true`.
impl CastFrom<bool> for i8 {
    open spec fn cast_from_spec(value: bool) -> i8 {
        if value {
            1
        } else {
            0
        }
    }

    fn cast_from(value: bool) -> (result: i8)
        ensures
            value ==> result == 1,
            !value ==> result == 0,
    {
        value as i8
    }
}

impl IntegerEdge<bool> for i8 {
    proof fn lemma_wraps(value: bool) {
        crate::kind::lemma_wrap_fixes_range(IntKind::I8, if value { 1 } else { 0 });
    }
}

/// `bool` to `i16`: 0 for `false`, 1 for `true`.
impl CastFrom<bool> for i16 {
    open spec fn cast_from_spec(value: bool) -> i16 {
        if value {
            1
        } else {
            0
        }
    }

    fn cast_from(value: bool) -> (result: i16)
        ensures
            value ==> result == 1,
            !value ==> result == 0,
    {
        value as i16
    }
}

impl IntegerEdge<bool> for i16 {
    proof fn lemma_wraps(value: bool) {
        crate::kind::lemma_wrap_fixes_range(IntKind::I16, if value { 1 } else { 0 });
    }
}

/// `bool` to `i32`: 0 for `false`, 1 for `true`.
impl CastFrom<bool> for i32 {
    open spec fn cast_from_spec(value: bool) -> i32 {
        if value {
            1
        } else {
            0
        }
    }

    fn cast_from(value: bool) -> (result: i32)
        ensures
            value ==> result == 1,
            !value ==> result == 0,
    {
        value as i32
    }
}

impl IntegerEdge<bool> for i32 {
    proof fn lemma_wraps(value: bool) {
        crate::kind::lemma_wrap_fixes_range(IntKind::I32, if value { 1 } else { 0 });
    }
}

/// `bool` to `i64`: 0 for `false`, 1 for `true`.
impl CastFrom<bool> for i64 {
    open spec fn cast_from_spec(value: bool) -> i64 {
        if value {
            1
        } else {
            0
        }
    }

    fn cast_from(value: bool) -> (result: i64)
        ensures
            value ==> result == 1,
            !value ==> result == 0,
    {
        value as i64
    }
}

impl IntegerEdge<bool> for i64 {
    proof fn lemma_wraps(value: bool) {
        crate::kind::lemma_wrap_fixes_range(IntKind::I64, if value { 1 } else { 0 });
    }
}

/// `bool` to `i128`: 0 for `false`, 1 for `true`.
impl CastFrom<bool> for i128 {
    open spec fn cast_from_spec(value: bool) -> i128 {
        if value {
            1
        } else {
            0
        }
    }

    fn cast_from(value: bool) -> (result: i128)
        ensures
            value ==> result == 1,
            !value ==> result == 0,
    {
        value as i128
    }
}

impl IntegerEdge<bool> for i128 {
    proof fn lemma_wraps(value: bool) {
        crate::kind::lemma_wrap_fixes_range(IntKind::I128, if value { 1 } else { 0 });
    }
}

/// `bool` to `isize`: 0 for `false`, 1 for `true`.
impl CastFrom<bool> for isize {
    open spec fn cast_from_spec(value: bool) -> isize {
        if value {
            1
        } else {
            0
        }
    }

    fn cast_from(value: bool) -> (result: isize)
        ensures
            value ==> result == 1,
            !value ==> result == 0,
    {
        value as isize
    }
}

impl IntegerEdge<bool> for isize {
    proof fn lemma_wraps(value: bool) {
        crate::kind::lemma_wrap_fixes_range(IntKind::Isize, if value { 1 } else { 0 });
    }
}

} // verus!
