//! What Rust's `as` does to a number that goes into an integer type.
//!
//! The verifier knows that `as` keeps a number that fits, and no more. The
//! lemmas here add the rest, once for each target type: for every number that
//! any primitive can hold, the cast gives what [`IntKind::wrap`] gives. Each
//! is proved by bit-level reasoning on the two widest types, which hold every
//! such number between them.
use crate::kind::IntKind;
use vstd::prelude::*;

verus! {

/// Whether `v` is a number that some primitive integer holds: it fits `i128`
/// or `u128`.
pub open spec fn is_primitive_number(v: int) -> bool {
    i128::MIN <= v <= u128::MAX
}

/// `as u8` wraps into [`IntKind::U8`].
pub proof fn lemma_as_u8(v: int)
    requires
        is_primitive_number(v),
    ensures
        (v as u8) as int == IntKind::U8.wrap(v),
{
    if v >= 0 {
        let x: u128 = v as u128;
        assert(x as u8 == x % 0x100) by (bit_vector);
    } else {
        let x: i128 = v as i128;
        assert(x as u8 == x % 0x100) by (bit_vector);
    }
}

/// `as u16` wraps into [`IntKind::U16`].
pub proof fn lemma_as_u16(v: int)
    requires
        is_primitive_number(v),
    ensures
        (v as u16) as int == IntKind::U16.wrap(v),
{
    if v >= 0 {
        let x: u128 = v as u128;
        assert(x as u16 == x % 0x1_0000) by (bit_vector);
    } else {
        let x: i128 = v as i128;
        assert(x as u16 == x % 0x1_0000) by (bit_vector);
    }
}

/// `as u32` wraps into [`IntKind::U32`].
pub proof fn lemma_as_u32(v: int)
    requires
        is_primitive_number(v),
    ensures
        (v as u32) as int == IntKind::U32.wrap(v),
{
    if v >= 0 {
        let x: u128 = v as u128;
        assert(x as u32 == x % 0x1_0000_0000) by (bit_vector);
    } else {
        let x: i128 = v as i128;
        assert(x as u32 == x % 0x1_0000_0000) by (bit_vector);
    }
}

/// `as u64` wraps into [`IntKind::U64`].
pub proof fn lemma_as_u64(v: int)
    requires
        is_primitive_number(v),
    ensures
        (v as u64) as int == IntKind::U64.wrap(v),
{
    if v >= 0 {
        let x: u128 = v as u128;
        assert(x as u64 == x % 0x1_0000_0000_0000_0000) by (bit_vector);
    } else {
        let x: i128 = v as i128;
        assert(x as u64 == x % 0x1_0000_0000_0000_0000) by (bit_vector);
    }
}

/// `as u128` wraps into [`IntKind::U128`].
pub proof fn lemma_as_u128(v: int)
    requires
        is_primitive_number(v),
    ensures
        (v as u128) as int == IntKind::U128.wrap(v),
{
    let modulus: int = IntKind::U128.modulus();
    if v < 0 {
        let x: i128 = v as i128;
        assert(x < 0 ==> x as u128 == x + 0x1_0000_0000_0000_0000_0000_0000_0000_0000int)
            by (bit_vector);
        vstd::arithmetic::div_mod::lemma_mod_add_multiples_vanish(v, modulus);
        crate::kind::lemma_wrap_is_unique(IntKind::U128, v, v + modulus);
    } else {
        crate::kind::lemma_wrap_fixes_range(IntKind::U128, v);
    }
}

/// `as i8` wraps into [`IntKind::I8`].
pub proof fn lemma_as_i8(v: int)
    requires
        is_primitive_number(v),
    ensures
        (v as i8) as int == IntKind::I8.wrap(v),
{
    if v >= 0 {
        let x: u128 = v as u128;
        assert(x % 0x100 < 0x80 ==> x as i8 == x % 0x100) by (bit_vector);
        assert(x % 0x100 >= 0x80 ==> (x as i8) + 0x100 == x % 0x100)
            by (bit_vector);
    } else {
        let x: i128 = v as i128;
        assert(x % 0x100 < 0x80 ==> x as i8 == x % 0x100) by (bit_vector);
        assert(x % 0x100 >= 0x80 ==> (x as i8) + 0x100 == x % 0x100)
            by (bit_vector);
    }
}

/// `as i16` wraps into [`IntKind::I16`].
pub proof fn lemma_as_i16(v: int)
    requires
        is_primitive_number(v),
    ensures
        (v as i16) as int == IntKind::I16.wrap(v),
{
    if v >= 0 {
        let x: u128 = v as u128;
        assert(x % 0x1_0000 < 0x8000 ==> x as i16 == x % 0x1_0000) by (bit_vector);
        assert(x % 0x1_0000 >= 0x8000 ==> (x as i16) + 0x1_0000 == x % 0x1_0000)
            by (bit_vector);
    } else {
        let x: i128 = v as i128;
        assert(x % 0x1_0000 < 0x8000 ==> x as i16 == x % 0x1_0000) by (bit_vector);
        assert(x % 0x1_0000 >= 0x8000 ==> (x as i16) + 0x1_0000 == x % 0x1_0000)
            by (bit_vector);
    }
}

/// `as i32` wraps into [`IntKind::I32`].
pub proof fn lemma_as_i32(v: int)
    requires
        is_primitive_number(v),
    ensures
        (v as i32) as int == IntKind::I32.wrap(v),
{
    if v >= 0 {
        let x: u128 = v as u128;
        assert(x % 0x1_0000_0000 < 0x8000_0000 ==> x as i32 == x % 0x1_0000_0000) by (bit_vector);
        assert(x % 0x1_0000_0000 >= 0x8000_0000 ==> (x as i32) + 0x1_0000_0000 == x % 0x1_0000_0000)
            by (bit_vector);
    } else {
        let x: i128 = v as i128;
        assert(x % 0x1_0000_0000 < 0x8000_0000 ==> x as i32 == x % 0x1_0000_0000) by (bit_vector);
        assert(x % 0x1_0000_0000 >= 0x8000_0000 ==> (x as i32) + 0x1_0000_0000 == x % 0x1_0000_0000)
            by (bit_vector);
    }
}

/// `as i64` wraps into [`IntKind::I64`].
pub proof fn lemma_as_i64(v: int)
    requires
        is_primitive_number(v),
    ensures
        (v as i64) as int == IntKind::I64.wrap(v),
{
    if v >= 0 {
        let x: u128 = v as u128;
        assert(x % 0x1_0000_0000_0000_0000 < 0x8000_0000_0000_0000 ==>
            x as i64 == x % 0x1_0000_0000_0000_0000) by (bit_vector);
        assert(x % 0x1_0000_0000_0000_0000 >= 0x8000_0000_0000_0000 ==>
            (x as i64) + 0x1_0000_0000_0000_0000 == x % 0x1_0000_0000_0000_0000)
            by (bit_vector);
    } else {
        let x: i128 = v as i128;
        assert(x % 0x1_0000_0000_0000_0000 < 0x8000_0000_0000_0000 ==>
            x as i64 == x % 0x1_0000_0000_0000_0000) by (bit_vector);
        assert(x % 0x1_0000_0000_0000_0000 >= 0x8000_0000_0000_0000 ==>
            (x as i64) + 0x1_0000_0000_0000_0000 == x % 0x1_0000_0000_0000_0000)
            by (bit_vector);
    }
}

/// `as i128` wraps into [`IntKind::I128`].
pub proof fn lemma_as_i128(v: int)
    requires
        is_primitive_number(v),
    ensures
        (v as i128) as int == IntKind::I128.wrap(v),
{
    let modulus: int = IntKind::I128.modulus();
    if v > i128::MAX {
        let x: u128 = v as u128;
        assert(x >= 0x8000_0000_0000_0000_0000_0000_0000_0000 ==> (x as i128)
            + 0x1_0000_0000_0000_0000_0000_0000_0000_0000int == x) by (bit_vector);
        vstd::arithmetic::div_mod::lemma_mod_sub_multiples_vanish(v, modulus);
        crate::kind::lemma_wrap_is_unique(IntKind::I128, v, v - modulus);
    } else {
        crate::kind::lemma_wrap_fixes_range(IntKind::I128, v);
    }
}

/// `as usize` wraps into [`IntKind::Usize`], whichever width the target has.
pub proof fn lemma_as_usize(v: int)
    requires
        is_primitive_number(v),
    ensures
        (v as usize) as int == IntKind::Usize.wrap(v),
{
    if usize::BITS == 32 {
        lemma_as_u32(v);
        assert(v as usize == v as u32);
    } else {
        lemma_as_u64(v);
        assert(v as usize == v as u64);
    }
}

/// `as isize` wraps into [`IntKind::Isize`], whichever width the target has.
pub proof fn lemma_as_isize(v: int)
    requires
        is_primitive_number(v),
    ensures
        (v as isize) as int == IntKind::Isize.wrap(v),
{
    if usize::BITS == 32 {
        lemma_as_i32(v);
        assert(v as isize == v as i32);
    } else {
        lemma_as_i64(v);
        assert(v as isize == v as i64);
    }
}

} // verus!
