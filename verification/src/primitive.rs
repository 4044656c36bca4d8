//! The primitives as numbers.
//!
//! Every `bool`, `char` and primitive integer stands for a number, and a
//! conversion between two of them is a statement about those numbers.
//! [`Numbered`] gives the number; [`PrimitiveInteger`] adds, for the twelve
//! integer types, the [`IntKind`] whose numbers they are.
use crate::kind::IntKind;
use vstd::prelude::*;

verus! {

/// A type each of whose values stands for an integer.
pub trait Numbered: Sized {
    /// The number that `self` stands for: 0 or 1 for a `bool`, the code point
    /// for a `char`, the value itself for an integer.
    spec fn value(self) -> int;
}

/// A primitive integer type: its values are exactly the numbers of one
/// [`IntKind`].
pub trait PrimitiveInteger: Numbered {
    /// The kind of the type.
    spec fn kind() -> IntKind;

    /// Every value is a number of the kind.
    proof fn lemma_value_in_kind(self)
        ensures
            Self::kind().contains(self.value()),
    ;

    /// Two values with the same number are the same value.
    proof fn lemma_value_is_injective(a: Self, b: Self)
        requires
            a.value() == b.value(),
        ensures
            a == b,
    ;
}

impl Numbered for bool {
    open spec fn value(self) -> int {
        if self {
            1
        } else {
            0
        }
    }
}

impl Numbered for char {
    open spec fn value(self) -> int {
        self as int
    }
}

impl Numbered for u8 {
    open spec fn value(self) -> int {
        self as int
    }
}

impl PrimitiveInteger for u8 {
    open spec fn kind() -> IntKind {
        IntKind::U8
    }

    proof fn lemma_value_in_kind(self) {
    }

    proof fn lemma_value_is_injective(a: Self, b: Self) {
    }
}

impl Numbered for u16 {
    open spec fn value(self) -> int {
        self as int
    }
}

impl PrimitiveInteger for u16 {
    open spec fn kind() -> IntKind {
        IntKind::U16
    }

    proof fn lemma_value_in_kind(self) {
    }

    proof fn lemma_value_is_injective(a: Self, b: Self) {
    }
}

impl Numbered for u32 {
    open spec fn value(self) -> int {
        self as int
    }
}

impl PrimitiveInteger for u32 {
    open spec fn kind() -> IntKind {
        IntKind::U32
    }

    proof fn lemma_value_in_kind(self) {
    }

    proof fn lemma_value_is_injective(a: Self, b: Self) {
    }
}

impl Numbered for u64 {
    open spec fn value(self) -> int {
        self as int
    }
}

impl PrimitiveInteger for u64 {
    open spec fn kind() -> IntKind {
        IntKind::U64
    }

    proof fn lemma_value_in_kind(self) {
    }

    proof fn lemma_value_is_injective(a: Self, b: Self) {
    }
}

impl Numbered for u128 {
    open spec fn value(self) -> int {
        self as int
    }
}

impl PrimitiveInteger for u128 {
    open spec fn kind() -> IntKind {
        IntKind::U128
    }

    proof fn lemma_value_in_kind(self) {
    }

    proof fn lemma_value_is_injective(a: Self, b: Self) {
    }
}

impl Numbered for usize {
    open spec fn value(self) -> int {
        self as int
    }
}

impl PrimitiveInteger for usize {
    open spec fn kind() -> IntKind {
        IntKind::Usize
    }

    proof fn lemma_value_in_kind(self) {
    }

    proof fn lemma_value_is_injective(a: Self, b: Self) {
    }
}

impl Numbered for i8 {
    open spec fn value(self) -> int {
        self as int
    }
}

impl PrimitiveInteger for i8 {
    open spec fn kind() -> IntKind {
        IntKind::I8
    }

    proof fn lemma_value_in_kind(self) {
    }

    proof fn lemma_value_is_injective(a: Self, b: Self) {
    }
}

impl Numbered for i16 {
    open spec fn value(self) -> int {
        self as int
    }
}

impl PrimitiveInteger for i16 {
    open spec fn kind() -> IntKind {
        IntKind::I16
    }

    proof fn lemma_value_in_kind(self) {
    }

    proof fn lemma_value_is_injective(a: Self, b: Self) {
    }
}

impl Numbered for i32 {
    open spec fn value(self) -> int {
        self as int
    }
}

impl PrimitiveInteger for i32 {
    open spec fn kind() -> IntKind {
        IntKind::I32
    }

    proof fn lemma_value_in_kind(self) {
    }

    proof fn lemma_value_is_injective(a: Self, b: Self) {
    }
}

impl Numbered for i64 {
    open spec fn value(self) -> int {
        self as int
    }
}

impl PrimitiveInteger for i64 {
    open spec fn kind() -> IntKind {
        IntKind::I64
    }

    proof fn lemma_value_in_kind(self) {
    }

    proof fn lemma_value_is_injective(a: Self, b: Self) {
    }
}

impl Numbered for i128 {
    open spec fn value(self) -> int {
        self as int
    }
}

impl PrimitiveInteger for i128 {
    open spec fn kind() -> IntKind {
        IntKind::I128
    }

    proof fn lemma_value_in_kind(self) {
    }

    proof fn lemma_value_is_injective(a: Self, b: Self) {
    }
}

impl Numbered for isize {
    open spec fn value(self) -> int {
        self as int
    }
}

impl PrimitiveInteger for isize {
    open spec fn kind() -> IntKind {
        IntKind::Isize
    }

    proof fn lemma_value_in_kind(self) {
    }

    proof fn lemma_value_is_injective(a: Self, b: Self) {
    }
}

/// The number of a `char` is a Unicode scalar value: a code point that is no
/// surrogate.
pub proof fn lemma_char_is_scalar(c: char)
    ensures
        0 <= c.value() <= 0x10FFFF,
        !(0xD800 <= c.value() <= 0xDFFF),
{
}

} // verus!
