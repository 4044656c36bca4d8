//! The twelve integer kinds and the one rule by which a number enters a kind.
//!
//! A kind is a width and a signedness. A number that lies in the kind's range
//! enters it unchanged; any other number is replaced by the one number in the
//! range that has the same low-order bits in two's complement, which is the
//! number congruent to it modulo two to the power of the width.
//! [`IntKind::wrap`] is that rule, and the lemmas below are what the rest of
//! the crate knows about it.
use vstd::prelude::*;

verus! {

/// An integer kind: one of Rust's twelve primitive integer types, as data.
#[derive(Clone, Copy, Debug, PartialEq, Eq)]
pub enum IntKind {
    /// The kind of `u8`.
    U8,
    /// The kind of `u16`.
    U16,
    /// The kind of `u32`.
    U32,
    /// The kind of `u64`.
    U64,
    /// The kind of `u128`.
    U128,
    /// The kind of `usize`.
    Usize,
    /// The kind of `i8`.
    I8,
    /// The kind of `i16`.
    I16,
    /// The kind of `i32`.
    I32,
    /// The kind of `i64`.
    I64,
    /// The kind of `i128`.
    I128,
    /// The kind of `isize`.
    Isize,
}

impl IntKind {
    /// Whether the kind has a sign bit.
    pub open spec fn is_signed(self) -> bool {
        match self {
            IntKind::I8 | IntKind::I16 | IntKind::I32 | IntKind::I64 | IntKind::I128
            | IntKind::Isize => true,
            _ => false,
        }
    }

    /// The width in bits. The pointer-sized kinds are as wide as the target's
    /// `usize`.
    pub open spec fn bits(self) -> nat {
        match self {
            IntKind::U8 | IntKind::I8 => 8,
            IntKind::U16 | IntKind::I16 => 16,
            IntKind::U32 | IntKind::I32 => 32,
            IntKind::U64 | IntKind::I64 => 64,
            IntKind::U128 | IntKind::I128 => 128,
            IntKind::Usize | IntKind::Isize => usize::BITS as nat,
        }
    }

    /// The number of bit patterns of the kind, two to the power of
    /// [`bits`](Self::bits) (see [`lemma_modulus_is_power_of_two`]).
    #[verifier::inline]
    pub open spec fn modulus(self) -> int {
        match self {
            IntKind::U8 | IntKind::I8 => 0x100,
            IntKind::U16 | IntKind::I16 => 0x1_0000,
            IntKind::U32 | IntKind::I32 => 0x1_0000_0000,
            IntKind::U64 | IntKind::I64 => 0x1_0000_0000_0000_0000,
            IntKind::U128 | IntKind::I128 => 0x1_0000_0000_0000_0000_0000_0000_0000_0000int,
            IntKind::Usize | IntKind::Isize => usize::MAX + 1,
        }
    }

    /// The least number of the kind.
    pub open spec fn min_value(self) -> int {
        if self.is_signed() {
            -(self.modulus() / 2)
        } else {
            0
        }
    }

    /// The greatest number of the kind.
    pub open spec fn max_value(self) -> int {
        if self.is_signed() {
            self.modulus() / 2 - 1
        } else {
            self.modulus() - 1
        }
    }

    /// Whether `v` is a number of the kind.
    pub open spec fn contains(self, v: int) -> bool {
        self.min_value() <= v <= self.max_value()
    }

    /// Whether every number of the kind is a number of `other` too, so that
    /// going from the kind to `other` loses nothing.
    pub open spec fn embeds_in(self, other: IntKind) -> bool {
        other.min_value() <= self.min_value() && self.max_value() <= other.max_value()
    }

    /// The number of the kind that `v` becomes: `v` modulo
    /// [`modulus`](Self::modulus), read with the kind's signedness. For an
    /// unsigned kind that is the remainder itself; for a signed kind a
    /// remainder with the top bit set stands for the negative number one
    /// modulus below it.
    pub open spec fn wrap(self, v: int) -> int {
        let low: int = v % self.modulus();
        if low > self.max_value() {
            low - self.modulus()
        } else {
            low
        }
    }
}

/// The modulus of a kind is two to the power of its width.
pub proof fn lemma_modulus_is_power_of_two(kind: IntKind)
    ensures
        kind.modulus() == vstd::arithmetic::power2::pow2(kind.bits()),
{
    vstd::arithmetic::power2::lemma2_to64();
    vstd::arithmetic::power2::lemma2_to64_rest();
    vstd::arithmetic::power2::lemma_pow2_adds(64, 64);
}

/// The pointer-sized kinds wrap as the kinds of 32 bits do on a target with
/// pointers of 32 bits, and as the kinds of 64 bits do on one with pointers
/// of 64 bits.
pub proof fn lemma_pointer_sized_wrap(v: int)
    ensures
        usize::BITS == 32 ==> IntKind::Usize.wrap(v) == IntKind::U32.wrap(v),
        usize::BITS == 32 ==> IntKind::Isize.wrap(v) == IntKind::I32.wrap(v),
        usize::BITS == 64 ==> IntKind::Usize.wrap(v) == IntKind::U64.wrap(v),
        usize::BITS == 64 ==> IntKind::Isize.wrap(v) == IntKind::I64.wrap(v),
        usize::BITS == 32 || usize::BITS == 64,
{
}

/// Two numbers that are congruent and less than a modulus apart are equal.
proof fn lemma_congruent_and_close(a: int, b: int, m: int)
    requires
        m > 0,
        a % m == b % m,
        -m < a - b < m,
    ensures
        a == b,
{
    vstd::arithmetic::div_mod::lemma_fundamental_div_mod(a, m);
    vstd::arithmetic::div_mod::lemma_fundamental_div_mod(b, m);
    let k: int = a / m - b / m;
    assert(a - b == m * k) by (nonlinear_arith)
        requires
            a == m * (a / m) + a % m,
            b == m * (b / m) + b % m,
            a % m == b % m,
            k == a / m - b / m,
    ;
    assert(k == 0) by (nonlinear_arith)
        requires
            m > 0,
            -m < m * k < m,
    ;
}

/// The modulus of a kind is a multiple of the modulus of any kind that is no
/// wider.
proof fn lemma_modulus_divides(narrow: IntKind, wide: IntKind) -> (factor: int)
    requires
        narrow.bits() <= wide.bits(),
    ensures
        factor > 0,
        wide.modulus() == narrow.modulus() * factor,
{
    let extra: nat = (wide.bits() - narrow.bits()) as nat;
    lemma_modulus_is_power_of_two(narrow);
    lemma_modulus_is_power_of_two(wide);
    vstd::arithmetic::power2::lemma_pow2_adds(narrow.bits(), extra);
    vstd::arithmetic::power2::lemma_pow2_pos(extra);
    vstd::arithmetic::power2::pow2(extra) as int
}

/// Wrapping always lands in the kind.
pub proof fn lemma_wrap_in_range(kind: IntKind, v: int)
    ensures
        kind.contains(kind.wrap(v)),
{
}

/// Wrapping moves a number by a whole multiple of the modulus: the result has
/// the same low-order bits as `v`.
pub proof fn lemma_wrap_is_congruent(kind: IntKind, v: int)
    ensures
        kind.wrap(v) % kind.modulus() == v % kind.modulus(),
        (kind.wrap(v) - v) % kind.modulus() == 0,
{
    let m: int = kind.modulus();
    vstd::arithmetic::div_mod::lemma_mod_twice(v, m);
    vstd::arithmetic::div_mod::lemma_mod_sub_multiples_vanish(v % m, m);
    vstd::arithmetic::div_mod::lemma_mod_equivalence(kind.wrap(v), v, m);
}

/// The wrapped number is the only number of the kind that is congruent to `v`.
pub proof fn lemma_wrap_is_unique(kind: IntKind, v: int, r: int)
    requires
        kind.contains(r),
        r % kind.modulus() == v % kind.modulus(),
    ensures
        r == kind.wrap(v),
{
    lemma_wrap_in_range(kind, v);
    lemma_wrap_is_congruent(kind, v);
    lemma_congruent_and_close(r, kind.wrap(v), kind.modulus());
}

/// Wrapping leaves exactly the numbers of the kind unchanged.
pub proof fn lemma_wrap_fixes_range(kind: IntKind, v: int)
    ensures
        kind.wrap(v) == v <==> kind.contains(v),
{
    lemma_wrap_in_range(kind, v);
    if kind.contains(v) {
        lemma_wrap_is_unique(kind, v, v);
    }
}

/// Wrapping into a kind sees only the low-order bits, so wrapping first into
/// a kind that is at least as wide changes nothing.
pub proof fn lemma_wrap_absorbs(narrow: IntKind, wide: IntKind, v: int)
    requires
        narrow.bits() <= wide.bits(),
    ensures
        narrow.wrap(wide.wrap(v)) == narrow.wrap(v),
{
    let factor: int = lemma_modulus_divides(narrow, wide);
    let w: int = wide.wrap(v);
    lemma_wrap_is_congruent(wide, v);
    vstd::arithmetic::div_mod::lemma_mod_mod(w, narrow.modulus(), factor);
    vstd::arithmetic::div_mod::lemma_mod_mod(v, narrow.modulus(), factor);
    assert(w % narrow.modulus() == v % narrow.modulus());
    lemma_wrap_in_range(narrow, w);
    lemma_wrap_is_congruent(narrow, w);
    lemma_wrap_is_unique(narrow, v, narrow.wrap(w));
}

/// A number of a kind survives the way into a kind that holds all its numbers
/// and back.
pub proof fn lemma_wrap_round_trip(narrow: IntKind, wide: IntKind, v: int)
    requires
        narrow.contains(v),
        narrow.embeds_in(wide),
    ensures
        wide.wrap(v) == v,
        narrow.wrap(wide.wrap(v)) == v,
{
    lemma_wrap_fixes_range(wide, v);
    lemma_wrap_fixes_range(narrow, v);
}

} // verus!
