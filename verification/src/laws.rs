//! What holds of the conversions, for every type and every value.
//!
//! Each law is stated over `cast_from_spec` and `cast_into_spec`, the
//! functions that `cast_from` and `cast_into` are proved to compute, so each
//! is a statement about what the conversions return.
use crate::cast::{CastFrom, CastInto};
use crate::primitive::{Numbered, PrimitiveInteger};
use crate::table::IntegerEdge;
use vstd::prelude::*;

verus! {

/// Identity: a value converted to its own type is the same value.
pub proof fn lemma_identity<T>(value: T)
    ensures
        <T as CastFrom<T>>::cast_from_spec(value) == value,
        <T as CastInto<T>>::cast_into_spec(value) == value,
{
}

/// Mirror: wherever `U` converts from `T`, converting a `T` into `U` gives
/// what converting from it gives.
pub proof fn lemma_into_mirrors_from<T, U: CastFrom<T>>(value: T)
    ensures
        <T as CastInto<U>>::cast_into_spec(value) == <U as CastFrom<T>>::cast_from_spec(value),
{
}

/// Truncation: a conversion into an integer type gives the number of the
/// target's kind that is congruent to the source's number modulo two to the
/// power of the target's width. That is the source's low-order bits, as many
/// as the target has, read with the target's signedness.
pub proof fn lemma_integer_edge_truncates<T: Numbered, U: IntegerEdge<T>>(value: T)
    ensures
        ({
            let number: int = <U as CastFrom<T>>::cast_from_spec(value).value();
            let modulus: int = vstd::arithmetic::power2::pow2(U::kind().bits()) as int;
            &&& U::kind().contains(number)
            &&& number % modulus == value.value() % modulus
            &&& number == U::kind().wrap(value.value())
        }),
{
    U::lemma_wraps(value);
    crate::kind::lemma_modulus_is_power_of_two(U::kind());
    crate::kind::lemma_wrap_in_range(U::kind(), value.value());
    crate::kind::lemma_wrap_is_congruent(U::kind(), value.value());
}

/// Loss: a conversion into an integer type keeps the number exactly when the
/// number is one of the target's kind.
pub proof fn lemma_number_kept_iff_in_range<T: Numbered, U: IntegerEdge<T>>(value: T)
    ensures
        <U as CastFrom<T>>::cast_from_spec(value).value() == value.value() <==> U::kind().contains(
            value.value(),
        ),
{
    U::lemma_wraps(value);
    crate::kind::lemma_wrap_fixes_range(U::kind(), value.value());
}

/// Widening: where the target's kind holds every number of the source's kind,
/// the conversion keeps the number, whatever the value.
pub proof fn lemma_widening_keeps_number<T: PrimitiveInteger, U: IntegerEdge<T>>(value: T)
    requires
        T::kind().embeds_in(U::kind()),
    ensures
        <U as CastFrom<T>>::cast_from_spec(value).value() == value.value(),
{
    value.lemma_value_in_kind();
    lemma_number_kept_iff_in_range::<T, U>(value);
}

/// Round trip: widening loses nothing, so widening and then narrowing back
/// gives the value back.
pub proof fn lemma_round_trip<A, B>(value: A) where
    A: IntegerEdge<B>,
    B: IntegerEdge<A>,

    requires
        A::kind().embeds_in(B::kind()),
    ensures
        <B as CastFrom<A>>::cast_from_spec(value).value() == value.value(),
        <A as CastFrom<B>>::cast_from_spec(<B as CastFrom<A>>::cast_from_spec(value)) == value,
{
    lemma_widening_keeps_number::<A, B>(value);
    lemma_bits_round_trip::<A, B>(value);
}

/// Round trip of the bits: going to a type that is at least as wide and back
/// gives the value back, also where the number in between is another, as on
/// the way from `i8` to `u8` or to `u16`.
pub proof fn lemma_bits_round_trip<A, B>(value: A) where
    A: IntegerEdge<B>,
    B: IntegerEdge<A>,

    requires
        A::kind().bits() <= B::kind().bits(),
    ensures
        <A as CastFrom<B>>::cast_from_spec(<B as CastFrom<A>>::cast_from_spec(value)) == value,
{
    let there: B = <B as CastFrom<A>>::cast_from_spec(value);
    let back: A = <A as CastFrom<B>>::cast_from_spec(there);
    <B as IntegerEdge<A>>::lemma_wraps(value);
    <A as IntegerEdge<B>>::lemma_wraps(there);
    crate::kind::lemma_wrap_absorbs(A::kind(), B::kind(), value.value());
    value.lemma_value_in_kind();
    crate::kind::lemma_wrap_fixes_range(A::kind(), value.value());
    A::lemma_value_is_injective(back, value);
}

/// Composition: narrowing in two steps gives what narrowing in one step
/// gives, as long as the type in between is at least as wide as the last.
pub proof fn lemma_narrowing_composes<A, B, C>(value: A) where
    A: Numbered,
    B: IntegerEdge<A>,
    C: IntegerEdge<A> + IntegerEdge<B>,

    requires
        C::kind().bits() <= B::kind().bits(),
    ensures
        <C as CastFrom<B>>::cast_from_spec(<B as CastFrom<A>>::cast_from_spec(value))
            == <C as CastFrom<A>>::cast_from_spec(value),
{
    let middle: B = <B as CastFrom<A>>::cast_from_spec(value);
    let two_steps: C = <C as CastFrom<B>>::cast_from_spec(middle);
    let one_step: C = <C as CastFrom<A>>::cast_from_spec(value);
    <B as IntegerEdge<A>>::lemma_wraps(value);
    <C as IntegerEdge<B>>::lemma_wraps(middle);
    <C as IntegerEdge<A>>::lemma_wraps(value);
    crate::kind::lemma_wrap_absorbs(C::kind(), B::kind(), value.value());
    C::lemma_value_is_injective(two_steps, one_step);
}

/// A `bool` becomes 0 or 1 in every integer type.
pub proof fn lemma_bool_is_zero_or_one<U: IntegerEdge<bool>>(value: bool)
    ensures
        <U as CastFrom<bool>>::cast_from_spec(value).value() == (if value {
            1int
        } else {
            0int
        }),
{
    lemma_number_kept_iff_in_range::<bool, U>(value);
}

/// A `char` becomes its code point in every integer type of 32 bits or more.
pub proof fn lemma_char_is_code_point<U: IntegerEdge<char>>(value: char)
    requires
        U::kind().bits() >= 32,
    ensures
        <U as CastFrom<char>>::cast_from_spec(value).value() == value as int,
{
    crate::primitive::lemma_char_is_scalar(value);
    lemma_number_kept_iff_in_range::<char, U>(value);
}

/// Every `u8` is the code point of a `char`, and the way there and back gives
/// the `u8` back.
pub proof fn lemma_byte_char_round_trip(value: u8)
    ensures
        <char as CastFrom<u8>>::cast_from_spec(value) as int == value as int,
        <u8 as CastFrom<char>>::cast_from_spec(<char as CastFrom<u8>>::cast_from_spec(value))
            == value,
{
}

} // verus!
