use casting::{CastFrom, CastInto};

#[test]
fn narrowing_wraps_at_run_time() {
    let wide: u16 = 300;
    assert_eq!(u8::cast_from(wide), 44u8);
}

#[test]
fn minus_one_has_all_bits_set() {
    assert_eq!(u8::cast_from(-1i8), 255u8);
    assert_eq!(u16::cast_from(-1i8), 0xFFFFu16);
    assert_eq!(u128::cast_from(-1i8), u128::MAX);
    assert_eq!(usize::cast_from(-1i8), usize::MAX);
}

#[test]
fn true_is_one() {
    assert_eq!(u8::cast_from(true), 1u8);
    assert_eq!(u8::cast_from(false), 0u8);
}

#[test]
fn letter_a_is_65() {
    assert_eq!(u32::cast_from('A'), 65u32);
}

#[test]
fn same_type_is_identity() {
    assert_eq!(u8::cast_from(200u8), 200u8);
}

#[test]
fn into_names_only_the_target() {
    let narrow: u8 = 300u16.cast_into();
    assert_eq!(narrow, 44u8);
    let unsigned: u8 = (-1i8).cast_into();
    assert_eq!(unsigned, 255u8);
    let code: u32 = 'A'.cast_into();
    assert_eq!(code, 65u32);
    let same: u8 = 200u8.cast_into();
    assert_eq!(same, 200u8);
}

#[test]
fn sign_bit_decides_same_width_reinterpretation() {
    assert_eq!(i8::cast_from(127u8), 127i8);
    assert_eq!(i8::cast_from(128u8), -128i8);
    assert_eq!(u8::cast_from(-128i8), 128u8);
    assert_eq!(i64::cast_from(u64::MAX), -1i64);
    assert_eq!(u64::cast_from(i64::MIN), 0x8000_0000_0000_0000u64);
}

#[test]
fn extremes_survive_widening() {
    assert_eq!(i128::cast_from(i8::MIN), -128i128);
    assert_eq!(i128::cast_from(i64::MIN), -0x8000_0000_0000_0000i128);
    assert_eq!(i128::cast_from(u64::MAX), 0xFFFF_FFFF_FFFF_FFFFi128);
    assert_eq!(u128::cast_from(u64::MAX), 0xFFFF_FFFF_FFFF_FFFFu128);
}

#[test]
fn extremes_wrap_on_narrowing() {
    assert_eq!(i8::cast_from(i128::MIN), 0i8);
    assert_eq!(i8::cast_from(i128::MAX), -1i8);
    assert_eq!(u8::cast_from(u128::MAX), 255u8);
    assert_eq!(i16::cast_from(0x8000u32), i16::MIN);
    assert_eq!(i16::cast_from(0x7FFFu32), i16::MAX);
}
