use casting::{CastFrom, CastInto};

/// Numbers spread over all of `i128`, with the edges of every width among
/// them.
fn spread() -> Vec<i128> {
    let mut numbers: Vec<i128> = vec![0, 1, -1, 0x41, -0x41, i128::MIN, i128::MAX];
    let mut edge: i128 = 1;
    for _ in 0..126 {
        edge *= 2;
        numbers.push(edge - 1);
        numbers.push(edge);
        numbers.push(edge + 1);
        numbers.push(-edge - 1);
        numbers.push(-edge);
        numbers.push(-edge + 1);
    }
    let mut walk: i128 = 0x0123_4567_89AB_CDEF_0F1E_2D3C_4B5A_6978;
    for _ in 0..200 {
        walk = walk.wrapping_mul(0x5851_F42D_4C95_7F2D).wrapping_add(0x1405_7B7E_F767_814F);
        numbers.push(walk);
    }
    numbers
}

/// The number in `min..=max` that differs from `number` by a multiple of the
/// size of that range.
fn wrapped(number: i128, min: i128, max: i128) -> i128 {
    let size = max - min + 1;
    let low = number.rem_euclid(size);
    if low > max {
        low - size
    } else {
        low
    }
}

#[test]
fn identity_holds_for_every_byte() {
    for value in 0..=u8::MAX {
        assert_eq!(u8::cast_from(value), value);
        let into: u8 = value.cast_into();
        assert_eq!(into, value);
    }
    for value in i8::MIN..=i8::MAX {
        assert_eq!(i8::cast_from(value), value);
    }
}

#[test]
fn identity_holds_at_the_extremes_of_every_type() {
    assert_eq!(u16::cast_from(u16::MAX), u16::MAX);
    assert_eq!(u32::cast_from(u32::MAX), u32::MAX);
    assert_eq!(u64::cast_from(u64::MAX), u64::MAX);
    assert_eq!(u128::cast_from(u128::MAX), u128::MAX);
    assert_eq!(usize::cast_from(usize::MAX), usize::MAX);
    assert_eq!(i16::cast_from(i16::MIN), i16::MIN);
    assert_eq!(i32::cast_from(i32::MIN), i32::MIN);
    assert_eq!(i64::cast_from(i64::MIN), i64::MIN);
    assert_eq!(i128::cast_from(i128::MIN), i128::MIN);
    assert_eq!(isize::cast_from(isize::MIN), isize::MIN);
}

#[test]
fn into_agrees_with_from() {
    for number in spread() {
        let a: u8 = number.cast_into();
        assert_eq!(a, u8::cast_from(number));
        let b: i16 = number.cast_into();
        assert_eq!(b, i16::cast_from(number));
        let c: u64 = number.cast_into();
        assert_eq!(c, u64::cast_from(number));
        let d: isize = number.cast_into();
        assert_eq!(d, isize::cast_from(number));
        let e: u128 = number.cast_into();
        assert_eq!(e, u128::cast_from(number));
    }
    let f: i32 = true.cast_into();
    assert_eq!(f, i32::cast_from(true));
    let g: u16 = '\u{20AC}'.cast_into();
    assert_eq!(g, u16::cast_from('\u{20AC}'));
    let h: char = 0xE9u8.cast_into();
    assert_eq!(h, char::cast_from(0xE9u8));
}

#[test]
fn every_u8_survives_every_wider_type() {
    for value in 0..=u8::MAX {
        assert_eq!(u8::cast_from(u16::cast_from(value)), value);
        assert_eq!(u8::cast_from(u32::cast_from(value)), value);
        assert_eq!(u8::cast_from(u64::cast_from(value)), value);
        assert_eq!(u8::cast_from(u128::cast_from(value)), value);
        assert_eq!(u8::cast_from(usize::cast_from(value)), value);
        assert_eq!(u8::cast_from(i16::cast_from(value)), value);
        assert_eq!(u8::cast_from(i32::cast_from(value)), value);
        assert_eq!(u8::cast_from(i64::cast_from(value)), value);
        assert_eq!(u8::cast_from(i128::cast_from(value)), value);
        assert_eq!(u8::cast_from(isize::cast_from(value)), value);
    }
}

#[test]
fn every_i8_survives_every_wider_type() {
    for value in i8::MIN..=i8::MAX {
        assert_eq!(i8::cast_from(i16::cast_from(value)), value);
        assert_eq!(i8::cast_from(i32::cast_from(value)), value);
        assert_eq!(i8::cast_from(i64::cast_from(value)), value);
        assert_eq!(i8::cast_from(i128::cast_from(value)), value);
        assert_eq!(i8::cast_from(isize::cast_from(value)), value);
    }
}

#[test]
fn every_u16_and_i16_survives_every_wider_type() {
    for value in 0..=u16::MAX {
        assert_eq!(u16::cast_from(u32::cast_from(value)), value);
        assert_eq!(u16::cast_from(u64::cast_from(value)), value);
        assert_eq!(u16::cast_from(u128::cast_from(value)), value);
        assert_eq!(u16::cast_from(usize::cast_from(value)), value);
        assert_eq!(u16::cast_from(i32::cast_from(value)), value);
        assert_eq!(u16::cast_from(i64::cast_from(value)), value);
        assert_eq!(u16::cast_from(i128::cast_from(value)), value);
        assert_eq!(u16::cast_from(isize::cast_from(value)), value);
    }
    for value in i16::MIN..=i16::MAX {
        assert_eq!(i16::cast_from(i32::cast_from(value)), value);
        assert_eq!(i16::cast_from(i64::cast_from(value)), value);
        assert_eq!(i16::cast_from(i128::cast_from(value)), value);
        assert_eq!(i16::cast_from(isize::cast_from(value)), value);
    }
}

#[test]
fn wide_values_survive_the_widest_types() {
    for number in spread() {
        let as_i64 = i64::cast_from(number);
        assert_eq!(i64::cast_from(i128::cast_from(as_i64)), as_i64);
        let as_u64 = u64::cast_from(number);
        assert_eq!(u64::cast_from(u128::cast_from(as_u64)), as_u64);
        assert_eq!(u64::cast_from(i128::cast_from(as_u64)), as_u64);
        let as_u32 = u32::cast_from(number);
        assert_eq!(u32::cast_from(i64::cast_from(as_u32)), as_u32);
        assert_eq!(u32::cast_from(usize::cast_from(as_u32)), as_u32);
        let as_isize = isize::cast_from(number);
        assert_eq!(isize::cast_from(i64::cast_from(as_isize)), as_isize);
        let as_usize = usize::cast_from(number);
        assert_eq!(usize::cast_from(u64::cast_from(as_usize)), as_usize);
    }
}

#[test]
fn bits_survive_a_change_of_sign() {
    for value in i8::MIN..=i8::MAX {
        assert_eq!(i8::cast_from(u8::cast_from(value)), value);
        assert_eq!(i8::cast_from(u16::cast_from(value)), value);
        assert_eq!(i8::cast_from(u128::cast_from(value)), value);
        assert_eq!(i8::cast_from(usize::cast_from(value)), value);
    }
    for value in 0..=u8::MAX {
        assert_eq!(u8::cast_from(i8::cast_from(value)), value);
    }
    for number in spread() {
        assert_eq!(i128::cast_from(u128::cast_from(number)), number);
        let unsigned = u64::cast_from(number);
        assert_eq!(u64::cast_from(i64::cast_from(unsigned)), unsigned);
    }
}

#[test]
fn narrowing_is_the_remainder_read_with_the_sign() {
    for number in spread() {
        assert_eq!(i128::from(u8::cast_from(number)), wrapped(number, 0, 0xFF));
        assert_eq!(i128::from(u16::cast_from(number)), wrapped(number, 0, 0xFFFF));
        assert_eq!(i128::from(u32::cast_from(number)), wrapped(number, 0, 0xFFFF_FFFF));
        assert_eq!(
            i128::from(u64::cast_from(number)),
            wrapped(number, 0, 0xFFFF_FFFF_FFFF_FFFF)
        );
        assert_eq!(i128::from(i8::cast_from(number)), wrapped(number, -0x80, 0x7F));
        assert_eq!(i128::from(i16::cast_from(number)), wrapped(number, -0x8000, 0x7FFF));
        assert_eq!(
            i128::from(i32::cast_from(number)),
            wrapped(number, -0x8000_0000, 0x7FFF_FFFF)
        );
        assert_eq!(
            i128::from(i64::cast_from(number)),
            wrapped(number, -0x8000_0000_0000_0000, 0x7FFF_FFFF_FFFF_FFFF)
        );
    }
}

#[test]
fn narrowing_every_u16_is_the_remainder() {
    for value in 0..=u16::MAX {
        assert_eq!(u16::from(u8::cast_from(value)), value % 256);
        let signed = i8::cast_from(value);
        let low = i32::from(value % 256);
        assert_eq!(i32::from(signed), if low < 128 { low } else { low - 256 });
    }
}

#[test]
fn the_number_is_kept_exactly_when_it_fits() {
    for number in spread() {
        let fits_u8 = 0 <= number && number <= 0xFF;
        assert_eq!(i128::from(u8::cast_from(number)) == number, fits_u8);
        let fits_i16 = -0x8000 <= number && number <= 0x7FFF;
        assert_eq!(i128::from(i16::cast_from(number)) == number, fits_i16);
        let fits_u64 = 0 <= number && number <= 0xFFFF_FFFF_FFFF_FFFF;
        assert_eq!(i128::from(u64::cast_from(number)) == number, fits_u64);
        let fits_i64 = -0x8000_0000_0000_0000 <= number && number <= 0x7FFF_FFFF_FFFF_FFFF;
        assert_eq!(i128::from(i64::cast_from(number)) == number, fits_i64);
    }
}

#[test]
fn narrowing_in_two_steps_is_narrowing_in_one() {
    for number in spread() {
        assert_eq!(u8::cast_from(u64::cast_from(number)), u8::cast_from(number));
        assert_eq!(u8::cast_from(i32::cast_from(number)), u8::cast_from(number));
        assert_eq!(i8::cast_from(u16::cast_from(number)), i8::cast_from(number));
        assert_eq!(i16::cast_from(i64::cast_from(number)), i16::cast_from(number));
        assert_eq!(u32::cast_from(usize::cast_from(number)), u32::cast_from(number));
        assert_eq!(i32::cast_from(u128::cast_from(number)), i32::cast_from(number));
        assert_eq!(u16::cast_from(isize::cast_from(number)), u16::cast_from(number));
    }
}

#[test]
fn widening_first_changes_the_result_where_the_sign_is_read() {
    // Widening reads the sign of the narrow type: -1i8 is 0xFF as a u8, and
    // 0xFFFF as a u16, so the two ways to a u16 differ.
    assert_eq!(u16::cast_from(-1i8), 0xFFFFu16);
    assert_eq!(u16::cast_from(u8::cast_from(-1i8)), 0x00FFu16);
}
