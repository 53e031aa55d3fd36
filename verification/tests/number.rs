use rdp_session::number::{
    hundredfold_rounded, line_units, pixel_units, power_of_two, scale_coordinate, scale_percent,
    whole_part_capped, Binary32, Binary64, Decoded,
};

fn single(value: f32) -> Binary32 {
    Binary32 { bits: value.to_bits() }
}

fn double(value: f64) -> Binary64 {
    Binary64 { bits: value.to_bits() }
}

/// A sequence of encodings that wanders over all exponents and fractions.
fn scramble(state: &mut u64) -> u64 {
    *state = state.wrapping_mul(6364136223846793005).wrapping_add(1442695040888963407);
    *state ^ (*state >> 29)
}

fn singles() -> Vec<f32> {
    let mut values = vec![
        0.0,
        -0.0,
        0.001,
        -0.001,
        0.0010000001,
        -0.0010000001,
        0.00099999994,
        0.01,
        0.29,
        0.57,
        1.0,
        -1.0,
        1.15,
        2.5,
        -2.5,
        3.0,
        15.0,
        120.0,
        -120.0,
        327.67,
        327.675,
        327.68,
        -327.68,
        -327.69,
        1e10,
        -1e10,
        f32::MAX,
        f32::MIN,
        f32::MIN_POSITIVE,
        f32::EPSILON,
        f32::INFINITY,
        f32::NEG_INFINITY,
        f32::NAN,
    ];
    let mut step = 0.0f32;
    while step < 400.0 {
        values.push(step);
        values.push(-step);
        step += 0.013;
    }
    let mut state = 7u64;
    for _ in 0..20000 {
        values.push(f32::from_bits(scramble(&mut state) as u32));
    }
    // Around the epsilon, one encoding after the other.
    for bits in 0x3A83_1200u32..0x3A83_1300 {
        values.push(f32::from_bits(bits));
        values.push(f32::from_bits(bits | 0x8000_0000));
    }
    values
}

fn doubles() -> Vec<f64> {
    let mut values = vec![
        0.0,
        -0.0,
        0.001,
        -0.001,
        0.0010000000000000002,
        0.0009999999999999998,
        0.5,
        0.999999999999,
        1.0,
        -1.0,
        1.25,
        1.5,
        99.99,
        100.0,
        32767.0,
        32767.9,
        32768.0,
        -32768.0,
        -32768.9,
        -32769.0,
        65535.0,
        65535.99,
        65536.0,
        4294967295.0,
        4294967296.0,
        42949672.95,
        42949672.96,
        1e300,
        -1e300,
        f64::MAX,
        f64::MIN,
        f64::MIN_POSITIVE,
        5e-324,
        f64::EPSILON,
        f64::INFINITY,
        f64::NEG_INFINITY,
        f64::NAN,
    ];
    let mut step = 0.0f64;
    while step < 2000.0 {
        values.push(step);
        values.push(-step);
        step += 0.37;
    }
    let mut state = 11u64;
    for _ in 0..20000 {
        values.push(f64::from_bits(scramble(&mut state)));
    }
    for _ in 0..20000 {
        // Values of a size that matters: up to a few hundred thousand.
        let whole = (scramble(&mut state) % 400_000) as f64;
        let part = (scramble(&mut state) % 1_000_000) as f64 / 1_000_000.0;
        values.push(whole + part);
        values.push(-(whole + part));
    }
    for low in 0u64..256 {
        values.push(f64::from_bits(0x3F50_624D_D2F1_A980 + low));
        values.push(f64::from_bits(0xBF50_624D_D2F1_A980 + low));
    }
    values
}

#[test]
fn decoding_gives_mantissa_and_exponent_of_the_value() {
    for value in singles() {
        match single(value).decode() {
            Decoded::Nan => assert!(value.is_nan()),
            Decoded::Infinite { negative } => {
                assert!(value.is_infinite());
                assert_eq!(negative, value.is_sign_negative());
            }
            Decoded::Finite { negative, mantissa, exponent } => {
                assert!(value.is_finite());
                assert_eq!(negative, value.is_sign_negative());
                assert!(mantissa < 1 << 24);
                let rebuilt = mantissa as f64 * 2f64.powi(exponent);
                assert_eq!(rebuilt, f64::from(value.abs()));
            }
        }
    }
    for value in doubles() {
        match double(value).decode() {
            Decoded::Nan => assert!(value.is_nan()),
            Decoded::Infinite { negative } => {
                assert!(value.is_infinite());
                assert_eq!(negative, value.is_sign_negative());
            }
            Decoded::Finite { negative, mantissa, exponent } => {
                assert!(value.is_finite());
                assert_eq!(negative, value.is_sign_negative());
                assert!(mantissa < 1 << 53);
                // Rebuilt in two steps, so that no intermediate power leaves the range.
                let half = exponent / 2;
                let rebuilt = mantissa as f64 * 2f64.powi(half) * 2f64.powi(exponent - half);
                assert_eq!(rebuilt, value.abs());
            }
        }
    }
}

#[test]
fn decoding_of_chosen_encodings() {
    assert_eq!(
        single(1.0).decode(),
        Decoded::Finite { negative: false, mantissa: 1 << 23, exponent: -23 }
    );
    assert_eq!(
        single(-0.75).decode(),
        Decoded::Finite { negative: true, mantissa: 3 << 22, exponent: -24 }
    );
    assert_eq!(
        Binary32 { bits: 1 }.decode(),
        Decoded::Finite { negative: false, mantissa: 1, exponent: -149 }
    );
    assert_eq!(
        single(0.001).decode(),
        Decoded::Finite { negative: false, mantissa: 8589935, exponent: -33 }
    );
    assert_eq!(Binary32 { bits: 0x7F80_0000 }.decode(), Decoded::Infinite { negative: false });
    assert_eq!(Binary32 { bits: 0xFF80_0000 }.decode(), Decoded::Infinite { negative: true });
    assert_eq!(Binary32 { bits: 0x7F80_0001 }.decode(), Decoded::Nan);
    assert_eq!(Binary32 { bits: 0xFFFF_FFFF }.decode(), Decoded::Nan);
    assert_eq!(
        double(1.0).decode(),
        Decoded::Finite { negative: false, mantissa: 1 << 52, exponent: -52 }
    );
    assert_eq!(
        double(-6.0).decode(),
        Decoded::Finite { negative: true, mantissa: 3 << 51, exponent: -50 }
    );
    assert_eq!(
        Binary64 { bits: 1 }.decode(),
        Decoded::Finite { negative: false, mantissa: 1, exponent: -1074 }
    );
    assert_eq!(
        double(0.001).decode(),
        Decoded::Finite { negative: false, mantissa: 4611686018427388, exponent: -62 }
    );
    assert_eq!(
        Binary64 { bits: 0x7FF0_0000_0000_0000 }.decode(),
        Decoded::Infinite { negative: false }
    );
    assert_eq!(Binary64 { bits: 0x7FF8_0000_0000_0000 }.decode(), Decoded::Nan);
}

#[test]
fn epsilon_is_compared_as_the_numbers_are() {
    for value in singles() {
        assert_eq!(single(value).is_above_epsilon(), value.abs() > 0.001, "{value:e}");
    }
    for value in doubles() {
        assert_eq!(double(value).is_above_epsilon(), value.abs() > 0.001, "{value:e}");
    }
}

#[test]
fn epsilon_itself_does_not_count() {
    assert!(!single(0.001).is_above_epsilon());
    assert!(!single(-0.001).is_above_epsilon());
    assert!(single(f32::from_bits(0.001f32.to_bits() + 1)).is_above_epsilon());
    assert!(!single(f32::from_bits(0.001f32.to_bits() - 1)).is_above_epsilon());
    assert!(!double(0.001).is_above_epsilon());
    assert!(!double(-0.001).is_above_epsilon());
    assert!(double(f64::from_bits(0.001f64.to_bits() + 1)).is_above_epsilon());
    assert!(!double(f64::from_bits(0.001f64.to_bits() - 1)).is_above_epsilon());
    assert!(!single(f32::NAN).is_above_epsilon());
    assert!(!double(f64::NAN).is_above_epsilon());
    assert!(single(f32::NEG_INFINITY).is_above_epsilon());
    assert!(double(f64::INFINITY).is_above_epsilon());
    assert!(!single(0.0).is_above_epsilon());
    assert!(!double(-0.0).is_above_epsilon());
}

#[test]
fn line_units_are_a_hundred_to_the_line() {
    for value in singles() {
        let expected = if value.abs() > 0.001 { Some((value * 100.) as i16) } else { None };
        assert_eq!(line_units(single(value)), expected, "{value:e}");
    }
}

#[test]
fn line_units_of_chosen_movements() {
    assert_eq!(line_units(single(1.0)), Some(100));
    assert_eq!(line_units(single(-1.0)), Some(-100));
    assert_eq!(line_units(single(0.5)), Some(50));
    assert_eq!(line_units(single(0.015)), Some(1));
    assert_eq!(line_units(single(0.002)), Some(0));
    assert_eq!(line_units(single(0.001)), None);
    assert_eq!(line_units(single(0.0)), None);
    assert_eq!(line_units(single(-0.0005)), None);
    // The product is rounded as the format rounds it before it is cut.
    assert_eq!(line_units(single(0.29)), Some(29));
    assert_eq!(line_units(single(327.67)), Some(32767));
    assert_eq!(line_units(single(327.68)), Some(32767));
    assert_eq!(line_units(single(-327.68)), Some(-32768));
    assert_eq!(line_units(single(-400.0)), Some(-32768));
    assert_eq!(line_units(single(f32::MAX)), Some(i16::MAX));
    assert_eq!(line_units(single(f32::INFINITY)), Some(i16::MAX));
    assert_eq!(line_units(single(f32::NEG_INFINITY)), Some(i16::MIN));
    assert_eq!(line_units(single(f32::NAN)), None);
}

#[test]
fn pixel_units_are_the_whole_pixels() {
    for value in doubles() {
        let expected = if value.abs() > 0.001 { Some(value as i16) } else { None };
        assert_eq!(pixel_units(double(value)), expected, "{value:e}");
    }
}

#[test]
fn pixel_units_of_chosen_movements() {
    assert_eq!(pixel_units(double(1.0)), Some(1));
    assert_eq!(pixel_units(double(-1.0)), Some(-1));
    assert_eq!(pixel_units(double(0.9)), Some(0));
    assert_eq!(pixel_units(double(-0.9)), Some(0));
    assert_eq!(pixel_units(double(119.999)), Some(119));
    assert_eq!(pixel_units(double(-119.999)), Some(-119));
    assert_eq!(pixel_units(double(0.001)), None);
    assert_eq!(pixel_units(double(0.0011)), Some(0));
    assert_eq!(pixel_units(double(32767.5)), Some(32767));
    assert_eq!(pixel_units(double(32768.0)), Some(32767));
    assert_eq!(pixel_units(double(-32768.5)), Some(-32768));
    assert_eq!(pixel_units(double(-1e9)), Some(-32768));
    assert_eq!(pixel_units(double(f64::INFINITY)), Some(i16::MAX));
    assert_eq!(pixel_units(double(f64::NEG_INFINITY)), Some(i16::MIN));
    assert_eq!(pixel_units(double(f64::NAN)), None);
}

#[test]
fn scale_factor_is_taken_in_percent() {
    for value in doubles() {
        assert_eq!(scale_percent(double(value)), (value * 100.0) as u32, "{value:e}");
    }
}

#[test]
fn scale_percent_of_chosen_factors() {
    assert_eq!(scale_percent(double(1.0)), 100);
    assert_eq!(scale_percent(double(1.25)), 125);
    assert_eq!(scale_percent(double(1.5)), 150);
    assert_eq!(scale_percent(double(2.0)), 200);
    assert_eq!(scale_percent(double(0.0)), 0);
    assert_eq!(scale_percent(double(-1.0)), 0);
    assert_eq!(scale_percent(double(1.15)), 114);
    assert_eq!(scale_percent(double(0.57)), 56);
    assert_eq!(scale_percent(double(0.29)), 28);
    assert_eq!(scale_percent(double(42949672.95)), 4294967295);
    assert_eq!(scale_percent(double(42949672.96)), u32::MAX);
    assert_eq!(scale_percent(double(f64::INFINITY)), u32::MAX);
    assert_eq!(scale_percent(double(f64::NEG_INFINITY)), 0);
    assert_eq!(scale_percent(double(f64::NAN)), 0);
}

#[test]
fn identity_scale_keeps_the_position() {
    let sizes = [1u16, 2, 3, 7, 49, 640, 1000, 1080, 1920, 4096, 65535];
    for value in doubles() {
        for size in sizes {
            assert_eq!(
                scale_coordinate(double(value), u32::from(size), size),
                value as u16,
                "{value:e} in {size}"
            );
        }
    }
}

#[test]
fn identity_scale_is_exact_where_a_rounded_quotient_is_not() {
    // One forty-ninth is not a binary fraction: dividing and multiplying back
    // in the format falls just short of the position.
    assert_eq!((1.0f64 / 49.0 * 49.0) as u16, 0);
    assert_eq!(scale_coordinate(double(1.0), 49, 49), 1);
    for position in 0u16..2000 {
        for size in [49u16, 93, 98, 103, 107, 1000] {
            assert_eq!(
                scale_coordinate(double(f64::from(position)), u32::from(size), size),
                position
            );
        }
    }
}

#[test]
fn scaling_follows_the_ratio_of_remote_to_window() {
    // Twice as wide remotely.
    assert_eq!(scale_coordinate(double(100.0), 800, 1600), 200);
    assert_eq!(scale_coordinate(double(100.5), 800, 1600), 201);
    assert_eq!(scale_coordinate(double(100.49), 800, 1600), 200);
    // Half as wide remotely.
    assert_eq!(scale_coordinate(double(101.0), 800, 400), 50);
    assert_eq!(scale_coordinate(double(799.9), 800, 400), 399);
    // A ratio that is no binary fraction.
    assert_eq!(scale_coordinate(double(2.0), 3, 1), 0);
    assert_eq!(scale_coordinate(double(3.0), 3, 1), 1);
    assert_eq!(scale_coordinate(double(10.0), 3, 2), 6);
    assert_eq!(scale_coordinate(double(1279.0), 1280, 1920), 1918);
    assert_eq!(scale_coordinate(double(0.999), 1280, 1920), 1);
}

#[test]
fn scaling_agrees_with_whole_number_arithmetic() {
    let mut state = 23u64;
    for _ in 0..20000 {
        // A position with up to ten binary digits behind the point.
        let numerator = scramble(&mut state) % (1 << 30);
        let digits = (scramble(&mut state) % 11) as u32;
        let window = (scramble(&mut state) % 5000) as u32 + 1;
        let remote = (scramble(&mut state) % 70000).min(65535) as u16;
        let position = numerator as f64 / f64::from(1u32 << digits);
        let exact = u128::from(numerator) * u128::from(remote)
            / (u128::from(window) << digits);
        let expected = exact.min(65535) as u16;
        assert_eq!(scale_coordinate(double(position), window, remote), expected);
    }
}

#[test]
fn scaling_at_the_edges() {
    // Nothing is left of a surface without extent.
    assert_eq!(scale_coordinate(double(100.0), 800, 0), 0);
    assert_eq!(scale_coordinate(double(f64::INFINITY), 800, 0), 0);
    // In a window without extent every position beyond the origin is too far.
    assert_eq!(scale_coordinate(double(0.0), 0, 600), 0);
    assert_eq!(scale_coordinate(double(5e-324), 0, 600), u16::MAX);
    assert_eq!(scale_coordinate(double(1.0), 0, 600), u16::MAX);
    assert_eq!(scale_coordinate(double(1.0), 0, 0), 0);
    // Negative positions and what is not a number end at the origin.
    assert_eq!(scale_coordinate(double(-1.0), 800, 1600), 0);
    assert_eq!(scale_coordinate(double(-0.0), 800, 1600), 0);
    assert_eq!(scale_coordinate(double(f64::NEG_INFINITY), 800, 1600), 0);
    assert_eq!(scale_coordinate(double(f64::NAN), 800, 1600), 0);
    // Positions too far out end at the largest coordinate.
    assert_eq!(scale_coordinate(double(f64::INFINITY), 800, 1600), u16::MAX);
    assert_eq!(scale_coordinate(double(f64::MAX), u32::MAX, 1), u16::MAX);
    assert_eq!(scale_coordinate(double(1e6), 10, 10), u16::MAX);
    assert_eq!(scale_coordinate(double(65535.0), 10, 10), 65535);
    assert_eq!(scale_coordinate(double(65534.999), 10, 10), 65534);
    assert_eq!(scale_coordinate(double(32767.5), 1, 2), 65535);
    assert_eq!(scale_coordinate(double(32767.4), 1, 2), 65534);
    // Positions too small to reach the first coordinate.
    assert_eq!(scale_coordinate(double(5e-324), 1, u16::MAX), 0);
    assert_eq!(scale_coordinate(double(f64::MIN_POSITIVE), 1, u16::MAX), 0);
    assert_eq!(scale_coordinate(double(1e-30), 1, u16::MAX), 0);
    assert_eq!(scale_coordinate(double(4294967295.0), u32::MAX, 1), 1);
    assert_eq!(scale_coordinate(double(4294967294.0), u32::MAX, 1), 0);
}

#[test]
fn powers_of_two() {
    assert_eq!(power_of_two(0), 1);
    assert_eq!(power_of_two(1), 2);
    assert_eq!(power_of_two(10), 1024);
    assert_eq!(power_of_two(64), 1 << 64);
    assert_eq!(power_of_two(126), 1 << 126);
}

#[test]
fn whole_parts_and_their_caps() {
    assert_eq!(whole_part_capped(0, 5, 100), 0);
    assert_eq!(whole_part_capped(0, -5, 100), 0);
    assert_eq!(whole_part_capped(3, 0, 100), 3);
    assert_eq!(whole_part_capped(3, 4, 100), 48);
    assert_eq!(whole_part_capped(3, 5, 100), 96);
    assert_eq!(whole_part_capped(3, 6, 100), 100);
    assert_eq!(whole_part_capped(3, 63, u64::MAX), u64::MAX);
    assert_eq!(whole_part_capped(1, 63, u64::MAX), 1 << 63);
    assert_eq!(whole_part_capped(1, 64, u64::MAX), u64::MAX);
    assert_eq!(whole_part_capped(1, 2000, 7), 7);
    assert_eq!(whole_part_capped(1000, -3, 1000), 125);
    assert_eq!(whole_part_capped(1001, -3, 1000), 125);
    assert_eq!(whole_part_capped(1007, -3, 1000), 125);
    assert_eq!(whole_part_capped(1008, -3, 1000), 126);
    assert_eq!(whole_part_capped(1008, -3, 100), 100);
    assert_eq!(whole_part_capped(u64::MAX, -63, 9), 1);
    assert_eq!(whole_part_capped(u64::MAX, -64, 9), 0);
    assert_eq!(whole_part_capped(u64::MAX, -2000, 9), 0);
    assert_eq!(whole_part_capped(5, i32::MAX, 9), 9);
    assert_eq!(whole_part_capped(5, i32::MIN, 9), 0);
}

#[test]
fn products_are_rounded_to_the_nearest_and_ties_to_even() {
    // Small mantissas: the product fits and is exact.
    assert_eq!(hundredfold_rounded(1, 0, 24), (100, 0));
    assert_eq!(hundredfold_rounded(123, -7, 24), (12300, -7));
    assert_eq!(hundredfold_rounded(0, 5, 24), (0, 5));
    // Four bits of precision make the rounding visible: 100 × 9 = 900 has ten bits.
    assert_eq!(hundredfold_rounded(9, 0, 4), (14, 6));
    // 100 × 13 = 1300 = 10.15625 × 128: down to 10.
    assert_eq!(hundredfold_rounded(13, 0, 4), (10, 7));
    // 100 × 10 = 1000 = 15.625 × 64: up to 16, one more than four bits hold.
    assert_eq!(hundredfold_rounded(10, 3, 4), (16, 9));
    // Ties: 100 × 2 = 200 = 12.5 × 16 goes to the even 12 at three bits of shift...
    assert_eq!(hundredfold_rounded(2, 0, 4), (12, 4));
    // ... and 100 × 6 = 600 = 9.375 × 64, no tie, down to 9.
    assert_eq!(hundredfold_rounded(6, 0, 4), (9, 6));
    // 100 × 14 = 1400 = 10.9375 × 128: up to 11.
    assert_eq!(hundredfold_rounded(14, -2, 4), (11, 5));
    // A tie that goes up to the even neighbour: 100 × 11 = 1100 = 8.59375 × 128 is none,
    // but at five bits 100 × 27 = 2700 = 21.09375 × 128 is down, and
    // at two bits 100 × 3 = 300 = 2.34375 × 128 is down to 2.
    assert_eq!(hundredfold_rounded(3, 0, 2), (2, 7));
    // At one bit 100 × 1 = 100 = 1.5625 × 64 goes up to 2.
    assert_eq!(hundredfold_rounded(1, 0, 1), (2, 6));
    // The full width of the wide format.
    assert_eq!(hundredfold_rounded((1 << 53) - 1, 0, 53), (7036874417766399, 7));
}

/// Mantissa and exponent without trailing zero bits, so that equal values compare equal.
fn reduced(mantissa: u64, exponent: i32) -> (u64, i32) {
    if mantissa == 0 {
        return (0, 0);
    }
    let zeros = mantissa.trailing_zeros();
    (mantissa >> zeros, exponent + zeros as i32)
}

#[test]
fn products_are_rounded_as_the_narrow_format_rounds_them() {
    for value in singles() {
        let product = value.abs() * 100.;
        if !value.is_finite() || !product.is_normal() {
            continue;
        }
        let Decoded::Finite { mantissa, exponent, .. } = single(value).decode() else {
            panic!("a finite value decodes to a finite value");
        };
        let Decoded::Finite { mantissa: expected, exponent: expected_exponent, .. } =
            single(product).decode()
        else {
            panic!("a finite value decodes to a finite value");
        };
        let (rounded, rounded_exponent) = hundredfold_rounded(mantissa, exponent, 24);
        assert_eq!(
            reduced(rounded, rounded_exponent),
            reduced(expected, expected_exponent),
            "{value:e}"
        );
    }
}

#[test]
fn products_are_rounded_as_the_wide_format_rounds_them() {
    for value in doubles() {
        let product = value.abs() * 100.0;
        if !value.is_finite() || !product.is_normal() {
            continue;
        }
        let Decoded::Finite { mantissa, exponent, .. } = double(value).decode() else {
            panic!("a finite value decodes to a finite value");
        };
        let Decoded::Finite { mantissa: expected, exponent: expected_exponent, .. } =
            double(product).decode()
        else {
            panic!("a finite value decodes to a finite value");
        };
        let (rounded, rounded_exponent) = hundredfold_rounded(mantissa, exponent, 53);
        assert_eq!(
            reduced(rounded, rounded_exponent),
            reduced(expected, expected_exponent),
            "{value:e}"
        );
    }
}
