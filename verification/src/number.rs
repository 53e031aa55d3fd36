//! Numbers as the windowing system reports them: IEEE 754 binary values,
//! taken by their encoding and worked on in whole numbers.
//!
//! A finite value is `mantissa × 2^exponent`. What is computed here is stated
//! over that product, in whole numbers and powers of two.

use vstd::arithmetic::div_mod::{
    lemma_basic_div, lemma_div_basics_2, lemma_div_denominator, lemma_div_is_ordered,
    lemma_div_multiples_vanish, lemma_div_nonincreasing,
};
use vstd::arithmetic::mul::{lemma_mul_inequality, lemma_mul_is_commutative};
use vstd::arithmetic::power2::{
    lemma2_to64, lemma2_to64_rest, lemma_pow2_adds, lemma_pow2_pos,
    lemma_pow2_strictly_increases, lemma_pow2_unfold, pow2,
};
use vstd::prelude::*;

verus! {

/// A binary32 value, by its encoding.
#[derive(Clone, Copy, Debug, PartialEq, Eq, Structural)]
pub struct Binary32 {
    pub bits: u32,
}

/// A binary64 value, by its encoding.
#[derive(Clone, Copy, Debug, PartialEq, Eq, Structural)]
pub struct Binary64 {
    pub bits: u64,
}

/// What an encoding stands for.
#[derive(Clone, Copy, Debug, PartialEq, Eq, Structural)]
pub enum Decoded {
    /// Not a number.
    Nan,
    Infinite { negative: bool },
    /// The value `mantissa × 2^exponent`, negated where `negative`.
    Finite { negative: bool, mantissa: u64, exponent: i32 },
}

impl Binary32 {
    /// Whether the sign bit is set.
    pub open spec fn sign(self) -> bool {
        self.bits >= 0x8000_0000
    }

    /// The eight bits of the exponent field.
    pub open spec fn exponent_field(self) -> nat {
        (self.bits / 0x80_0000 % 0x100) as nat
    }

    /// The 23 bits of the fraction.
    pub open spec fn fraction(self) -> nat {
        (self.bits % 0x80_0000) as nat
    }

    /// What the encoding stands for.
    pub open spec fn decoded(self) -> Decoded {
        if self.exponent_field() == 0xFF {
            if self.fraction() == 0 {
                Decoded::Infinite { negative: self.sign() }
            } else {
                Decoded::Nan
            }
        } else if self.exponent_field() == 0 {
            Decoded::Finite {
                negative: self.sign(),
                mantissa: self.fraction() as u64,
                exponent: -149i32,
            }
        } else {
            Decoded::Finite {
                negative: self.sign(),
                mantissa: (0x80_0000 + self.fraction()) as u64,
                exponent: (self.exponent_field() - 150) as i32,
            }
        }
    }

    /// Takes the encoding apart.
    pub fn decode(self) -> (decoded: Decoded)
        ensures
            decoded == self.decoded(),
            decoded matches Decoded::Finite { mantissa, exponent, .. } ==> mantissa < 0x100_0000
                && -149 <= exponent <= 104,
    {
        let negative = self.bits >= 0x8000_0000;
        let field: u32 = self.bits / 0x80_0000 % 0x100;
        let fraction: u32 = self.bits % 0x80_0000;
        if field == 0xFF {
            if fraction == 0 {
                Decoded::Infinite { negative }
            } else {
                Decoded::Nan
            }
        } else if field == 0 {
            Decoded::Finite { negative, mantissa: fraction as u64, exponent: -149 }
        } else {
            Decoded::Finite {
                negative,
                mantissa: (0x80_0000 + fraction) as u64,
                exponent: field as i32 - 150,
            }
        }
    }
}

impl Binary64 {
    /// Whether the sign bit is set.
    pub open spec fn sign(self) -> bool {
        self.bits >= 0x8000_0000_0000_0000
    }

    /// The eleven bits of the exponent field.
    pub open spec fn exponent_field(self) -> nat {
        (self.bits / 0x10_0000_0000_0000 % 0x800) as nat
    }

    /// The 52 bits of the fraction.
    pub open spec fn fraction(self) -> nat {
        (self.bits % 0x10_0000_0000_0000) as nat
    }

    /// What the encoding stands for.
    pub open spec fn decoded(self) -> Decoded {
        if self.exponent_field() == 0x7FF {
            if self.fraction() == 0 {
                Decoded::Infinite { negative: self.sign() }
            } else {
                Decoded::Nan
            }
        } else if self.exponent_field() == 0 {
            Decoded::Finite {
                negative: self.sign(),
                mantissa: self.fraction() as u64,
                exponent: -1074i32,
            }
        } else {
            Decoded::Finite {
                negative: self.sign(),
                mantissa: (0x10_0000_0000_0000 + self.fraction()) as u64,
                exponent: (self.exponent_field() - 1075) as i32,
            }
        }
    }

    /// Takes the encoding apart.
    pub fn decode(self) -> (decoded: Decoded)
        ensures
            decoded == self.decoded(),
            decoded matches Decoded::Finite { mantissa, exponent, .. } ==> mantissa
                < 0x20_0000_0000_0000 && -1074 <= exponent <= 971,
    {
        let negative = self.bits >= 0x8000_0000_0000_0000;
        let field: u64 = self.bits / 0x10_0000_0000_0000 % 0x800;
        let fraction: u64 = self.bits % 0x10_0000_0000_0000;
        if field == 0x7FF {
            if fraction == 0 {
                Decoded::Infinite { negative }
            } else {
                Decoded::Nan
            }
        } else if field == 0 {
            Decoded::Finite { negative, mantissa: fraction, exponent: -1074 }
        } else {
            Decoded::Finite {
                negative,
                mantissa: 0x10_0000_0000_0000 + fraction,
                exponent: field as i32 - 1075,
            }
        }
    }
}

/// The whole part of `mantissa × 2^exponent`.
pub open spec fn whole_part(mantissa: nat, exponent: int) -> nat {
    if exponent >= 0 {
        mantissa * pow2(exponent as nat)
    } else {
        mantissa / pow2((-exponent) as nat)
    }
}

/// The smaller of two numbers.
pub open spec fn at_most(value: nat, cap: nat) -> nat {
    if value <= cap {
        value
    } else {
        cap
    }
}

/// Two to the power of `exponent`, as far as 128 bits hold it.
pub fn power_of_two(exponent: u32) -> (power: u128)
    requires
        exponent <= 127,
    ensures
        power == pow2(exponent as nat),
        power >= 1,
{
    let mut power: u128 = 1;
    let mut done: u32 = 0;
    proof {
        lemma2_to64();
    }
    while done < exponent
        invariant
            done <= exponent <= 127,
            power == pow2(done as nat),
            power >= 1,
        decreases exponent - done,
    {
        proof {
            lemma_pow2_unfold((done + 1) as nat);
            if done + 1 < 127 {
                lemma_pow2_strictly_increases((done + 1) as nat, 127);
            }
            lemma_pow2_bound_127();
        }
        power = power * 2;
        done = done + 1;
    }
    power
}

/// `2^127` is the largest power of two that 128 bits hold.
proof fn lemma_pow2_bound_127()
    ensures
        pow2(127) == 0x8000_0000_0000_0000_0000_0000_0000_0000,
{
    lemma2_to64();
    lemma2_to64_rest();
    lemma_pow2_adds(64, 63);
}

/// The whole part of `mantissa × 2^exponent`, or the cap where that is less.
pub fn whole_part_capped(mantissa: u64, exponent: i32, cap: u64) -> (whole: u64)
    ensures
        whole == at_most(whole_part(mantissa as nat, exponent as int), cap as nat),
{
    if mantissa == 0 {
        proof {
            lemma_pow2_pos((-exponent) as nat);
            assert(whole_part(0, exponent as int) == 0) by {
                if exponent >= 0 {
                    assert(0 * pow2(exponent as nat) == 0);
                } else {
                    lemma_basic_div(0, pow2((-exponent) as nat) as int);
                }
            }
        }
        0
    } else if exponent >= 0 {
        if exponent >= 64 {
            proof {
                lemma2_to64_rest();
                if exponent > 64 {
                    lemma_pow2_strictly_increases(64, exponent as nat);
                }
                lemma_mul_inequality(1, mantissa as int, pow2(exponent as nat) as int);
                lemma_mul_is_commutative(mantissa as int, pow2(exponent as nat) as int);
            }
            cap
        } else {
            let power = power_of_two(exponent as u32);
            proof {
                lemma2_to64_rest();
                lemma_pow2_strictly_increases(exponent as nat, 64);
                assert(mantissa * power <= 0xFFFF_FFFF_FFFF_FFFF * 0xFFFF_FFFF_FFFF_FFFF)
                    by (nonlinear_arith)
                    requires
                        mantissa <= 0xFFFF_FFFF_FFFF_FFFF,
                        power <= 0xFFFF_FFFF_FFFF_FFFF,
                ;
            }
            let whole: u128 = (mantissa as u128) * power;
            if whole <= cap as u128 {
                whole as u64
            } else {
                cap
            }
        }
    } else {
        if exponent <= -64 {
            proof {
                lemma2_to64_rest();
                if -exponent > 64 {
                    lemma_pow2_strictly_increases(64, (-exponent) as nat);
                }
                lemma_basic_div(mantissa as int, pow2((-exponent) as nat) as int);
            }
            0
        } else {
            let power = power_of_two((-exponent) as u32);
            let whole: u128 = (mantissa as u128) / power;
            proof {
                lemma_div_is_ordered(0, mantissa as int, power as int);
                lemma_div_nonincreasing(mantissa as int, power as int);
            }
            if whole <= cap as u128 {
                whole as u64
            } else {
                cap
            }
        }
    }
}

/// How many low bits a number has to lose to fit in `precision` bits.
pub open spec fn excess_bits(value: nat, precision: nat) -> nat
    decreases value,
{
    if value == 0 || value < pow2(precision) {
        0
    } else {
        1 + excess_bits(value / 2, precision)
    }
}

/// `value / 2^shift`, rounded to the nearest whole number, and to the even
/// one of the two where it lies half way.
pub open spec fn rounded_shift(value: nat, shift: nat) -> nat {
    let quotient = value / pow2(shift);
    let twice_rest = 2 * (value % pow2(shift));
    if twice_rest > pow2(shift) || (twice_rest == pow2(shift) && quotient % 2 == 1) {
        quotient + 1
    } else {
        quotient
    }
}

/// A hundred times `mantissa × 2^exponent`, as a format with `precision`
/// bits of mantissa rounds it: mantissa and exponent of the product. The
/// product is exact where it fits, and rounded to nearest, ties to even,
/// where it does not. (A format rounds otherwise only where the product
/// leaves its range; the whole part of the product is then the same.)
pub open spec fn hundredfold(mantissa: nat, exponent: int, precision: nat) -> (nat, int) {
    let product = 100 * mantissa;
    let shift = excess_bits(product, precision);
    (rounded_shift(product, shift), exponent + shift)
}

/// A hundred times `mantissa × 2^exponent`, rounded to `precision` bits.
pub fn hundredfold_rounded(mantissa: u64, exponent: i32, precision: u32) -> (product: (u64, i32))
    requires
        1 <= precision <= 53,
        mantissa < pow2(precision as nat),
        exponent <= i32::MAX - 60,
    ensures
        (product.0 as nat, product.1 as int) == hundredfold(
            mantissa as nat,
            exponent as int,
            precision as nat,
        ),
        product.0 <= pow2(precision as nat),
{
    proof {
        lemma2_to64();
        lemma2_to64_rest();
        if precision < 53 {
            lemma_pow2_strictly_increases(precision as nat, 53);
        }
    }
    let total: u64 = mantissa * 100;
    let limit: u128 = power_of_two(precision);
    let mut quotient: u64 = total;
    let mut shift: u32 = 0;
    proof {
        lemma_div_basics_2(total as int);
    }
    while quotient as u128 >= limit
        invariant
            limit == pow2(precision as nat),
            limit >= 2,
            total < 0x1000_0000_0000_0000,
            shift <= 60,
            quotient == total as nat / pow2(shift as nat),
            excess_bits(total as nat, precision as nat) == shift + excess_bits(
                quotient as nat,
                precision as nat,
            ),
        decreases quotient,
    {
        proof {
            let unit = pow2(shift as nat) as int;
            lemma_pow2_pos(shift as nat);
            lemma_pow2_unfold((shift + 1) as nat);
            lemma_div_denominator(total as int, unit, 2);
            // The quotient is not zero, so the unit is no more than the total.
            if unit > total {
                lemma_basic_div(total as int, unit);
            }
            if shift >= 60 {
                if shift > 60 {
                    lemma_pow2_strictly_increases(60, shift as nat);
                }
                lemma2_to64();
                lemma_pow2_adds(30, 30);
                assert(pow2(60) == 0x1000_0000_0000_0000);
            }
        }
        quotient = quotient / 2;
        shift = shift + 1;
    }
    let unit: u128 = power_of_two(shift);
    let rest: u128 = total as u128 % unit;
    proof {
        lemma_pow2_unfold(precision as nat);
    }
    let rounded: u64 = if 2 * rest > unit || (2 * rest == unit && quotient % 2 == 1) {
        quotient + 1
    } else {
        quotient
    };
    (rounded, exponent + shift as i32)
}

/// Whether `mantissa × 2^exponent` is above `other × 2^other_exponent`.
pub open spec fn product_above(mantissa: nat, exponent: int, other: nat, other_exponent: int) -> bool {
    if exponent >= other_exponent {
        mantissa * pow2((exponent - other_exponent) as nat) > other
    } else {
        mantissa > other * pow2((other_exponent - exponent) as nat)
    }
}

/// Whether a value is above an epsilon of `mantissa × 2^exponent` in
/// magnitude. What is not a number is above nothing.
pub open spec fn magnitude_above(value: Decoded, mantissa: nat, exponent: int) -> bool {
    match value {
        Decoded::Nan => false,
        Decoded::Infinite { .. } => true,
        Decoded::Finite { mantissa: own, exponent: own_exponent, .. } => product_above(
            own as nat,
            own_exponent as int,
            mantissa,
            exponent,
        ),
    }
}

/// Mantissa of the binary32 value nearest to a thousandth; its exponent is
/// −33. A movement of the wheel, in lines, counts where it is above that.
pub const EPSILON_LINES_MANTISSA: u32 = 8589935;

/// Mantissa of the binary64 value nearest to a thousandth; its exponent is
/// −62. A movement of the wheel, in pixels, counts where it is above that.
pub const EPSILON_PIXELS_MANTISSA: u64 = 4611686018427388;

/// A magnitude with its sign, capped to what 16 bits with a sign hold.
pub open spec fn signed_units(negative: bool, magnitude: nat) -> i16 {
    if negative {
        (0 - at_most(magnitude, 0x8000)) as i16
    } else {
        at_most(magnitude, 0x7FFF) as i16
    }
}

/// Two to a power that is not zero is at least two.
proof fn lemma_pow2_at_least_two(exponent: nat)
    requires
        exponent >= 1,
    ensures
        pow2(exponent) >= 2,
{
    lemma2_to64();
    if exponent > 1 {
        lemma_pow2_strictly_increases(1, exponent);
    }
}

impl Binary32 {
    /// Whether the magnitude is above the epsilon of the wheel's lines.
    pub open spec fn exceeds_epsilon(self) -> bool {
        magnitude_above(self.decoded(), EPSILON_LINES_MANTISSA as nat, -33)
    }

    /// Whether the magnitude is above the epsilon of the wheel's lines. For
    /// magnitudes the order of the values is the order of their encodings, so
    /// the encodings are compared.
    pub fn is_above_epsilon(self) -> (above: bool)
        ensures
            above == self.exceeds_epsilon(),
    {
        let magnitude: u32 = self.bits % 0x8000_0000;
        proof {
            let field = self.exponent_field();
            let own = self.decoded();
            assert(magnitude == field * 0x80_0000 + self.fraction());
            if let Decoded::Finite { mantissa, exponent, .. } = own {
                if field > 117 {
                    let power = pow2((exponent + 33) as nat);
                    lemma_pow2_at_least_two((exponent + 33) as nat);
                    assert(mantissa * power >= 0x100_0000) by (nonlinear_arith)
                        requires
                            mantissa >= 0x80_0000,
                            power >= 2,
                    ;
                } else if field == 117 {
                    lemma2_to64();
                    assert(mantissa * pow2(0) == mantissa);
                } else {
                    let power = pow2((-33 - exponent) as nat);
                    lemma_pow2_at_least_two((-33 - exponent) as nat);
                    assert(EPSILON_LINES_MANTISSA * power >= 0x100_0000) by (nonlinear_arith)
                        requires
                            EPSILON_LINES_MANTISSA >= 0x80_0000,
                            power >= 2,
                    ;
                }
            }
        }
        magnitude > 0x3A83_126F && magnitude <= 0x7F80_0000
    }
}

impl Binary64 {
    /// Whether the magnitude is above the epsilon of the wheel's pixels.
    pub open spec fn exceeds_epsilon(self) -> bool {
        magnitude_above(self.decoded(), EPSILON_PIXELS_MANTISSA as nat, -62)
    }

    /// Whether the magnitude is above the epsilon of the wheel's pixels. For
    /// magnitudes the order of the values is the order of their encodings, so
    /// the encodings are compared.
    pub fn is_above_epsilon(self) -> (above: bool)
        ensures
            above == self.exceeds_epsilon(),
    {
        let magnitude: u64 = self.bits % 0x8000_0000_0000_0000;
        proof {
            let field = self.exponent_field();
            let own = self.decoded();
            assert(magnitude == field * 0x10_0000_0000_0000 + self.fraction());
            if let Decoded::Finite { mantissa, exponent, .. } = own {
                if field > 1013 {
                    let power = pow2((exponent + 62) as nat);
                    lemma_pow2_at_least_two((exponent + 62) as nat);
                    assert(mantissa * power >= 0x20_0000_0000_0000) by (nonlinear_arith)
                        requires
                            mantissa >= 0x10_0000_0000_0000,
                            power >= 2,
                    ;
                } else if field == 1013 {
                    lemma2_to64();
                    assert(mantissa * pow2(0) == mantissa);
                } else {
                    let power = pow2((-62 - exponent) as nat);
                    lemma_pow2_at_least_two((-62 - exponent) as nat);
                    assert(EPSILON_PIXELS_MANTISSA * power >= 0x20_0000_0000_0000)
                        by (nonlinear_arith)
                        requires
                            EPSILON_PIXELS_MANTISSA >= 0x10_0000_0000_0000,
                            power >= 2,
                    ;
                }
            }
        }
        magnitude > 0x3F50_624D_D2F1_A9FC && magnitude <= 0x7FF0_0000_0000_0000
    }

    /// The value as an unsigned 16-bit number: its whole part, 0 for what is
    /// negative or not a number, and the largest number for what is too large.
    pub open spec fn truncated(self) -> u16 {
        match self.decoded() {
            Decoded::Nan => 0,
            Decoded::Infinite { negative } => if negative {
                0
            } else {
                0xFFFF
            },
            Decoded::Finite { negative, mantissa, exponent } => if negative {
                0
            } else {
                at_most(whole_part(mantissa as nat, exponent as int), 0xFFFF) as u16
            },
        }
    }
}

/// The rotation units of a wheel movement in lines: a hundred units to the
/// line, the whole part of the product, and none at all for a movement that
/// does not exceed the epsilon.
pub open spec fn line_units_spec(delta: Binary32) -> Option<i16> {
    if !delta.exceeds_epsilon() {
        None
    } else {
        match delta.decoded() {
            Decoded::Finite { negative, mantissa, exponent } => {
                let product = hundredfold(mantissa as nat, exponent as int, 24);
                Some(signed_units(negative, whole_part(product.0, product.1)))
            },
            Decoded::Infinite { negative } => Some(
                if negative {
                    i16::MIN
                } else {
                    i16::MAX
                },
            ),
            Decoded::Nan => None,
        }
    }
}

/// The rotation units of a wheel movement in pixels: the whole part of the
/// movement, and none at all for a movement that does not exceed the epsilon.
pub open spec fn pixel_units_spec(delta: Binary64) -> Option<i16> {
    if !delta.exceeds_epsilon() {
        None
    } else {
        match delta.decoded() {
            Decoded::Finite { negative, mantissa, exponent } => Some(
                signed_units(negative, whole_part(mantissa as nat, exponent as int)),
            ),
            Decoded::Infinite { negative } => Some(
                if negative {
                    i16::MIN
                } else {
                    i16::MAX
                },
            ),
            Decoded::Nan => None,
        }
    }
}

/// A scale factor in percent: the whole part of a hundred times the factor,
/// 0 for what is negative or not a number, and the largest number for what
/// is too large.
pub open spec fn scale_percent_spec(factor: Binary64) -> u32 {
    match factor.decoded() {
        Decoded::Nan => 0,
        Decoded::Infinite { negative } => if negative {
            0
        } else {
            u32::MAX
        },
        Decoded::Finite { negative, mantissa, exponent } => if negative {
            0
        } else {
            let product = hundredfold(mantissa as nat, exponent as int, 53);
            at_most(whole_part(product.0, product.1), u32::MAX as nat) as u32
        },
    }
}

/// The whole part of `mantissa × 2^exponent × remote / window`.
pub open spec fn scaled_whole(mantissa: nat, exponent: int, remote: nat, window: nat) -> nat
    recommends
        window > 0,
{
    if exponent >= 0 {
        mantissa * pow2(exponent as nat) * remote / window
    } else {
        mantissa * remote / (window * pow2((-exponent) as nat))
    }
}

/// A position in the window, scaled to the remote surface by the ratio of
/// the remote dimension to the window's, as an unsigned 16-bit number: the
/// whole part of the exact product, 0 for what is negative or not a number,
/// and the largest number for what is too large. In a window without extent
/// every position beyond the origin is too large.
pub open spec fn scale_coordinate_spec(position: Binary64, window: u32, remote: u16) -> u16 {
    match position.decoded() {
        Decoded::Nan => 0,
        Decoded::Infinite { negative } => if negative || remote == 0 {
            0
        } else {
            0xFFFF
        },
        Decoded::Finite { negative, mantissa, exponent } => if negative || remote == 0 || mantissa
            == 0 {
            0
        } else if window == 0 {
            0xFFFF
        } else {
            at_most(
                scaled_whole(mantissa as nat, exponent as int, remote as nat, window as nat),
                0xFFFF,
            ) as u16
        },
    }
}

/// A magnitude with its sign, capped to what 16 bits with a sign hold.
fn signed_capped(negative: bool, mantissa: u64, exponent: i32) -> (units: i16)
    ensures
        units == signed_units(negative, whole_part(mantissa as nat, exponent as int)),
{
    if negative {
        let magnitude: u64 = whole_part_capped(mantissa, exponent, 0x8000);
        (0 - magnitude as i32) as i16
    } else {
        let magnitude: u64 = whole_part_capped(mantissa, exponent, 0x7FFF);
        magnitude as i16
    }
}

/// The rotation units of a wheel movement in lines.
pub fn line_units(delta: Binary32) -> (units: Option<i16>)
    ensures
        units == line_units_spec(delta),
{
    if !delta.is_above_epsilon() {
        return None;
    }
    match delta.decode() {
        Decoded::Finite { negative, mantissa, exponent } => {
            proof {
                lemma2_to64();
            }
            let product = hundredfold_rounded(mantissa, exponent, 24);
            Some(signed_capped(negative, product.0, product.1))
        },
        Decoded::Infinite { negative } => Some(
            if negative {
                i16::MIN
            } else {
                i16::MAX
            },
        ),
        Decoded::Nan => None,
    }
}

/// The rotation units of a wheel movement in pixels.
pub fn pixel_units(delta: Binary64) -> (units: Option<i16>)
    ensures
        units == pixel_units_spec(delta),
{
    if !delta.is_above_epsilon() {
        return None;
    }
    match delta.decode() {
        Decoded::Finite { negative, mantissa, exponent } => Some(
            signed_capped(negative, mantissa, exponent),
        ),
        Decoded::Infinite { negative } => Some(
            if negative {
                i16::MIN
            } else {
                i16::MAX
            },
        ),
        Decoded::Nan => None,
    }
}

/// A scale factor in percent.
pub fn scale_percent(factor: Binary64) -> (percent: u32)
    ensures
        percent == scale_percent_spec(factor),
{
    match factor.decode() {
        Decoded::Nan => 0,
        Decoded::Infinite { negative } => if negative {
            0
        } else {
            u32::MAX
        },
        Decoded::Finite { negative, mantissa, exponent } => if negative {
            0
        } else {
            proof {
                lemma2_to64_rest();
            }
            let product = hundredfold_rounded(mantissa, exponent, 53);
            whole_part_capped(product.0, product.1, 0xFFFF_FFFF) as u32
        },
    }
}

/// A position in the window, scaled to the remote surface.
pub fn scale_coordinate(position: Binary64, window: u32, remote: u16) -> (coordinate: u16)
    ensures
        coordinate == scale_coordinate_spec(position, window, remote),
{
    match position.decode() {
        Decoded::Nan => 0,
        Decoded::Infinite { negative } => if negative || remote == 0 {
            0
        } else {
            0xFFFF
        },
        Decoded::Finite { negative, mantissa, exponent } => {
            if negative || remote == 0 || mantissa == 0 {
                0
            } else if window == 0 {
                0xFFFF
            } else if exponent >= 0 {
                let whole: u64 = whole_part_capped(mantissa, exponent, 0x1_0000_0000_0000);
                if whole >= 0x1_0000_0000_0000 {
                    proof {
                        let value = (mantissa * pow2(exponent as nat)) as int;
                        assert(value * remote >= 0x1_0000 * window) by (nonlinear_arith)
                            requires
                                value >= 0x1_0000_0000_0000,
                                remote >= 1,
                                window < 0x1_0000_0000,
                        ;
                        lemma_div_is_ordered(0x1_0000 * window, value * remote, window as int);
                        lemma_div_multiples_vanish(0x1_0000, window as int);
                        lemma_mul_is_commutative(0x1_0000, window as int);
                    }
                    0xFFFF
                } else {
                    assert(whole * remote < 0x1_0000_0000_0000 * 0x1_0000) by (nonlinear_arith)
                        requires
                            whole < 0x1_0000_0000_0000,
                            remote < 0x1_0000,
                    ;
                    let scaled: u64 = whole * (remote as u64) / (window as u64);
                    if scaled <= 0xFFFF {
                        scaled as u16
                    } else {
                        0xFFFF
                    }
                }
            } else if exponent <= -81 {
                proof {
                    lemma2_to64_rest();
                    lemma_pow2_adds(40, 41);
                    if -exponent > 81 {
                        lemma_pow2_strictly_increases(81, (-exponent) as nat);
                    }
                    let unit = pow2((-exponent) as nat) as int;
                    assert(mantissa * remote < window * unit) by (nonlinear_arith)
                        requires
                            mantissa < 0x20_0000_0000_0000,
                            remote < 0x1_0000,
                            window >= 1,
                            unit >= 0x20_0000_0000_0000 * 0x1_0000,
                    ;
                    assert(0 <= mantissa * remote) by (nonlinear_arith);
                    lemma_basic_div((mantissa * remote) as int, window * unit);
                }
                0
            } else {
                let unit: u128 = power_of_two((-exponent) as u32);
                proof {
                    lemma2_to64_rest();
                    lemma_pow2_adds(40, 40);
                    if -exponent < 80 {
                        lemma_pow2_strictly_increases((-exponent) as nat, 80);
                    }
                    assert(window * unit <= 0x1_0000_0000 * 0x1_0000_0000_0000_0000_0000)
                        by (nonlinear_arith)
                        requires
                            window <= 0x1_0000_0000,
                            unit <= 0x1_0000_0000_0000_0000_0000,
                    ;
                    assert(mantissa * remote < 0x20_0000_0000_0000 * 0x1_0000) by (nonlinear_arith)
                        requires
                            mantissa < 0x20_0000_0000_0000,
                            remote < 0x1_0000,
                    ;
                    assert(window * unit >= 1) by (nonlinear_arith)
                        requires
                            window >= 1,
                            unit >= 1,
                    ;
                }
                let divisor: u128 = (window as u128) * unit;
                let scaled: u128 = (mantissa as u128) * (remote as u128) / divisor;
                if scaled <= 0xFFFF {
                    scaled as u16
                } else {
                    0xFFFF
                }
            }
        },
    }
}

/// Where the window is as large as the remote surface, scaling changes
/// nothing: the remote coordinate is the position itself, cut to its whole
/// part.
pub proof fn lemma_identity_scale(position: Binary64, size: u16)
    requires
        size > 0,
    ensures
        scale_coordinate_spec(position, size as u32, size) == position.truncated(),
{
    if let Decoded::Finite { negative, mantissa, exponent } = position.decoded() {
        if negative {
        } else if mantissa == 0 {
            if exponent >= 0 {
                assert(0 * pow2(exponent as nat) == 0);
            } else {
                lemma_pow2_pos((-exponent) as nat);
                lemma_basic_div(0, pow2((-exponent) as nat) as int);
            }
        } else if exponent >= 0 {
            let value = (mantissa * pow2(exponent as nat)) as int;
            lemma_div_multiples_vanish(value, size as int);
            lemma_mul_is_commutative(value, size as int);
        } else {
            let unit = pow2((-exponent) as nat) as int;
            lemma_pow2_pos((-exponent) as nat);
            lemma_div_multiples_vanish(mantissa as int, size as int);
            lemma_mul_is_commutative(mantissa as int, size as int);
            assert(0 <= mantissa * size) by (nonlinear_arith);
            lemma_div_denominator((mantissa * size) as int, size as int, unit);
        }
    }
}

} // verus!
