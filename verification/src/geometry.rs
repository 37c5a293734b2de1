//! Coordinates, sizes and colors.
//!
//! The harness passes floating-point coordinates on and never computes with
//! them, so it keeps them as the bits of their IEEE 754 encoding. The one
//! number it derives is the pixel size of the window: see
//! [`Float64::to_u32`].

use vstd::arithmetic::power2::pow2;
use vstd::prelude::*;

verus! {

/// The weight of the hidden leading bit of a normal number's significand.
pub const HIDDEN_BIT: u64 = 0x10_0000_0000_0000;

/// The lowest encoding whose sign bit is set.
pub const SIGN_BIT: u64 = 0x8000_0000_0000_0000;

/// A double-precision number, by its IEEE 754 encoding.
#[derive(Clone, Copy, Debug, PartialEq, Eq, Structural)]
pub struct Float64 {
    pub bits: u64,
}

impl Float64 {
    /// The sign bit is set.
    pub open spec fn is_sign_negative(self) -> bool {
        self.bits >= SIGN_BIT
    }

    /// The biased exponent, eleven bits wide.
    pub open spec fn exponent_field(self) -> int {
        (self.bits as int / HIDDEN_BIT as int) % 2048
    }

    /// The stored fraction, fifty-two bits wide.
    pub open spec fn fraction_field(self) -> int {
        self.bits as int % HIDDEN_BIT as int
    }

    pub open spec fn is_nan(self) -> bool {
        self.exponent_field() == 2047 && self.fraction_field() != 0
    }

    pub open spec fn is_infinite(self) -> bool {
        self.exponent_field() == 2047 && self.fraction_field() == 0
    }

    /// The significand as an integer. The magnitude of a finite number is
    /// `significand * 2^scale`.
    pub open spec fn significand(self) -> int {
        if self.exponent_field() == 0 {
            self.fraction_field()
        } else {
            HIDDEN_BIT + self.fraction_field()
        }
    }

    /// The power of two that scales the significand.
    pub open spec fn scale(self) -> int {
        if self.exponent_field() == 0 {
            -1074
        } else {
            self.exponent_field() - 1075
        }
    }

    /// The integer part of the magnitude of a finite number.
    pub open spec fn integer_part(self) -> int {
        if self.scale() >= 0 {
            self.significand() * pow2(self.scale() as nat) as int
        } else {
            self.significand() / pow2((-self.scale()) as nat) as int
        }
    }

    /// The value of the number converted to `u32`: rounded toward zero and
    /// clamped to the range of the type, with NaN becoming zero.
    pub open spec fn as_u32(self) -> u32 {
        if self.is_nan() || self.is_sign_negative() {
            0
        } else if self.is_infinite() || self.integer_part() > u32::MAX {
            u32::MAX
        } else {
            self.integer_part() as u32
        }
    }

    /// Converts the number to `u32`, rounding toward zero and saturating.
    pub fn to_u32(self) -> (value: u32)
        ensures
            value == self.as_u32(),
    {
        let exponent: u64 = (self.bits / HIDDEN_BIT) % 2048;
        let fraction: u64 = self.bits % HIDDEN_BIT;
        if self.bits >= SIGN_BIT || (exponent == 2047 && fraction != 0) {
            0
        } else if exponent < 1023 {
            proof {
                lemma_below_one(self);
            }
            0
        } else if exponent >= 1055 {
            proof {
                if exponent != 2047 {
                    lemma_above_range(self);
                }
            }
            u32::MAX
        } else {
            let shift: u64 = 1075 - exponent;
            let significand: u64 = HIDDEN_BIT + fraction;
            let value: u64 = significand >> shift;
            proof {
                vstd::bits::lemma_u64_shr_is_div(significand, shift);
                assert(value == self.integer_part());
                assert(significand >> shift <= 0xffff_ffff) by (bit_vector)
                    requires
                        21 <= shift <= 52,
                        significand < 0x20_0000_0000_0000,
                ;
            }
            value as u32
        }
    }
}

/// A number whose exponent is below the bias has no integer part.
proof fn lemma_below_one(x: Float64)
    requires
        x.exponent_field() < 1023,
    ensures
        x.integer_part() == 0,
{
    let down = (-x.scale()) as nat;
    assert(pow2(53) == 0x20_0000_0000_0000) by {
        vstd::arithmetic::power2::lemma2_to64_rest();
    }
    if down > 53 {
        vstd::arithmetic::power2::lemma_pow2_strictly_increases(53, down);
    }
    vstd::arithmetic::div_mod::lemma_basic_div(x.significand(), pow2(down) as int);
}

/// A finite number whose exponent is thirty-two or more above the bias is
/// beyond `u32`.
proof fn lemma_above_range(x: Float64)
    requires
        1055 <= x.exponent_field() < 2047,
    ensures
        x.integer_part() > u32::MAX,
{
    let s = x.significand();
    if x.scale() >= 0 {
        let up = pow2(x.scale() as nat) as int;
        vstd::arithmetic::power2::lemma_pow2_pos(x.scale() as nat);
        assert(s * up >= s) by (nonlinear_arith)
            requires
                up >= 1,
                s >= 0,
        ;
    } else {
        let down = (-x.scale()) as nat;
        let d = pow2(down) as int;
        vstd::arithmetic::power2::lemma_pow2_pos(down);
        assert(pow2(20) == 0x10_0000) by {
            vstd::arithmetic::power2::lemma2_to64();
        }
        if down < 20 {
            vstd::arithmetic::power2::lemma_pow2_strictly_increases(down, 20);
        }
        assert(s / d >= 0x1_0000_0000) by (nonlinear_arith)
            requires
                0 < d <= 0x10_0000,
                s >= 0x10_0000_0000_0000,
        ;
    }
}

/// A number that is not negative and not beyond `u32` is converted to the whole
/// number that it is, or to the one just below it.
pub proof fn law_conversion_rounds_down(x: Float64)
    requires
        !x.is_sign_negative(),
        !x.is_nan(),
        !x.is_infinite(),
        x.integer_part() <= u32::MAX,
    ensures
        x.scale() >= 0 ==> x.as_u32() == x.significand() * pow2(x.scale() as nat),
        x.scale() < 0 ==> ({
            let one = pow2((-x.scale()) as nat) as int;
            x.as_u32() * one <= x.significand() < (x.as_u32() + 1) * one
        }),
{
    let s = x.significand();
    if x.scale() < 0 {
        let one = pow2((-x.scale()) as nat) as int;
        vstd::arithmetic::power2::lemma_pow2_pos((-x.scale()) as nat);
        vstd::arithmetic::div_mod::lemma_fundamental_div_mod(s, one);
        let n = s / one;
        assert(n >= 0) by (nonlinear_arith)
            requires
                n == s / one,
                s >= 0,
                one > 0,
        ;
        assert(n * one <= s < (n + 1) * one) by (nonlinear_arith)
            requires
                s == one * n + s % one,
                0 <= s % one < one,
        ;
    } else {
        let up = pow2(x.scale() as nat) as int;
        assert(s * up >= 0) by (nonlinear_arith)
            requires
                s >= 0,
                up >= 0,
        ;
    }
}

/// A single-precision number, by its IEEE 754 encoding.
#[derive(Clone, Copy, Debug, PartialEq, Eq, Structural)]
pub struct Float32 {
    pub bits: u32,
}

/// A color: red, green, blue and alpha, each from zero to one.
#[derive(Clone, Copy, Debug, PartialEq, Eq, Structural)]
pub struct Color {
    pub red: Float32,
    pub green: Float32,
    pub blue: Float32,
    pub alpha: Float32,
}

/// A point in the window, in logical pixels.
#[derive(Clone, Copy, Debug, PartialEq, Eq, Structural)]
pub struct Point {
    pub x: Float64,
    pub y: Float64,
}

/// A displacement, in logical pixels.
#[derive(Clone, Copy, Debug, PartialEq, Eq, Structural)]
pub struct Vec2 {
    pub x: Float64,
    pub y: Float64,
}

/// A size, in logical pixels.
#[derive(Clone, Copy, Debug, PartialEq, Eq, Structural)]
pub struct Size {
    pub width: Float64,
    pub height: Float64,
}

/// A position in logical pixels, as events report it.
#[derive(Clone, Copy, Debug, PartialEq, Eq, Structural)]
pub struct LogicalPosition {
    pub x: Float64,
    pub y: Float64,
}

/// An extent in logical pixels, as events report it.
#[derive(Clone, Copy, Debug, PartialEq, Eq, Structural)]
pub struct LogicalSize {
    pub width: Float64,
    pub height: Float64,
}

/// A position in the pixels of the screen.
#[derive(Clone, Copy, Debug, PartialEq, Eq, Structural)]
pub struct PhysicalPosition {
    pub x: Float64,
    pub y: Float64,
}

/// A whole number of screen pixels in each direction.
#[derive(Clone, Copy, Debug, PartialEq, Eq, Structural)]
pub struct PhysicalSize {
    pub width: u32,
    pub height: u32,
}

impl Size {
    /// The size in whole pixels, each side rounded toward zero and clamped to
    /// `u32`.
    pub open spec fn as_physical(self) -> PhysicalSize {
        PhysicalSize { width: self.width.as_u32(), height: self.height.as_u32() }
    }

    /// Drops the fraction of each side.
    pub fn to_physical(self) -> (size: PhysicalSize)
        ensures
            size == self.as_physical(),
    {
        PhysicalSize { width: self.width.to_u32(), height: self.height.to_u32() }
    }
}

/// A number from `n` on and below `n + 1` is converted to `n`, for every whole
/// number `n` of thirty-two bits but zero. In IEEE 754 the numbers from
/// `2^e` on and below `2^(e+1)` are evenly spaced: there are `2^(52-e)` of them
/// from one whole number to the next.
pub proof fn law_whole_numbers_are_kept(x: Float64, e: nat, n: nat)
    requires
        e <= 31,
        pow2(e) <= n < 2 * pow2(e),
        ({
            let step = pow2((52 - e) as nat);
            let encoding = (1023 + e) * 0x10_0000_0000_0000 + (n - pow2(e)) * step;
            encoding <= x.bits < encoding + step
        }),
    ensures
        x.as_u32() == n,
{
    let step = pow2((52 - e) as nat) as int;
    let low = pow2(e) as int;
    let m = n - low;
    let encoding = (1023 + e) * 0x10_0000_0000_0000 + m * step;
    let r = x.bits - encoding;
    vstd::arithmetic::power2::lemma_pow2_adds(e, (52 - e) as nat);
    assert(pow2(52) == 0x10_0000_0000_0000) by {
        vstd::arithmetic::power2::lemma2_to64_rest();
    }
    let fraction = m * step + r;
    assert(0 <= fraction < 0x10_0000_0000_0000) by (nonlinear_arith)
        requires
            fraction == m * step + r,
            0 <= r < step,
            0 <= m <= low - 1,
            low * step == 0x10_0000_0000_0000,
    ;
    vstd::arithmetic::div_mod::lemma_fundamental_div_mod_converse(
        x.bits as int,
        0x10_0000_0000_0000,
        1023 + e as int,
        fraction,
    );
    assert(x.exponent_field() == 1023 + e);
    assert(x.significand() == n * step + r) by {
        assert(low * step + m * step == n * step) by (nonlinear_arith)
            requires
                n == low + m,
        ;
    }
    assert(x.scale() == e - 52);
    vstd::arithmetic::div_mod::lemma_fundamental_div_mod_converse(
        x.significand(),
        step,
        n as int,
        r,
    );
    assert(x.integer_part() == n);
    assert(pow2(31) == 0x8000_0000) by {
        vstd::arithmetic::power2::lemma2_to64();
    }
    if e < 31 {
        vstd::arithmetic::power2::lemma_pow2_strictly_increases(e, 31);
    }
}

/// A number below one is converted to zero. One that is beyond `u32`, the
/// infinite one among them, is converted to the largest `u32`. What is not a
/// number or has its sign bit set is converted to zero.
pub proof fn law_other_numbers_are_clamped(x: Float64)
    ensures
        x.bits < 0x3ff0_0000_0000_0000 ==> x.as_u32() == 0,
        0x41f0_0000_0000_0000 <= x.bits <= 0x7ff0_0000_0000_0000 ==> x.as_u32() == 0xffff_ffff,
        x.bits > 0x7ff0_0000_0000_0000 ==> x.as_u32() == 0,
{
    let e = x.bits as int / 0x10_0000_0000_0000;
    if x.bits < 0x3ff0_0000_0000_0000 {
        assert(e < 1023);
        lemma_below_one(x);
    } else if 0x41f0_0000_0000_0000 <= x.bits <= 0x7ff0_0000_0000_0000 {
        if x.bits < 0x7ff0_0000_0000_0000 {
            assert(1055 <= e < 2047);
            lemma_above_range(x);
        } else {
            assert(x.is_infinite());
            assert(!x.is_nan());
        }
    } else if x.bits > 0x7ff0_0000_0000_0000 && x.bits < 0x8000_0000_0000_0000 {
        assert(e == 2047);
        assert(x.fraction_field() != 0);
    }
}

/// A size has as many pixels in each direction as its own extent in that direction
/// gives, whatever its extent in the other.
pub proof fn law_sides_are_converted_on_their_own(size: Size)
    ensures
        size.as_physical().width == size.width.as_u32(),
        size.as_physical().height == size.height.as_u32(),
{
}

} // verus!
