//! Page lengths in points and their size in pixels at a resolution.
//!
//! A renderer measures a page in typographic points, 72 to the inch, as a
//! single-precision binary number. Such a number is a significand times a
//! power of two, so its product with a resolution is an exact fraction, and
//! the nearest whole number of pixels is computed here in integers.

use vstd::arithmetic::div_mod::{lemma_basic_div, lemma_fundamental_div_mod};
use vstd::arithmetic::power2::{
    lemma2_to64, lemma2_to64_rest, lemma_pow2_pos, lemma_pow2_strictly_increases,
    lemma_pow2_unfold, pow2,
};
use vstd::prelude::*;

verus! {

/// Typographic points in one inch.
pub const POINTS_PER_INCH: u64 = 72;

/// The largest pixel count that a renderer takes for one side of a page.
pub const MAX_PIXELS: u32 = 0x7fff_ffff;

/// The whole number nearest to `num / den`; a fraction of one half goes up.
pub open spec fn round_half_up(num: nat, den: nat) -> nat
    recommends
        den > 0,
{
    (2 * num + den) / (2 * den)
}

/// A length in points, held as the bit pattern of the single-precision number
/// that measures it: one sign bit, eight exponent bits, twenty-three fraction
/// bits.
#[derive(Clone, Copy, Debug, PartialEq, Eq)]
pub struct PagePoints {
    pub bits: u32,
}

impl PagePoints {
    /// The sign bit is set.
    pub open spec fn is_negative(self) -> bool {
        self.bits >= 0x8000_0000
    }

    /// The eight exponent bits.
    pub open spec fn exponent_field(self) -> nat {
        (self.bits as nat / 0x80_0000) % 256
    }

    /// The twenty-three fraction bits.
    pub open spec fn fraction_field(self) -> nat {
        self.bits as nat % 0x80_0000
    }

    /// The pattern is not a number.
    pub open spec fn is_nan(self) -> bool {
        self.exponent_field() == 255 && self.fraction_field() != 0
    }

    /// The pattern is an infinity.
    pub open spec fn is_infinite(self) -> bool {
        self.exponent_field() == 255 && self.fraction_field() == 0
    }

    /// The integer that the power of two scales; the magnitude of the length
    /// is `significand() * 2^exponent()`.
    pub open spec fn significand(self) -> nat {
        if self.exponent_field() == 0 {
            self.fraction_field()
        } else {
            0x80_0000 + self.fraction_field()
        }
    }

    /// The power of two that scales the significand.
    pub open spec fn exponent(self) -> int {
        if self.exponent_field() == 0 {
            -149
        } else {
            self.exponent_field() - 150
        }
    }

    /// The numerator of the magnitude of a finite length, over [`Self::denominator`].
    pub open spec fn numerator(self) -> nat {
        if self.exponent() >= 0 {
            self.significand() * pow2(self.exponent() as nat)
        } else {
            self.significand()
        }
    }

    /// The denominator of the magnitude of a finite length: a power of two.
    pub open spec fn denominator(self) -> nat {
        if self.exponent() >= 0 {
            1
        } else {
            pow2((-self.exponent()) as nat)
        }
    }

    /// The pixels that the length covers at `dpi` pixels to the inch:
    /// `points * dpi / 72`, rounded to the nearest whole number and held to
    /// the range from 0 to [`MAX_PIXELS`]. What is not a number, or negative,
    /// covers no pixel.
    pub open spec fn pixels_at(self, dpi: u16) -> nat {
        if self.is_nan() || self.is_negative() {
            0
        } else if self.is_infinite() {
            MAX_PIXELS as nat
        } else {
            let nearest = round_half_up(
                self.numerator() * dpi as nat,
                self.denominator() * POINTS_PER_INCH as nat,
            );
            if nearest > MAX_PIXELS {
                MAX_PIXELS as nat
            } else {
                nearest
            }
        }
    }

    /// The length with the given bit pattern.
    pub fn from_bits(bits: u32) -> (points: PagePoints)
        ensures
            points.bits == bits,
    {
        PagePoints { bits }
    }

    /// The pixels that the length covers at `dpi` pixels to the inch.
    pub fn to_pixels(&self, dpi: u16) -> (pixels: u32)
        ensures
            pixels == self.pixels_at(dpi),
    {
        let bits = self.bits;
        let exponent_field: u32 = (bits / 0x80_0000) % 256;
        let fraction: u32 = bits % 0x80_0000;
        if bits >= 0x8000_0000 || (exponent_field == 255 && fraction != 0) {
            return 0;
        }
        if exponent_field == 255 {
            return MAX_PIXELS;
        }
        let significand: u64 = if exponent_field == 0 {
            fraction as u64
        } else {
            fraction as u64 + 0x80_0000
        };
        assert(significand * dpi <= 0xff_ffff * 0xffff) by (nonlinear_arith)
            requires
                significand <= 0xff_ffff,
                dpi <= 0xffff,
        ;
        let scaled: u64 = significand * (dpi as u64);
        let ghost den = self.denominator() * POINTS_PER_INCH as nat;
        proof {
            lemma_pow2_pos((-self.exponent()) as nat);
            assert(den > 0) by (nonlinear_arith)
                requires
                    den == self.denominator() * 72,
                    self.denominator() > 0,
            ;
        }
        if scaled == 0 {
            proof {
                assert(self.numerator() * dpi as nat == 0) by (nonlinear_arith)
                    requires
                        significand * dpi == 0,
                        self.numerator() == significand || self.numerator() == significand * pow2(
                            self.exponent() as nat,
                        ),
                ;
                lemma_basic_div(den as int, 2 * den as int);
            }
            return 0;
        }
        if exponent_field >= 150 {
            let shift: u32 = exponent_field - 150;
            if shift >= 15 {
                proof {
                    lemma_large_length_is_capped(significand as nat, shift as nat, dpi as nat);
                }
                return MAX_PIXELS;
            }
            let factor = power_of_two(shift);
            proof {
                lemma2_to64();
                lemma_pow2_strictly_increases(shift as nat, 15);
                assert(scaled * factor <= 0xff_ffff * 0xffff * 0x8000) by (nonlinear_arith)
                    requires
                        scaled <= 0xff_ffff * 0xffff,
                        factor <= 0x8000,
                ;
                assert(self.numerator() * dpi as nat == scaled * factor) by (nonlinear_arith)
                    requires
                        self.numerator() == significand * factor,
                        scaled == significand * dpi,
                ;
            }
            let product: u64 = scaled * factor;
            let nearest: u64 = (2 * product + 72) / 144;
            if nearest > MAX_PIXELS as u64 {
                MAX_PIXELS
            } else {
                nearest as u32
            }
        } else {
            let shift: u32 = if exponent_field == 0 {
                149
            } else {
                150 - exponent_field
            };
            if shift >= 41 {
                proof {
                    lemma2_to64_rest();
                    if shift > 41 {
                        lemma_pow2_strictly_increases(41, shift as nat);
                    }
                    assert(2 * scaled + den < 2 * den) by (nonlinear_arith)
                        requires
                            den == pow2(shift as nat) * 72,
                            pow2(shift as nat) >= 0x200_0000_0000,
                            scaled <= 0xff_ffff * 0xffff,
                    ;
                    lemma_basic_div(2 * scaled + den, 2 * den as int);
                }
                return 0;
            }
            let factor = power_of_two(shift);
            proof {
                lemma2_to64_rest();
                lemma_pow2_strictly_increases(shift as nat, 41);
                assert(72 * factor <= 72 * 0x200_0000_0000) by (nonlinear_arith)
                    requires
                        factor <= 0x200_0000_0000,
                ;
                assert(den == 72 * factor) by (nonlinear_arith)
                    requires
                        den == factor * 72,
                ;
            }
            let divisor: u64 = 72 * factor;
            let nearest: u64 = (2 * scaled + divisor) / (2 * divisor);
            if nearest > MAX_PIXELS as u64 {
                MAX_PIXELS
            } else {
                nearest as u32
            }
        }
    }
}

/// The pixel count of a length is the whole number nearest to
/// `points * dpi / 72`: it differs from that fraction by at most one half.
/// This holds of every finite, non-negative length whose pixel count stays
/// below [`MAX_PIXELS`]. With `num / den` for `points * dpi / 72`, the claim
/// reads `pixels - 1/2 <= num / den < pixels + 1/2`.
pub proof fn lemma_pixels_are_nearest(points: PagePoints, dpi: u16)
    requires
        !points.is_nan(),
        !points.is_infinite(),
        !points.is_negative(),
        points.pixels_at(dpi) < MAX_PIXELS,
    ensures
        ({
            let num = points.numerator() * dpi as nat;
            let den = points.denominator() * POINTS_PER_INCH as nat;
            let pixels = points.pixels_at(dpi);
            &&& den > 0
            &&& 2 * pixels * den <= 2 * num + den
            &&& 2 * num + den < 2 * pixels * den + 2 * den
        }),
{
    let num = points.numerator() * dpi as nat;
    let den = points.denominator() * POINTS_PER_INCH as nat;
    let pixels = points.pixels_at(dpi);
    lemma_pow2_pos((-points.exponent()) as nat);
    assert(den > 0) by (nonlinear_arith)
        requires
            den == points.denominator() * 72,
            points.denominator() > 0,
    ;
    assert(pixels == (2 * num + den) / (2 * den));
    lemma_fundamental_div_mod((2 * num + den) as int, (2 * den) as int);
    assert(2 * pixels * den == (2 * den) * pixels) by (nonlinear_arith);
}

/// Two to the power `exponent`.
fn power_of_two(exponent: u32) -> (power: u64)
    requires
        exponent < 64,
    ensures
        power == pow2(exponent as nat),
{
    let mut power: u64 = 1;
    let mut done: u32 = 0;
    proof {
        lemma2_to64();
    }
    while done < exponent
        invariant
            done <= exponent < 64,
            power == pow2(done as nat),
        decreases exponent - done,
    {
        proof {
            lemma_pow2_unfold((done + 1) as nat);
            lemma_pow2_strictly_increases((done + 1) as nat, 64);
            lemma2_to64();
        }
        power = power * 2;
        done = done + 1;
    }
    power
}

/// A length of at least `2^23 * 2^15` points covers more than [`MAX_PIXELS`]
/// pixels at any resolution of one pixel to the inch or more.
proof fn lemma_large_length_is_capped(significand: nat, shift: nat, dpi: nat)
    requires
        significand >= 0x80_0000,
        shift >= 15,
        dpi >= 1,
    ensures
        round_half_up(significand * pow2(shift) * dpi, 72) > MAX_PIXELS,
{
    lemma2_to64();
    if shift > 15 {
        lemma_pow2_strictly_increases(15, shift);
    }
    let product = significand * pow2(shift) * dpi;
    assert(product >= 0x80_0000 * 0x8000) by (nonlinear_arith)
        requires
            product == significand * pow2(shift) * dpi,
            significand >= 0x80_0000,
            pow2(shift) >= 0x8000,
            dpi >= 1,
    ;
    lemma_fundamental_div_mod((2 * product + 72) as int, 144);
}

} // verus!
