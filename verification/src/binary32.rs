//! IEEE 754 binary32 numbers, held as their 32-bit patterns.
//!
//! The analysis data of a song arrives as single-precision numbers of seconds,
//! decibels and coefficients, and leaves for the GPU in the same form. This
//! module never computes with them as such. It reads a pattern's three fields,
//! turns a number of seconds into whole nanoseconds for the comparisons with
//! the song position, and writes a pattern out as four little-endian bytes.

use vstd::prelude::*;
use vstd::arithmetic::div_mod::{
    lemma_basic_div, lemma_div_basics, lemma_fundamental_div_mod, lemma_fundamental_div_mod_converse,
    lemma_mod_bound, lemma_small_mod,
};
use vstd::arithmetic::mul::{
    lemma_mul_inequality, lemma_mul_is_commutative, lemma_mul_unary_negation,
};
use vstd::arithmetic::power2::{
    lemma2_to64_rest, lemma_pow2_pos, lemma_pow2_strictly_increases, pow2,
};
use vstd::bits::{lemma_u64_mul_pow2_le_max_iff_max_shr, lemma_u64_shl_is_mul, lemma_u64_shr_is_div};

verus! {

/// Nanoseconds in one second.
pub const NANOS_PER_SECOND: u64 = 1_000_000_000;

/// The largest count of nanoseconds that a time can hold.
pub const MAX_NANOS: i64 = 0x7fff_ffff_ffff_ffff;

/// A binary32 number as its bit pattern: one sign bit, eight exponent bits,
/// twenty-three fraction bits, from the most significant bit down.
#[derive(Clone, Copy, Debug, PartialEq, Eq, Hash)]
pub struct Binary32 {
    pub bits: u32,
}

impl Binary32 {
    /// The sign bit: set for negative numbers and for negative zero.
    pub open spec fn sign(self) -> bool {
        self.bits >= 0x8000_0000
    }

    /// The biased exponent, `0` to `255`.
    pub open spec fn exponent(self) -> nat {
        (self.bits as nat / 0x80_0000) % 256
    }

    /// The fraction, `0` to `2^23 - 1`.
    pub open spec fn fraction(self) -> nat {
        self.bits as nat % 0x80_0000
    }

    /// Whether the pattern encodes no number at all.
    pub open spec fn is_nan(self) -> bool {
        self.exponent() == 255 && self.fraction() != 0
    }

    /// The integer `m` of the magnitude `m * 2^e`: the fraction, with the
    /// implicit leading one unless the number is subnormal.
    pub open spec fn significand(self) -> nat {
        if self.exponent() == 0 {
            self.fraction()
        } else {
            self.fraction() + 0x80_0000
        }
    }

    /// The numerator of the number, read as seconds, in nanoseconds. What
    /// the pattern encodes is exactly `numerator / denominator` nanoseconds:
    /// the significand times `10^9 * 2^(exponent - 150)`, with the exponent
    /// of a subnormal number taken as `1`, and with the sign.
    pub open spec fn numerator(self) -> int {
        let magnitude = if self.exponent() >= 150 {
            self.significand() * NANOS_PER_SECOND as nat * pow2((self.exponent() - 150) as nat)
        } else {
            self.significand() * NANOS_PER_SECOND as nat
        };
        if self.sign() {
            -(magnitude as int)
        } else {
            magnitude as int
        }
    }

    /// The denominator of the number in nanoseconds: a power of two.
    pub open spec fn denominator(self) -> int {
        if self.exponent() >= 150 {
            1
        } else if self.exponent() >= 1 {
            pow2((150 - self.exponent()) as nat) as int
        } else {
            pow2(149) as int
        }
    }

    /// The number read as seconds, in whole nanoseconds, rounded down:
    /// the largest integer that is not above it. An infinity comes out beyond
    /// every `i64`.
    pub open spec fn whole_nanos(self) -> int {
        self.numerator() / self.denominator()
    }

    /// The number read as seconds, in nanoseconds: rounded down, held within
    /// `-MAX_NANOS ..= MAX_NANOS`, and zero where there is no number.
    pub open spec fn nanos(self) -> int {
        if self.is_nan() {
            0
        } else if self.whole_nanos() > MAX_NANOS {
            MAX_NANOS as int
        } else if self.whole_nanos() < -MAX_NANOS {
            -MAX_NANOS
        } else {
            self.whole_nanos()
        }
    }

    /// The four bytes of the pattern, least significant first.
    pub open spec fn le_bytes(self) -> Seq<u8> {
        seq![
            (self.bits as nat % 256) as u8,
            (self.bits as nat / 0x100 % 256) as u8,
            (self.bits as nat / 0x1_0000 % 256) as u8,
            (self.bits as nat / 0x100_0000 % 256) as u8,
        ]
    }

    /// Wraps a bit pattern.
    pub fn from_bits(bits: u32) -> (r: Self)
        ensures
            r.bits == bits,
    {
        Binary32 { bits }
    }

    /// The bit pattern.
    pub fn to_bits(self) -> (r: u32)
        ensures
            r == self.bits,
    {
        self.bits
    }

    /// Whether the pattern encodes no number.
    pub fn has_no_value(self) -> (r: bool)
        ensures
            r == self.is_nan(),
    {
        let exponent: u32 = (self.bits / 0x80_0000) % 256;
        let fraction: u32 = self.bits % 0x80_0000;
        exponent == 255 && fraction != 0
    }

    /// The number read as seconds, in nanoseconds.
    pub fn to_nanos(self) -> (r: i64)
        ensures
            r == self.nanos(),
            -MAX_NANOS <= r <= MAX_NANOS,
    {
        let exponent: u32 = (self.bits / 0x80_0000) % 256;
        let fraction: u32 = self.bits % 0x80_0000;
        if exponent == 255 && fraction != 0 {
            return 0;
        }
        let negative: bool = self.bits >= 0x8000_0000;
        let significand: u64 = if exponent == 0 {
            fraction as u64
        } else {
            fraction as u64 + 0x80_0000
        };
        let scaled: u64 = significand * NANOS_PER_SECOND;
        if exponent >= 150 {
            let magnitude: i64 = scale_up(scaled, exponent - 150);
            assert(self.whole_nanos() == self.numerator()) by {
                lemma_div_basics(self.numerator());
            }
            if negative {
                -magnitude
            } else {
                magnitude
            }
        } else {
            let shift: u32 = if exponent >= 1 {
                150 - exponent
            } else {
                149
            };
            let (quotient, exact) = scale_down(scaled, shift);
            proof {
                lemma_pow2_pos(shift as nat);
                lemma_negated_quotient(scaled as int, pow2(shift as nat) as int);
            }
            if !negative {
                quotient as i64
            } else if exact {
                -(quotient as i64)
            } else {
                -(quotient as i64) - 1
            }
        }
    }

    /// The four bytes of the pattern, least significant first.
    pub fn to_le_bytes(self) -> (r: [u8; 4])
        ensures
            r@ == self.le_bytes(),
    {
        let r: [u8; 4] = [
            (self.bits % 256) as u8,
            (self.bits / 0x100 % 256) as u8,
            (self.bits / 0x1_0000 % 256) as u8,
            (self.bits / 0x100_0000 % 256) as u8,
        ];
        assert(r@ =~= self.le_bytes());
        r
    }
}

/// `scaled * 2^shift`, held at `MAX_NANOS`.
fn scale_up(scaled: u64, shift: u32) -> (r: i64)
    requires
        0 < scaled,
    ensures
        0 <= r <= MAX_NANOS,
        scaled * pow2(shift as nat) <= MAX_NANOS ==> r == scaled * pow2(shift as nat),
        scaled * pow2(shift as nat) > MAX_NANOS ==> r == MAX_NANOS,
{
    if shift >= 64 {
        proof {
            lemma2_to64_rest();
            lemma_pow2_strictly_increases(63, shift as nat);
            lemma_mul_inequality(1, scaled as int, pow2(shift as nat) as int);
        }
        return MAX_NANOS;
    }
    let limit: u64 = MAX_NANOS as u64;
    proof {
        lemma_u64_mul_pow2_le_max_iff_max_shr(scaled, shift as u64, limit);
    }
    if scaled <= (limit >> shift as u64) {
        proof {
            lemma_u64_shl_is_mul(scaled, shift as u64);
        }
        (scaled << shift as u64) as i64
    } else {
        MAX_NANOS
    }
}

/// `scaled / 2^shift`, rounded down, and whether nothing was lost.
fn scale_down(scaled: u64, shift: u32) -> (r: (u64, bool))
    requires
        scaled < 0x40_0000_0000_0000,
    ensures
        r.0 == scaled as int / pow2(shift as nat) as int,
        r.1 == (scaled as int % pow2(shift as nat) as int == 0),
        r.0 <= scaled,
{
    if shift >= 64 {
        proof {
            lemma2_to64_rest();
            lemma_pow2_strictly_increases(54, shift as nat);
            lemma_basic_div(scaled as int, pow2(shift as nat) as int);
            lemma_small_mod(scaled as nat, pow2(shift as nat));
        }
        return (0, scaled == 0);
    }
    let quotient: u64 = scaled >> shift as u64;
    proof {
        let d = pow2(shift as nat) as int;
        lemma_u64_shr_is_div(scaled, shift as u64);
        lemma_pow2_pos(shift as nat);
        lemma_fundamental_div_mod(scaled as int, d);
        lemma_mul_is_commutative(d, quotient as int);
        assert(quotient * d <= scaled);
        assert(quotient <= scaled) by (nonlinear_arith)
            requires
                quotient * d <= scaled,
                d > 0,
        ;
        lemma_u64_shl_is_mul(quotient, shift as u64);
    }
    (quotient, (quotient << shift as u64) == scaled)
}

/// The three fields make up the pattern.
pub proof fn lemma_fields_make_the_pattern(x: Binary32)
    ensures
        x.exponent() <= 255,
        x.fraction() < 0x80_0000,
        x.bits == (if x.sign() { 0x8000_0000nat } else { 0nat }) + x.exponent() * 0x80_0000
            + x.fraction(),
{
}

/// Rounding down changes no comparison with a whole number of nanoseconds:
/// the rounded number lies below `p` exactly when the number itself does, and
/// at or above `p` exactly when the number itself does.
pub proof fn lemma_rounding_keeps_order(x: Binary32, p: int)
    ensures
        x.denominator() > 0,
        x.whole_nanos() < p <==> x.numerator() < p * x.denominator(),
        p <= x.whole_nanos() <==> p * x.denominator() <= x.numerator(),
{
    let n = x.numerator();
    let d = x.denominator();
    if x.exponent() < 150 {
        lemma_pow2_pos((150 - x.exponent()) as nat);
        lemma_pow2_pos(149);
    }
    lemma_fundamental_div_mod(n, d);
    lemma_mod_bound(n, d);
    let q = n / d;
    lemma_mul_is_commutative(d, q);
    if q < p {
        lemma_mul_inequality(q + 1, p, d);
        assert((q + 1) * d == q * d + d) by (nonlinear_arith);
    } else {
        lemma_mul_inequality(p, q, d);
    }
}

/// Rounding down the quotient of a negated number: one below the negated
/// quotient, unless the division is exact.
proof fn lemma_negated_quotient(x: int, d: int)
    requires
        0 <= x,
        0 < d,
    ensures
        x % d == 0 ==> (-x) / d == -(x / d),
        x % d != 0 ==> (-x) / d == -(x / d) - 1,
{
    let q = x / d;
    let r = x % d;
    lemma_fundamental_div_mod(x, d);
    lemma_mod_bound(x, d);
    lemma_mul_is_commutative(d, q);
    if r == 0 {
        lemma_mul_unary_negation(q, d);
        lemma_fundamental_div_mod_converse(-x, d, -q, 0);
    } else {
        assert((-q - 1) * d == -(q * d) - d) by (nonlinear_arith);
        lemma_fundamental_div_mod_converse(-x, d, -q - 1, d - r);
    }
}

} // verus!
