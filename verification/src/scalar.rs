//! Single-precision numbers held by their IEEE-754 bit pattern.
//!
//! The records of this crate weigh things with binary32 numbers. A `Scalar`
//! keeps such a number as its 32 bits, so that every rule on it (is it in
//! `[0, 1]`? what does clamping give?) is a statement on integers.

use vstd::arithmetic::mul::{
    lemma_mul_inequality, lemma_mul_left_inequality, lemma_mul_strict_inequality,
    lemma_mul_strictly_positive,
};
use vstd::arithmetic::power2::{
    lemma2_to64, lemma_pow2_adds, lemma_pow2_pos, lemma_pow2_strictly_increases,
    lemma_pow2_unfold, pow2,
};
use vstd::prelude::*;

verus! {

/// The bit pattern of `0.0`.
pub const ZERO_BITS: u32 = 0;

/// The bit pattern of `0.5`.
pub const HALF_BITS: u32 = 0x3f00_0000;

/// The bit pattern of `1.0`.
pub const ONE_BITS: u32 = 0x3f80_0000;

/// The bit pattern of `-1.0`.
pub const MINUS_ONE_BITS: u32 = 0xbf80_0000;

/// The sign bit of a binary32 pattern.
pub const SIGN_BIT: u32 = 0x8000_0000;

/// The pattern of positive infinity: every magnitude above it is a NaN.
pub const INFINITY_BITS: u32 = 0x7f80_0000;

/// The bit pattern of `16777216.0`, which is 2^24: up to it binary32 holds
/// every whole number exactly.
pub const EXACT_LIMIT: i64 = 0x100_0000;

/// The magnitude of a whole number `m >= 1` below 2^24 under the biased
/// exponent that its lowest bit would have: `m` is doubled, and the exponent
/// lowered, until `m` has 24 bits. Those are the implicit leading one and the
/// 23 bits of the fraction.
pub open spec fn normalized(m: int, exponent: int) -> int
    decreases 0x100_0000 - m,
    when m >= 1
{
    if m >= 0x80_0000 {
        exponent * 0x80_0000 + (m - 0x80_0000)
    } else {
        normalized(2 * m, exponent - 1)
    }
}

/// A binary32 number, kept as the 32 bits of its IEEE-754 encoding.
#[derive(Clone, Copy, Debug)]
pub struct Scalar {
    pub bits: u32,
}

impl Scalar {
    /// The pattern with its sign bit cleared.
    pub open spec fn magnitude(self) -> int {
        if self.bits >= SIGN_BIT {
            self.bits - SIGN_BIT
        } else {
            self.bits as int
        }
    }

    /// Whether the sign bit is set.
    pub open spec fn is_negative(self) -> bool {
        self.bits >= SIGN_BIT
    }

    /// Whether the pattern encodes a NaN.
    pub open spec fn is_nan(self) -> bool {
        self.magnitude() > INFINITY_BITS
    }

    /// The place of a number that is no NaN in the order of the reals.
    /// IEEE-754 patterns are sign-magnitude integers: of two numbers the one
    /// with the greater rank is the greater number, and `0.0` and `-0.0`
    /// share rank 0. `lemma_rank_orders_as_the_numbers` proves this of the
    /// finite numbers; the infinities lie beyond them on either side.
    pub open spec fn rank(self) -> int {
        if self.bits >= SIGN_BIT {
            -self.magnitude()
        } else {
            self.magnitude()
        }
    }

    /// `lowest <= self <= highest` as IEEE-754 compares: false of a NaN.
    pub open spec fn within(self, lowest: Scalar, highest: Scalar) -> bool {
        !self.is_nan() && lowest.rank() <= self.rank() <= highest.rank()
    }

    /// The number lies in `[0, 1]`.
    pub open spec fn in_unit_interval(self) -> bool {
        self.within(Scalar { bits: ZERO_BITS }, Scalar { bits: ONE_BITS })
    }

    /// The number lies in `[-1, 1]`.
    pub open spec fn in_signed_unit_interval(self) -> bool {
        self.within(Scalar { bits: MINUS_ONE_BITS }, Scalar { bits: ONE_BITS })
    }

    /// What clamping into `[lowest, highest]` gives: the bound that the
    /// number lies beyond, else the number itself. A NaN stays as it is, and
    /// so does `-0.0` under a lower bound of `0.0`.
    pub open spec fn clamped(self, lowest: Scalar, highest: Scalar) -> Scalar {
        if self.is_nan() {
            self
        } else if self.rank() < lowest.rank() {
            lowest
        } else if self.rank() > highest.rank() {
            highest
        } else {
            self
        }
    }

    /// The binary32 number that is the whole number `i`, for the whole
    /// numbers up to 2^24 in magnitude, each of which binary32 holds exactly.
    pub open spec fn whole(i: int) -> Option<Scalar> {
        if i == 0 {
            Some(Scalar { bits: ZERO_BITS })
        } else if -EXACT_LIMIT <= i <= EXACT_LIMIT {
            let m = if i < 0 {
                -i
            } else {
                i
            };
            let magnitude: int = if m == EXACT_LIMIT {
                151int * 0x80_0000
            } else {
                normalized(m, 150)
            };
            let sign: int = if i < 0 {
                SIGN_BIT as int
            } else {
                0
            };
            Some(Scalar { bits: (sign + magnitude) as u32 })
        } else {
            None
        }
    }

    /// The whole number `i` as a binary32 number, where it is one exactly.
    pub fn from_integer(i: i64) -> (r: Option<Scalar>)
        ensures
            r == Scalar::whole(i as int),
    {
        if i == 0 {
            return Some(Scalar { bits: ZERO_BITS });
        }
        if i < -EXACT_LIMIT || i > EXACT_LIMIT {
            return None;
        }
        let start: i64 = if i < 0 {
            -i
        } else {
            i
        };
        let magnitude: i64 = if start == EXACT_LIMIT {
            151 * 0x80_0000
        } else {
            let mut m: i64 = start;
            let mut exponent: i64 = 150;
            proof {
                lemma2_to64();
            }
            while m < 0x80_0000
                invariant
                    1 <= m < 0x100_0000,
                    0 <= 150 - exponent,
                    pow2((150 - exponent) as nat) <= m,
                    normalized(m as int, exponent as int) == normalized(start as int, 150),
                decreases 0x100_0000 - m,
            {
                proof {
                    lemma2_to64();
                    if 150 - exponent >= 23 {
                        if 150 - exponent > 23 {
                            lemma_pow2_strictly_increases(23, (150 - exponent) as nat);
                        }
                        assert(pow2(23) == 0x80_0000);
                        assert(false);
                    }
                    lemma_pow2_unfold((150 - exponent + 1) as nat);
                }
                m = 2 * m;
                exponent = exponent - 1;
            }
            proof {
                lemma2_to64();
                if 150 - exponent > 23 {
                    if 150 - exponent > 24 {
                        lemma_pow2_strictly_increases(24, (150 - exponent) as nat);
                    }
                    assert(pow2(24) == 0x100_0000);
                    assert(false);
                }
            }
            exponent * 0x80_0000 + (m - 0x80_0000)
        };
        let bits: u32 = if i < 0 {
            SIGN_BIT + (magnitude as u32)
        } else {
            magnitude as u32
        };
        Some(Scalar { bits })
    }

    pub fn from_bits(bits: u32) -> (r: Scalar)
        ensures
            r.bits == bits,
    {
        Scalar { bits }
    }

    pub fn to_bits(self) -> (r: u32)
        ensures
            r == self.bits,
    {
        self.bits
    }

    /// `0.0`
    pub fn zero() -> (r: Scalar)
        ensures
            r.bits == ZERO_BITS,
    {
        Scalar { bits: ZERO_BITS }
    }

    /// `0.5`
    pub fn half() -> (r: Scalar)
        ensures
            r.bits == HALF_BITS,
    {
        Scalar { bits: HALF_BITS }
    }

    /// `1.0`
    pub fn one() -> (r: Scalar)
        ensures
            r.bits == ONE_BITS,
    {
        Scalar { bits: ONE_BITS }
    }

    /// `-1.0`
    pub fn minus_one() -> (r: Scalar)
        ensures
            r.bits == MINUS_ONE_BITS,
    {
        Scalar { bits: MINUS_ONE_BITS }
    }

    fn magnitude_bits(self) -> (r: u32)
        ensures
            r == self.magnitude(),
    {
        if self.bits >= SIGN_BIT {
            self.bits - SIGN_BIT
        } else {
            self.bits
        }
    }

    pub fn nan(self) -> (r: bool)
        ensures
            r == self.is_nan(),
    {
        self.magnitude_bits() > INFINITY_BITS
    }

    fn rank_value(self) -> (r: i64)
        ensures
            r == self.rank(),
    {
        let m: u32 = self.magnitude_bits();
        if self.bits >= SIGN_BIT {
            -(m as i64)
        } else {
            m as i64
        }
    }

    /// Tests `lowest <= self <= highest`.
    pub fn is_within(self, lowest: Scalar, highest: Scalar) -> (r: bool)
        ensures
            r == self.within(lowest, highest),
    {
        let here: i64 = self.rank_value();
        !self.nan() && lowest.rank_value() <= here && here <= highest.rank_value()
    }

    /// Clamps into `[lowest, highest]`.
    pub fn clamp(self, lowest: Scalar, highest: Scalar) -> (r: Scalar)
        requires
            !lowest.is_nan(),
            !highest.is_nan(),
            lowest.rank() <= highest.rank(),
        ensures
            r == self.clamped(lowest, highest),
    {
        if self.nan() {
            self
        } else if self.rank_value() < lowest.rank_value() {
            lowest
        } else if self.rank_value() > highest.rank_value() {
            highest
        } else {
            self
        }
    }
}

impl PartialEq for Scalar {
    /// Equality as IEEE-754 has it: a NaN equals nothing, `0.0` equals `-0.0`.
    fn eq(&self, other: &Scalar) -> (r: bool) {
        !self.nan() && !other.nan() && self.rank_value() == other.rank_value()
    }
}

impl vstd::std_specs::cmp::PartialEqSpecImpl for Scalar {
    open spec fn obeys_eq_spec() -> bool {
        true
    }

    open spec fn eq_spec(&self, other: &Scalar) -> bool {
        !self.is_nan() && !other.is_nan() && self.rank() == other.rank()
    }
}

/// A clamped number that is no NaN lies within the bounds.
pub proof fn lemma_clamped_within(x: Scalar, lowest: Scalar, highest: Scalar)
    requires
        !x.is_nan(),
        !lowest.is_nan(),
        !highest.is_nan(),
        lowest.rank() <= highest.rank(),
    ensures
        x.clamped(lowest, highest).within(lowest, highest),
{
}

/// Clamping leaves a number that is within the bounds as it is.
pub proof fn lemma_clamped_fixes_within(x: Scalar, lowest: Scalar, highest: Scalar)
    requires
        x.within(lowest, highest),
    ensures
        x.clamped(lowest, highest) == x,
{
}

/// The size of the number whose pattern without the sign is `magnitude`,
/// times 2^149: a whole number for every finite binary32 number. The upper
/// nine bits are the biased exponent, the lower 23 the fraction; under the
/// exponent 0 the number is the fraction, else the fraction with a leading
/// one, doubled once for every step of the exponent above 1.
pub open spec fn size(magnitude: int) -> int {
    let exponent = magnitude / 0x80_0000;
    let fraction = magnitude % 0x80_0000;
    if exponent == 0 {
        fraction
    } else {
        (0x80_0000 + fraction) * pow2((exponent - 1) as nat)
    }
}

impl Scalar {
    /// Whether the pattern encodes a number: no infinity, no NaN.
    pub open spec fn is_finite(self) -> bool {
        self.magnitude() < INFINITY_BITS
    }

    /// The number times 2^149.
    pub open spec fn scaled(self) -> int {
        if self.is_negative() {
            -size(self.magnitude())
        } else {
            size(self.magnitude())
        }
    }
}

/// The greater pattern is the greater size.
pub proof fn lemma_size_increases(a: int, b: int)
    requires
        0 <= a < b,
    ensures
        0 <= size(a) < size(b),
{
    let ea = a / 0x80_0000;
    let fa = a % 0x80_0000;
    let eb = b / 0x80_0000;
    let fb = b % 0x80_0000;
    assert(ea <= eb);
    if ea == eb {
        if ea > 0 {
            let p = pow2((ea - 1) as nat) as int;
            lemma_pow2_pos((ea - 1) as nat);
            lemma_mul_strict_inequality(0x80_0000 + fa, 0x80_0000 + fb, p);
            lemma_mul_strictly_positive(0x80_0000 + fa, p);
        }
    } else {
        let low = pow2(ea as nat) as int;
        let high = pow2((eb - 1) as nat) as int;
        lemma_pow2_pos(ea as nat);
        lemma_pow2_pos((eb - 1) as nat);
        assert(low <= high) by {
            if ea < eb - 1 {
                lemma_pow2_strictly_increases(ea as nat, (eb - 1) as nat);
            }
        }
        assert(0 <= size(a) < 0x80_0000 * low) by {
            if ea == 0 {
                lemma2_to64();
            } else {
                let p = pow2((ea - 1) as nat) as int;
                lemma_pow2_pos((ea - 1) as nat);
                lemma_pow2_unfold(ea as nat);
                lemma_mul_strict_inequality(0x80_0000 + fa, 0x100_0000, p);
                lemma_mul_strictly_positive(0x80_0000 + fa, p);
                assert(0x100_0000 * p == 0x80_0000 * (2 * p)) by (nonlinear_arith);
            }
        }
        assert(0x80_0000 * low <= 0x80_0000 * high) by {
            lemma_mul_left_inequality(0x80_0000, low, high);
        }
        assert(0x80_0000 * high <= size(b)) by {
            lemma_mul_inequality(0x80_0000, 0x80_0000 + fb, high);
        }
    }
}

/// Among the finite numbers, the order of the ranks is the order of the
/// numbers themselves.
pub proof fn lemma_rank_orders_as_the_numbers(a: Scalar, b: Scalar)
    requires
        a.is_finite(),
        b.is_finite(),
    ensures
        a.rank() <= b.rank() <==> a.scaled() <= b.scaled(),
        a.rank() == b.rank() <==> a.scaled() == b.scaled(),
{
    let ma = a.magnitude();
    let mb = b.magnitude();
    if ma < mb {
        lemma_size_increases(ma, mb);
    } else if mb < ma {
        lemma_size_increases(mb, ma);
    }
    if ma > 0 {
        lemma_size_increases(0, ma);
    }
    if mb > 0 {
        lemma_size_increases(0, mb);
    }
    assert(size(0) == 0);
}

/// `0.0` is 0, `1.0` is 1 and `-1.0` is -1, each times 2^149.
pub proof fn lemma_named_numbers()
    ensures
        (Scalar { bits: ZERO_BITS }).scaled() == 0,
        (Scalar { bits: ONE_BITS }).scaled() == pow2(149),
        (Scalar { bits: MINUS_ONE_BITS }).scaled() == -pow2(149),
        2 * (Scalar { bits: HALF_BITS }).scaled() == pow2(149),
{
    lemma2_to64();
    assert(0x3f80_0000int / 0x80_0000 == 127 && 0x3f80_0000int % 0x80_0000 == 0);
    assert(0x3f00_0000int / 0x80_0000 == 126 && 0x3f00_0000int % 0x80_0000 == 0);
    assert((Scalar { bits: MINUS_ONE_BITS }).magnitude() == 0x3f80_0000);
    lemma_pow2_adds(23, 126);
    lemma_pow2_adds(23, 125);
    lemma_pow2_unfold(149);
    assert(pow2(23) == 0x80_0000);
    assert(size(0x3f80_0000) == 0x80_0000 * pow2(126));
    assert(size(0x3f00_0000) == 0x80_0000 * pow2(125));
    assert(pow2(148) == pow2(23) * pow2(125));
    assert(pow2(149) == pow2(23) * pow2(126));
}

/// A number is in `[0, 1]` as the patterns have it exactly when it is
/// finite and lies between 0 and 1.
pub proof fn lemma_unit_interval(x: Scalar)
    ensures
        x.in_unit_interval() <==> x.is_finite() && 0 <= x.scaled() <= pow2(149),
        x.in_signed_unit_interval() <==> x.is_finite() && -pow2(149) <= x.scaled() <= pow2(149),
{
    lemma_named_numbers();
    let zero = Scalar { bits: ZERO_BITS };
    let one = Scalar { bits: ONE_BITS };
    let minus_one = Scalar { bits: MINUS_ONE_BITS };
    if x.is_finite() {
        lemma_rank_orders_as_the_numbers(zero, x);
        lemma_rank_orders_as_the_numbers(x, one);
        lemma_rank_orders_as_the_numbers(minus_one, x);
    }
}

/// The pattern that a whole number `m` is normalized to has the size `m`
/// times 2^(`exponent` - 1).
pub proof fn lemma_normalized_size(m: int, exponent: int)
    requires
        1 <= m < 0x100_0000,
        127 <= exponent <= 150,
        m * pow2((exponent - 127) as nat) >= 0x80_0000,
    ensures
        0 < normalized(m, exponent) < INFINITY_BITS,
        size(normalized(m, exponent)) == m * pow2((exponent - 1) as nat),
    decreases 0x100_0000 - m,
{
    if m >= 0x80_0000 {
        let r = exponent * 0x80_0000 + (m - 0x80_0000);
        assert(r / 0x80_0000 == exponent && r % 0x80_0000 == m - 0x80_0000);
    } else {
        assert(exponent > 127) by {
            if exponent == 127 {
                lemma2_to64();
                assert(m * pow2(0) == m) by (nonlinear_arith)
                    requires
                        pow2(0) == 1,
                ;
            }
        }
        lemma_pow2_unfold((exponent - 127) as nat);
        lemma_pow2_unfold((exponent - 1) as nat);
        let p = pow2((exponent - 128) as nat) as int;
        let q = pow2((exponent - 2) as nat) as int;
        assert((2 * m) * p == m * (2 * p)) by (nonlinear_arith);
        assert((2 * m) * q == m * (2 * q)) by (nonlinear_arith);
        lemma_normalized_size(2 * m, exponent - 1);
    }
}

/// The binary32 number of a whole number is that whole number.
pub proof fn lemma_whole_is_exact(i: int)
    requires
        Scalar::whole(i) is Some,
    ensures
        Scalar::whole(i)->Some_0.is_finite(),
        Scalar::whole(i)->Some_0.scaled() == i * pow2(149),
{
    lemma2_to64();
    if i == 0 {
        assert(size(0) == 0);
    } else {
        let m = if i < 0 {
            -i
        } else {
            i
        };
        let magnitude: int = if m == EXACT_LIMIT {
            151int * 0x80_0000
        } else {
            normalized(m, 150)
        };
        if m == EXACT_LIMIT {
            assert(magnitude / 0x80_0000 == 151 && magnitude % 0x80_0000 == 0);
            lemma_pow2_unfold(150);
            assert(0x80_0000 * (2 * pow2(149)) == 0x100_0000 * pow2(149)) by (nonlinear_arith);
        } else {
            assert(pow2(23) == 0x80_0000);
            assert(m * pow2(23) >= 0x80_0000) by (nonlinear_arith)
                requires
                    m >= 1,
                    pow2(23) == 0x80_0000,
            ;
            lemma_normalized_size(m, 150);
        }
        let s = Scalar::whole(i)->Some_0;
        assert(s.magnitude() == magnitude);
        if i < 0 {
            assert(-(m * pow2(149)) == i * pow2(149)) by (nonlinear_arith)
                requires
                    m == -i,
            ;
        }
    }
}

} // verus!
