//! Single-precision numbers, held and compared as bit patterns.
//!
//! Every finite IEEE 754 single is a whole multiple of 2^-149. The library
//! never computes with such numbers; it compares them and turns their sign,
//! which the bit pattern decides exactly.

use vstd::arithmetic::power2::{lemma_pow2_adds, lemma_pow2_pos, pow2};
use vstd::prelude::*;

verus! {

/// Bit pattern of the number one.
pub const SINGLE_ONE_BITS: u32 = 0x3F80_0000;

/// The sign bit.
pub const SIGN_BIT: u32 = 0x8000_0000;

/// Bit pattern of positive infinity; larger magnitudes are not numbers.
pub const INFINITY_BITS: u32 = 0x7F80_0000;

/// A single-precision number, held as its IEEE 754 bit pattern.
#[derive(Clone, Copy, Debug, PartialEq, Eq, Structural)]
pub struct Single {
    /// The 32-bit pattern: sign, 8 exponent bits, 23 fraction bits.
    pub bits: u32,
}

/// The size of the number with magnitude bits `m`, in units of 2^-149. For the
/// pattern of infinity this is larger than for every finite pattern.
pub open spec fn scaled_magnitude(m: int) -> int {
    let exponent = m / 0x80_0000;
    let fraction = m % 0x80_0000;
    if exponent == 0 {
        fraction
    } else {
        (0x80_0000 + fraction) * pow2((exponent - 1) as nat)
    }
}

impl Single {
    /// Whether the sign bit is set.
    pub open spec fn is_negative_spec(self) -> bool {
        self.bits >= SIGN_BIT
    }

    /// The pattern without its sign bit.
    pub open spec fn magnitude_spec(self) -> int {
        if self.bits >= SIGN_BIT {
            self.bits - SIGN_BIT
        } else {
            self.bits as int
        }
    }

    /// Whether the pattern stands for no number.
    pub open spec fn is_nan_spec(self) -> bool {
        self.magnitude_spec() > INFINITY_BITS
    }

    /// Whether the pattern stands for a number other than an infinity.
    pub open spec fn is_finite_spec(self) -> bool {
        self.magnitude_spec() < INFINITY_BITS
    }

    /// The number, in units of 2^-149.
    pub open spec fn scaled(self) -> int {
        if self.is_negative_spec() {
            -scaled_magnitude(self.magnitude_spec())
        } else {
            scaled_magnitude(self.magnitude_spec())
        }
    }

    /// Whether this number is at most the other; false where one is no number.
    pub open spec fn le_spec(self, other: Single) -> bool {
        !self.is_nan_spec() && !other.is_nan_spec() && self.scaled() <= other.scaled()
    }

    /// The number of the other sign.
    pub open spec fn negated_spec(self) -> Single {
        if self.bits >= SIGN_BIT {
            Single { bits: (self.bits - SIGN_BIT) as u32 }
        } else {
            Single { bits: (self.bits + SIGN_BIT) as u32 }
        }
    }

    /// Whether the pattern stands for a number other than an infinity.
    pub fn is_finite(self) -> (r: bool)
        ensures
            r == self.is_finite_spec(),
    {
        self.magnitude() < INFINITY_BITS
    }

    fn magnitude(self) -> (r: u32)
        ensures
            r == self.magnitude_spec(),
    {
        if self.bits >= SIGN_BIT {
            self.bits - SIGN_BIT
        } else {
            self.bits
        }
    }

    /// Whether this is a number greater than zero.
    pub fn is_positive(self) -> (r: bool)
        ensures
            r == (!self.is_nan_spec() && self.scaled() > 0),
    {
        proof {
            if self.magnitude_spec() > 0 {
                magnitude_order(0, self.magnitude_spec());
            }
            assert(scaled_magnitude(0) == 0);
            magnitude_nonnegative(self.magnitude_spec());
        }
        self.bits < SIGN_BIT && self.bits != 0 && self.bits <= INFINITY_BITS
    }

    /// The number of the other sign.
    pub fn negated(self) -> (r: Single)
        ensures
            r == self.negated_spec(),
    {
        if self.bits >= SIGN_BIT {
            Single { bits: self.bits - SIGN_BIT }
        } else {
            Single { bits: self.bits + SIGN_BIT }
        }
    }

    /// Whether this number is at most the other; false where one is no number.
    pub fn le(self, other: Single) -> (r: bool)
        ensures
            r == self.le_spec(other),
    {
        let a: u32 = self.magnitude();
        let b: u32 = other.magnitude();
        proof {
            magnitude_nonnegative(a as int);
            magnitude_nonnegative(b as int);
            assert(scaled_magnitude(0) == 0);
            if a < b {
                magnitude_order(a as int, b as int);
            }
            if b < a {
                magnitude_order(b as int, a as int);
            }
            if a > 0 {
                magnitude_order(0, a as int);
            }
            if b > 0 {
                magnitude_order(0, b as int);
            }
        }
        if a > INFINITY_BITS || b > INFINITY_BITS {
            false
        } else if self.bits >= SIGN_BIT {
            if other.bits >= SIGN_BIT {
                b <= a
            } else {
                true
            }
        } else if other.bits >= SIGN_BIT {
            a == 0 && b == 0
        } else {
            a <= b
        }
    }
}

pub(crate) proof fn magnitude_nonnegative(m: int)
    requires
        m >= 0,
    ensures
        scaled_magnitude(m) >= 0,
{
    let e = m / 0x80_0000;
    let f = m % 0x80_0000;
    if e != 0 {
        lemma_pow2_pos((e - 1) as nat);
        let p = pow2((e - 1) as nat) as int;
        assert((0x80_0000 + f) * p >= 0) by (nonlinear_arith)
            requires
                f >= 0,
                p > 0,
        ;
    }
}

/// Magnitude bits order numbers as their values do.
pub proof fn magnitude_order(a: int, b: int)
    requires
        0 <= a < b,
    ensures
        scaled_magnitude(a) < scaled_magnitude(b),
{
    let ea = a / 0x80_0000;
    let eb = b / 0x80_0000;
    let fa = a % 0x80_0000;
    let fb = b % 0x80_0000;
    if eb == 0 {
        assert(ea == 0);
    } else {
        lemma_pow2_pos((eb - 1) as nat);
        let pb = pow2((eb - 1) as nat) as int;
        assert((0x80_0000 + fb) * pb >= 0x80_0000 * pb) by (nonlinear_arith)
            requires
                fb >= 0,
                pb > 0,
        ;
        if ea == 0 {
            assert(0x80_0000 * pb >= 0x80_0000) by (nonlinear_arith)
                requires
                    pb > 0,
            ;
        } else if ea == eb {
            assert((0x80_0000 + fa) * pb < (0x80_0000 + fb) * pb) by (nonlinear_arith)
                requires
                    fa < fb,
                    pb > 0,
            ;
        } else {
            lemma_pow2_pos((ea - 1) as nat);
            let pa = pow2((ea - 1) as nat) as int;
            let k = (eb - ea) as nat;
            lemma_pow2_adds((ea - 1) as nat, k);
            lemma_pow2_pos((k - 1) as nat);
            vstd::arithmetic::power2::lemma_pow2_unfold(k);
            let q = pow2(k) as int;
            assert(q >= 2);
            assert(pb == pa * q);
            assert((0x80_0000 + fa) * pa < 0x100_0000 * pa) by (nonlinear_arith)
                requires
                    fa < 0x80_0000,
                    pa > 0,
            ;
            assert(0x80_0000 * (pa * q) >= 0x100_0000 * pa) by (nonlinear_arith)
                requires
                    q >= 2,
                    pa > 0,
            ;
        }
    }
}

/// Turning the sign twice gives the number back, and turns its value.
pub proof fn negation_is_exact(x: Single)
    ensures
        x.negated_spec().negated_spec() == x,
        x.negated_spec().scaled() == -x.scaled(),
        x.negated_spec().is_finite_spec() == x.is_finite_spec(),
{
}

/// One step of the exponent doubles a number, and below the first exponent the
/// bits are the number.
pub proof fn exponent_doubles(m: int)
    requires
        m >= 0,
    ensures
        m < 0x80_0000 ==> scaled_magnitude(m) == m,
        m >= 0x80_0000 ==> scaled_magnitude(m + 0x80_0000) == 2 * scaled_magnitude(m),
{
    if m >= 0x80_0000 {
        let e = m / 0x80_0000;
        vstd::arithmetic::power2::lemma_pow2_unfold(e as nat);
        let p = pow2((e - 1) as nat) as int;
        let n = 0x80_0000 + m % 0x80_0000;
        assert((m + 0x80_0000) / 0x80_0000 == e + 1);
        assert((m + 0x80_0000) % 0x80_0000 == m % 0x80_0000);
        assert(n * (2 * p) == 2 * (n * p)) by (nonlinear_arith);
    }
}

/// The bits of one stand for one: for 2^149 units.
pub proof fn one_is_one()
    ensures
        (Single { bits: SINGLE_ONE_BITS }).scaled() == pow2(149),
{
    vstd::arithmetic::power2::lemma2_to64();
    lemma_pow2_adds(23, 126);
}

/// Numbers are compared by their value: every two of them, one way or the other,
/// with both ways only for equal values, and in step with a third; what is no
/// number is compared with none.
pub proof fn comparison_follows_the_value(a: Single, b: Single, c: Single)
    ensures
        !a.is_nan_spec() ==> a.le_spec(a),
        a.is_nan_spec() ==> !a.le_spec(b) && !b.le_spec(a),
        !a.is_nan_spec() && !b.is_nan_spec() ==> a.le_spec(b) || b.le_spec(a),
        a.le_spec(b) && b.le_spec(a) ==> a.scaled() == b.scaled(),
        a.le_spec(b) && b.le_spec(c) ==> a.le_spec(c),
        a.le_spec(b) ==> a.scaled() <= b.scaled(),
        a.is_finite_spec() ==> !a.is_nan_spec(),
        a.bits < 0x8000_0000 ==> a.scaled() >= 0,
        a.bits >= 0x8000_0000 ==> a.scaled() <= 0,
{
    magnitude_nonnegative(a.magnitude_spec());
}

/// Finite numbers are those below infinity, which stands for 2^277 units.
pub proof fn finite_numbers_lie_below_infinity(x: Single)
    ensures
        x.is_finite_spec() <==> -pow2(277) < x.scaled() < pow2(277),
        x.is_nan_spec() ==> !x.is_finite_spec(),
        x.bits == INFINITY_BITS ==> !x.is_finite_spec() && !x.is_nan_spec(),
{
    let m = x.magnitude_spec();
    vstd::arithmetic::power2::lemma2_to64();
    lemma_pow2_adds(23, 254);
    assert(scaled_magnitude(0x7F80_0000) == 0x80_0000 * pow2(254));
    magnitude_nonnegative(m);
    if m < 0x7F80_0000 {
        magnitude_order(m, 0x7F80_0000);
    } else if m > 0x7F80_0000 {
        magnitude_order(0x7F80_0000, m);
    }
}

} // verus!
