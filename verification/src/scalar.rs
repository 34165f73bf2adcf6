//! Exact binary numbers.
//!
//! A [`Scalar`] is a sign, a magnitude and a power of two. Every finite
//! IEEE-754 number is such a value, and halving and negating one are exact.

use vstd::prelude::*;

verus! {

/// Two raised to the power `e`, for any integer `e`.
pub open spec fn pow2(e: int) -> real
    decreases (if e >= 0 { e } else { -e }),
{
    if e == 0 {
        1real
    } else if e > 0 {
        2real * pow2(e - 1)
    } else {
        pow2(e + 1) / 2real
    }
}

/// Lowering the exponent by one halves the power, whatever the sign of `e`.
pub proof fn lemma_pow2_halves(e: int)
    ensures
        pow2(e - 1) == pow2(e) / 2real,
{
    if e > 0 {
        assert(pow2(e) == 2real * pow2(e - 1));
    } else {
        assert(pow2(e - 1) == pow2(e) / 2real);
    }
}

/// The number `(-1)^negative * magnitude * 2^exponent`.
#[derive(Clone, Copy, Debug, PartialEq, Eq, Structural)]
pub struct Scalar {
    pub negative: bool,
    pub magnitude: u32,
    pub exponent: i32,
}

/// The finite number that `bits` encodes as an IEEE-754 binary32 value, or
/// `None` where `bits` encodes an infinity or a NaN.
///
/// The highest bit is the sign; the next eight are the biased exponent; the
/// low twenty-three are the fraction. A biased exponent of zero marks a
/// subnormal number, which has no implicit leading one.
pub open spec fn binary32(bits: u32) -> Option<Scalar> {
    let negative = bits >= 0x8000_0000;
    let biased = (bits / 0x80_0000) % 0x100;
    let fraction = bits % 0x80_0000;
    if biased == 0xff {
        None
    } else if biased == 0 {
        Some(Scalar { negative, magnitude: fraction as u32, exponent: -149i32 })
    } else {
        Some(
            Scalar {
                negative,
                magnitude: (fraction + 0x80_0000) as u32,
                exponent: (biased - 150) as i32,
            },
        )
    }
}

impl Scalar {
    /// The scalar zero, with a positive sign.
    pub open spec fn zero_spec() -> Scalar {
        Scalar { negative: false, magnitude: 0, exponent: 0 }
    }

    /// The scalar one.
    pub open spec fn one_spec() -> Scalar {
        Scalar { negative: false, magnitude: 1, exponent: 0 }
    }

    /// This scalar with the opposite sign.
    pub open spec fn neg_spec(self) -> Scalar {
        Scalar { negative: !self.negative, ..self }
    }

    /// Whether the exponent can go one lower: it can, unless it is the
    /// lowest that the machine can hold.
    pub open spec fn halvable(self) -> bool {
        self.exponent > i32::MIN
    }

    /// This scalar one power of two lower.
    pub open spec fn half_spec(self) -> Scalar {
        Scalar { exponent: (self.exponent - 1) as i32, ..self }
    }

    /// The real number that this scalar stands for.
    pub open spec fn value(self) -> real {
        let m = (self.magnitude as real) * pow2(self.exponent as int);
        if self.negative {
            -m
        } else {
            m
        }
    }

    /// Lowering the exponent by one halves the value.
    pub proof fn lemma_half_value(self)
        requires
            self.halvable(),
        ensures
            self.half_spec().value() == self.value() / 2real,
    {
        lemma_pow2_halves(self.exponent as int);
        let m = self.magnitude as real;
        let p = pow2(self.exponent as int);
        assert(m * (p / 2real) == (m * p) / 2real) by (nonlinear_arith);
    }

    /// Changing the sign negates the value.
    pub proof fn lemma_neg_value(self)
        ensures
            self.neg_spec().value() == -self.value(),
    {
    }

    /// The number zero, with a positive sign.
    pub fn zero() -> (r: Scalar)
        ensures
            r == Scalar::zero_spec(),
            r.value() == 0real,
    {
        Scalar { negative: false, magnitude: 0, exponent: 0 }
    }

    /// The number one.
    pub fn one() -> (r: Scalar)
        ensures
            r == Scalar::one_spec(),
            r.value() == 1real,
    {
        Scalar { negative: false, magnitude: 1, exponent: 0 }
    }

    /// Half of this scalar: the same sign and magnitude, one power of two lower.
    pub fn half(self) -> (r: Scalar)
        requires
            self.halvable(),
        ensures
            r == self.half_spec(),
            r.value() == self.value() / 2real,
    {
        proof {
            self.lemma_half_value();
        }
        Scalar { negative: self.negative, magnitude: self.magnitude, exponent: self.exponent - 1 }
    }

    /// Decodes an IEEE-754 binary32 bit pattern. Infinities and NaNs have no
    /// scalar; every other pattern has exactly one.
    pub fn from_binary32(bits: u32) -> (r: Option<Scalar>)
        ensures
            r == binary32(bits),
            r is None <==> (bits / 0x80_0000) % 0x100 == 0xff,
    {
        let negative = bits >= 0x8000_0000;
        let biased: u32 = (bits / 0x80_0000) % 0x100;
        let fraction: u32 = bits % 0x80_0000;
        if biased == 0xff {
            None
        } else if biased == 0 {
            Some(Scalar { negative, magnitude: fraction, exponent: -149 })
        } else {
            Some(
                Scalar {
                    negative,
                    magnitude: fraction + 0x80_0000,
                    exponent: biased as i32 - 150,
                },
            )
        }
    }

    /// The scalar with the opposite sign.
    pub fn neg(self) -> (r: Scalar)
        ensures
            r == self.neg_spec(),
            r.value() == -self.value(),
    {
        Scalar { negative: !self.negative, magnitude: self.magnitude, exponent: self.exponent }
    }
}

} // verus!
