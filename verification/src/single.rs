//! Binary scalars of 32 bits in the IEEE 754 encoding, held by their bit
//! patterns: one sign bit, eight exponent bits, twenty-three fraction bits.
//!
//! The library never rounds a sum or a product. It carries such scalars
//! through, compares them, and converts whole numbers into them exactly as the
//! encoding prescribes.

use vstd::prelude::*;
use vstd::arithmetic::power2::{pow2, lemma_pow2_unfold, lemma_pow2_adds, lemma_pow2_pos, lemma2_to64};

verus! {

/// The bit pattern of positive infinity; every greater magnitude is not a number.
pub const INFINITY_BITS: u32 = 0x7F80_0000;

/// The sign bit.
pub const SIGN_BIT: u32 = 0x8000_0000;

/// A scalar, by its bit pattern.
#[derive(Clone, Copy, Debug, PartialEq, Eq, Structural)]
pub struct Single {
    pub bits: u32,
}

impl Single {
    /// The pattern without its sign bit.
    pub open spec fn magnitude(self) -> int {
        if self.bits >= SIGN_BIT {
            self.bits - SIGN_BIT
        } else {
            self.bits as int
        }
    }

    /// Whether the sign bit is set.
    pub open spec fn is_negative(self) -> bool {
        self.bits >= SIGN_BIT
    }

    /// Whether the pattern encodes no number.
    pub open spec fn is_nan(self) -> bool {
        self.magnitude() > INFINITY_BITS
    }

    /// A whole number that orders the patterns as the scalars they encode are
    /// ordered: the magnitude, negated under a sign bit. Both zeros have
    /// ordinal 0. Patterns that encode no number have no place in the order.
    pub open spec fn ordinal(self) -> int {
        if self.is_negative() {
            -self.magnitude()
        } else {
            self.magnitude()
        }
    }

    /// The pattern with the other sign: the scalar of the same magnitude on the
    /// other side of zero.
    pub open spec fn negation(self) -> Single {
        if self.bits >= SIGN_BIT {
            Single { bits: (self.bits - SIGN_BIT) as u32 }
        } else {
            Single { bits: (self.bits + SIGN_BIT) as u32 }
        }
    }

    /// The comparison `<` of two scalars: false whenever one is not a number.
    pub open spec fn less_than(self, other: Single) -> bool {
        !self.is_nan() && !other.is_nan() && self.ordinal() < other.ordinal()
    }

    fn rank(self) -> (r: i64)
        ensures
            r == self.ordinal(),
    {
        if self.bits >= SIGN_BIT {
            -((self.bits - SIGN_BIT) as i64)
        } else {
            self.bits as i64
        }
    }

    /// Whether the scalar is not a number.
    pub fn not_a_number(self) -> (nan: bool)
        ensures
            nan == self.is_nan(),
    {
        if self.bits >= SIGN_BIT {
            self.bits - SIGN_BIT > INFINITY_BITS
        } else {
            self.bits > INFINITY_BITS
        }
    }

    /// The scalar of the same magnitude with the other sign.
    pub fn negated(self) -> (other: Single)
        ensures
            other == self.negation(),
            other.magnitude() == self.magnitude(),
            other.is_negative() != self.is_negative(),
            other.ordinal() == -self.ordinal(),
    {
        if self.bits >= SIGN_BIT {
            Single { bits: self.bits - SIGN_BIT }
        } else {
            Single { bits: self.bits + SIGN_BIT }
        }
    }

    /// Whether `self < other` as scalars.
    pub fn lt(self, other: Single) -> (less: bool)
        ensures
            less == self.less_than(other),
    {
        !self.not_a_number() && !other.not_a_number() && self.rank() < other.rank()
    }

    /// Whether `self > other` as scalars.
    pub fn gt(self, other: Single) -> (greater: bool)
        ensures
            greater == other.less_than(self),
    {
        other.lt(self)
    }

    /// The scalar nearest to the whole number `x`; of two equally near, the one
    /// whose last fraction bit is 0.
    pub fn from_u32(x: u32) -> (s: Single)
        ensures
            s.bits == single_of(x as nat),
            !s.is_negative(),
            !s.is_nan(),
    {
        if x == 0 {
            return Single { bits: 0 };
        }
        proof {
            lemma2_to64();
        }
        let mut e: u32 = 0;
        let mut p: u64 = 1;
        while 2 * p <= x as u64
            invariant
                p == pow2(e as nat),
                1 <= p <= x,
                e <= 31,
            decreases x - p,
        {
            proof {
                lemma2_to64();
                lemma_pow2_unfold((e + 1) as nat);
            }
            p = 2 * p;
            e = e + 1;
        }
        proof {
            lemma_pow2_unfold((e + 1) as nat);
            lemma_binade_of(x as nat, e as nat);
        }
        let significand: u64;
        if e <= 23 {
            let mut m: u64 = x as u64;
            let mut k: u32 = e;
            proof {
                assert(pow2(0) == 1);
                assert(x * pow2(0) == x);
            }
            while k < 23
                invariant
                    e <= k <= 23,
                    m == x * pow2((k - e) as nat),
                    pow2(k as nat) <= m < 2 * pow2(k as nat),
                    pow2(23) == 0x80_0000,
                decreases 23 - k,
            {
                proof {
                    lemma_pow2_unfold((k + 1) as nat);
                    lemma_pow2_unfold((k + 1 - e) as nat);
                    lemma_pow2_monotone((k + 1) as nat, 23);
                    assert(x * (2 * pow2((k - e) as nat)) == 2 * (x * pow2((k - e) as nat)))
                        by (nonlinear_arith);
                }
                m = 2 * m;
                k = k + 1;
            }
            significand = m;
        } else {
            let d: u64 = p / 0x80_0000;
            proof {
                lemma_pow2_adds((e - 23) as nat, 23);
                lemma_pow2_pos((e - 23) as nat);
                let dd = pow2((e - 23) as nat) as int;
                assert(p == dd * 0x80_0000);
                assert((dd * 0x80_0000) / 0x80_0000 == dd) by (nonlinear_arith);
                assert(d == dd);
                lemma_rounded_quotient_bounds(x as nat, d as nat);
            }
            let q: u64 = x as u64 / d;
            let r: u64 = x as u64 % d;
            significand = if 2 * r > d || (2 * r == d && q % 2 == 1) {
                q + 1
            } else {
                q
            };
        }
        let bits: u64 = (127 + e as u64) * 0x80_0000 + (significand - 0x80_0000);
        Single { bits: bits as u32 }
    }
}

/// The place of the leading bit of `x`: the greatest `e` with two to the `e`
/// at most `x`.
pub open spec fn binade(x: nat) -> nat
    decreases x,
{
    if x < 2 {
        0
    } else {
        1 + binade(x / 2)
    }
}

/// `x` over `d`, rounded to the nearest whole number; a quotient that lies
/// halfway between two is rounded to the even one.
pub open spec fn round_half_even(x: nat, d: nat) -> nat
    recommends
        d > 0,
{
    let q = x / d;
    let r = x % d;
    if 2 * r > d || (2 * r == d && q % 2 == 1) {
        q + 1
    } else {
        q
    }
}

/// The significand, with its leading bit, of the scalar nearest to `x`, for
/// `x` whose leading bit is at place `e`: `x` brought to twenty-four bits,
/// exactly where it has no more, rounded where it has.
pub open spec fn significand_of(x: nat, e: nat) -> nat {
    if e <= 23 {
        x * pow2((23 - e) as nat)
    } else {
        round_half_even(x, pow2((e - 23) as nat))
    }
}

/// The bit pattern of the scalar nearest to the whole number `x`: zero for
/// zero; otherwise the exponent field holds the place of the leading bit plus
/// 127 and the fraction field the significand without its leading bit. A
/// significand that rounding carried to twenty-five bits adds one to the
/// exponent field and leaves the fraction zero.
pub open spec fn single_of(x: nat) -> nat {
    if x == 0 {
        0
    } else {
        let e = binade(x);
        ((127 + e) * pow2(23) + (significand_of(x, e) - pow2(23))) as nat
    }
}

proof fn lemma_pow2_monotone(a: nat, b: nat)
    requires
        a <= b,
    ensures
        pow2(a) <= pow2(b),
    decreases b - a,
{
    if a < b {
        lemma_pow2_monotone(a, (b - 1) as nat);
        lemma_pow2_unfold(b);
    }
}

proof fn lemma_binade_of(x: nat, e: nat)
    requires
        pow2(e) <= x < 2 * pow2(e),
    ensures
        binade(x) == e,
    decreases e,
{
    lemma2_to64();
    if e == 0 {
    } else {
        lemma_pow2_unfold(e);
        lemma_pow2_pos((e - 1) as nat);
        lemma_binade_of(x / 2, (e - 1) as nat);
    }
}

proof fn lemma_binade_bounds(x: nat)
    requires
        x > 0,
    ensures
        pow2(binade(x)) <= x < 2 * pow2(binade(x)),
    decreases x,
{
    lemma2_to64();
    if x < 2 {
    } else {
        lemma_binade_bounds(x / 2);
        lemma_pow2_unfold(binade(x));
    }
}

/// The pattern of a whole number of thirty-two bits has no sign bit and
/// encodes a number: zero, or one of the scalars from one to two to the
/// thirty-second.
pub proof fn single_of_is_bounded(x: u32)
    ensures
        x == 0 ==> single_of(x as nat) == 0,
        x > 0 ==> 0x3F80_0000 <= single_of(x as nat) <= 0x4F80_0000,
{
    if x > 0 {
        lemma2_to64();
        lemma_fields_of(x as nat);
    }
}

/// The exponent field of a pattern without sign bit.
pub open spec fn exponent_field(bits: nat) -> nat {
    bits / pow2(23)
}

/// The fraction field of a pattern.
pub open spec fn fraction_field(bits: nat) -> nat {
    bits % pow2(23)
}

/// The significand of a pattern whose exponent field is not zero: the
/// fraction field under a leading bit.
pub open spec fn significand_field(bits: nat) -> nat {
    pow2(23) + fraction_field(bits)
}

/// The number that a pattern encodes, where its exponent field is at least
/// 150 and the number therefore whole: the significand times two to the
/// exponent field less 150.
pub open spec fn whole_value(bits: nat) -> nat
    recommends
        exponent_field(bits) >= 150,
{
    significand_field(bits) * pow2((exponent_field(bits) - 150) as nat)
}

proof fn lemma_fields_of(x: nat)
    requires
        0 < x < 0x1_0000_0000,
    ensures
        ({
            let e = binade(x);
            let sig = significand_of(x, e);
            let bits = single_of(x);
            &&& e <= 31
            &&& pow2(e) <= x < 2 * pow2(e)
            &&& 0x80_0000 <= sig <= 0x100_0000
            &&& e <= 23 ==> sig < 0x100_0000
            &&& sig < 0x100_0000 ==> exponent_field(bits) == 127 + e && significand_field(bits)
                == sig
            &&& sig == 0x100_0000 ==> exponent_field(bits) == 128 + e && significand_field(bits)
                == 0x80_0000
        }),
{
    let e = binade(x);
    lemma2_to64();
    lemma_binade_bounds(x);
    if e > 31 {
        lemma_pow2_monotone(32, e);
    }
    let sig = significand_of(x, e);
    let p = pow2(e);
    if e <= 23 {
        let f = pow2((23 - e) as nat);
        lemma_pow2_adds(e, (23 - e) as nat);
        lemma_pow2_pos((23 - e) as nat);
        assert(p * f == 0x80_0000);
        assert(p * f <= x * f < 2 * (p * f)) by (nonlinear_arith)
            requires
                p <= x < 2 * p,
                f > 0,
        ;
    } else {
        let d = pow2((e - 23) as nat);
        lemma_pow2_adds((e - 23) as nat, 23);
        lemma_pow2_pos((e - 23) as nat);
        assert(p == d * 0x80_0000);
        assert(d * 0x80_0000 == 0x80_0000 * d) by (nonlinear_arith);
        lemma_rounded_quotient_bounds(x, d);
    }
    let bits = single_of(x);
    assert(bits == (127 + e) * 0x80_0000 + (sig - 0x80_0000));
}

/// A whole number below two to the twenty-fourth is converted exactly: the
/// significand of its pattern, scaled by its exponent, is the number itself.
pub proof fn small_numbers_convert_exactly(x: u32)
    requires
        0 < x < 0x100_0000,
    ensures
        ({
            let bits = single_of(x as nat);
            &&& 127 <= exponent_field(bits) <= 150
            &&& significand_field(bits) == x * pow2((150 - exponent_field(bits)) as nat)
        }),
{
    let n = x as nat;
    let e = binade(n);
    lemma2_to64();
    lemma_fields_of(n);
    if e >= 24 {
        lemma_pow2_monotone(24, e);
    }
}

/// A whole number of at least two to the twenty-fourth is converted to the
/// nearest scalar: its pattern encodes a whole number that lies no more than
/// half the spacing of the scalars around it away, and where it lies exactly
/// half the spacing away, the last bit of its fraction is 0.
pub proof fn large_numbers_convert_to_the_nearest(x: u32)
    requires
        x >= 0x100_0000,
    ensures
        ({
            let bits = single_of(x as nat);
            let spacing = pow2((binade(x as nat) - 23) as nat);
            let error = if whole_value(bits) >= x {
                whole_value(bits) - x
            } else {
                x - whole_value(bits)
            };
            &&& binade(x as nat) >= 24
            &&& exponent_field(bits) >= 150
            &&& 2 * error <= spacing
            &&& 2 * error == spacing ==> fraction_field(bits) % 2 == 0
        }),
{
    let n = x as nat;
    let e = binade(n);
    lemma2_to64();
    lemma_fields_of(n);
    assert(e >= 24) by {
        if e < 24 {
            lemma_pow2_monotone(e + 1, 24);
            lemma_pow2_unfold(e + 1);
        }
    }
    let d = pow2((e - 23) as nat);
    lemma_pow2_pos((e - 23) as nat);
    lemma_pow2_unfold((e - 22) as nat);
    lemma_pow2_unfold((e - 23) as nat);
    let q = n / d;
    let r = n % d;
    let sig = significand_of(n, e);
    let bits = single_of(n);
    assert(n == q * d + r && r < d) by (nonlinear_arith)
        requires
            q == n / d,
            r == n % d,
            d > 0,
    ;
    assert(whole_value(bits) == sig * d) by {
        if sig == 0x100_0000 {
            assert(0x80_0000 * (2 * d) == 0x100_0000 * d) by (nonlinear_arith);
        }
    }
    assert((q + 1) * d == q * d + d) by (nonlinear_arith);
    assert(d % 2 == 0);
    assert(sig == q || sig == q + 1);
}

/// Conversion keeps the order of whole numbers: of two, the greater never gets
/// the pattern that comes first.
pub proof fn conversion_keeps_order(x: u32, y: u32)
    requires
        x <= y,
    ensures
        single_of(x as nat) <= single_of(y as nat),
        (Single { bits: single_of(x as nat) as u32 }).ordinal() <= (Single {
            bits: single_of(y as nat) as u32,
        }).ordinal(),
{
    single_of_is_bounded(x);
    single_of_is_bounded(y);
    if x > 0 {
        let (n, m) = (x as nat, y as nat);
        let (ex, ey) = (binade(n), binade(m));
        lemma2_to64();
        lemma_fields_of(n);
        lemma_fields_of(m);
        if ex > ey {
            lemma_pow2_monotone(ey + 1, ex);
            lemma_pow2_unfold(ey + 1);
        }
        if ex == ey {
            let (sx, sy) = (significand_of(n, ex), significand_of(m, ex));
            assert(sx <= sy) by {
                if ex <= 23 {
                    let f = pow2((23 - ex) as nat);
                    assert(n * f <= m * f) by (nonlinear_arith)
                        requires
                            n <= m,
                            f >= 0,
                    ;
                } else {
                    let d = pow2((ex - 23) as nat);
                    lemma_pow2_pos((ex - 23) as nat);
                    let (qx, rx) = (n / d, n % d);
                    let (qy, ry) = (m / d, m % d);
                    assert(n == qx * d + rx && rx < d && m == qy * d + ry && ry < d) by (nonlinear_arith)
                        requires
                            qx == n / d,
                            rx == n % d,
                            qy == m / d,
                            ry == m % d,
                            d > 0,
                    ;
                    assert(qx <= qy) by (nonlinear_arith)
                        requires
                            n == qx * d + rx,
                            m == qy * d + ry,
                            rx < d,
                            ry < d,
                            n <= m,
                            d > 0,
                            0 <= rx,
                            0 <= ry,
                    ;
                }
            }
        }
    }
}

proof fn lemma_rounded_quotient_bounds(x: nat, d: nat)
    requires
        d > 0,
        0x80_0000 * d <= x < 2 * (0x80_0000 * d),
    ensures
        0x80_0000 <= x / d < 0x100_0000,
        x % d < d,
{
    assert(x / d >= 0x80_0000) by (nonlinear_arith)
        requires
            d > 0,
            0x80_0000 * d <= x,
    ;
    assert(x / d < 0x100_0000) by (nonlinear_arith)
        requires
            d > 0,
            x < 2 * (0x80_0000 * d),
    ;
    assert(x % d < d) by (nonlinear_arith)
        requires
            d > 0,
    ;
}

} // verus!
