//! Quantities and prices: double-precision numbers, held by their bits.

use vstd::arithmetic::power2::*;
use vstd::prelude::*;

verus! {

/// The sign bit of a double.
pub const SIGN_BIT: u64 = 0x8000_0000_0000_0000;

/// The bits of positive infinity: the largest magnitude that is not "not a number".
pub const INFINITY_BITS: u64 = 0x7ff0_0000_0000_0000;

/// One more than the largest fraction field.
pub const FRACTION_RANGE: u64 = 0x0010_0000_0000_0000;

/// An IEEE 754 double-precision number.
#[derive(Debug, Clone, Copy, PartialEq, Eq, Structural)]
pub struct Double {
    pub bits: u64,
}

/// The number that sign-free bits `m` stand for, in units of the smallest positive
/// double. Infinity comes out above every finite number.
pub open spec fn scaled(m: u64) -> nat {
    let exponent = (m / FRACTION_RANGE) as nat;
    let fraction = (m % FRACTION_RANGE) as nat;
    if exponent == 0 {
        fraction
    } else {
        (FRACTION_RANGE as nat + fraction) * pow2((exponent - 1) as nat)
    }
}

/// Larger bits stand for a larger number.
proof fn scaled_increases(a: u64, b: u64)
    requires
        a < b,
    ensures
        scaled(a) < scaled(b),
{
    let ea = (a / FRACTION_RANGE) as nat;
    let eb = (b / FRACTION_RANGE) as nat;
    let fa = (a % FRACTION_RANGE) as nat;
    let fb = (b % FRACTION_RANGE) as nat;
    let r = FRACTION_RANGE as nat;
    assert(ea <= eb);
    if ea == eb {
        assert(fa < fb);
        if ea > 0 {
            lemma_pow2_pos((ea - 1) as nat);
            assert((r + fa) * pow2((ea - 1) as nat) < (r + fb) * pow2((ea - 1) as nat))
                by (nonlinear_arith)
                requires
                    fa < fb,
                    pow2((ea - 1) as nat) > 0,
            ;
        }
    } else {
        lemma_pow2_pos((eb - 1) as nat);
        assert((r + fb) * pow2((eb - 1) as nat) >= r * pow2((eb - 1) as nat)) by (nonlinear_arith);
        if ea == 0 {
            assert(r * pow2((eb - 1) as nat) >= r) by (nonlinear_arith)
                requires
                    pow2((eb - 1) as nat) > 0,
            ;
        } else {
            lemma_pow2_pos((ea - 1) as nat);
            lemma_pow2_unfold(ea);
            if ea < eb - 1 {
                lemma_pow2_strictly_increases(ea, (eb - 1) as nat);
            }
            assert((r + fa) * pow2((ea - 1) as nat) < r * (2 * pow2((ea - 1) as nat)))
                by (nonlinear_arith)
                requires
                    fa < r,
                    pow2((ea - 1) as nat) > 0,
            ;
            assert(r * pow2(ea) <= r * pow2((eb - 1) as nat)) by (nonlinear_arith)
                requires
                    pow2(ea) <= pow2((eb - 1) as nat),
            ;
        }
    }
}

impl Double {
    /// The bits without the sign.
    pub open spec fn magnitude(self) -> u64 {
        if self.bits >= SIGN_BIT {
            (self.bits - SIGN_BIT) as u64
        } else {
            self.bits
        }
    }

    /// Not "not a number".
    pub open spec fn is_number(self) -> bool {
        self.magnitude() <= INFINITY_BITS
    }

    /// A number, and not an infinity.
    pub open spec fn is_finite(self) -> bool {
        self.magnitude() < INFINITY_BITS
    }

    /// The number this is, in units of the smallest positive double.
    pub open spec fn value(self) -> int {
        if self.bits >= SIGN_BIT {
            -(scaled(self.magnitude()) as int)
        } else {
            scaled(self.magnitude()) as int
        }
    }

    fn unsigned(self) -> (r: u64)
        ensures
            r == self.magnitude(),
    {
        if self.bits >= SIGN_BIT {
            self.bits - SIGN_BIT
        } else {
            self.bits
        }
    }

    /// Whether this is "not a number".
    pub fn is_nan(self) -> (r: bool)
        ensures
            r == !self.is_number(),
    {
        self.unsigned() > INFINITY_BITS
    }

    /// Whether this is a number other than the infinities.
    pub fn finite(self) -> (r: bool)
        ensures
            r == self.is_finite(),
    {
        self.unsigned() < INFINITY_BITS
    }

    /// IEEE 754's `<`: false where either side is not a number.
    pub fn less(self, other: Double) -> (r: bool)
        ensures
            r == (self.is_number() && other.is_number() && self.value() < other.value()),
    {
        if self.is_nan() || other.is_nan() {
            return false;
        }
        let a: u64 = self.unsigned();
        let b: u64 = other.unsigned();
        proof {
            if a < b {
                scaled_increases(a, b);
            }
            if b < a {
                scaled_increases(b, a);
            }
            if a > 0 {
                scaled_increases(0, a);
            }
            if b > 0 {
                scaled_increases(0, b);
            }
            assert(scaled(0) == 0);
        }
        if self.bits < SIGN_BIT {
            other.bits < SIGN_BIT && a < b
        } else if other.bits < SIGN_BIT {
            a > 0 || b > 0
        } else {
            b < a
        }
    }

    /// IEEE 754's `==`: false where either side is not a number.
    pub fn equals(self, other: Double) -> (r: bool)
        ensures
            r == (self.is_number() && other.is_number() && self.value() == other.value()),
    {
        !self.is_nan() && !other.is_nan() && !self.less(other) && !other.less(self)
    }
}

/// The number `n`, in units of the smallest positive double.
pub open spec fn whole(n: nat) -> int {
    (n * pow2(1074)) as int
}

/// Zero.
pub fn zero() -> (r: Double)
    ensures
        r.bits == 0,
        r.is_finite(),
        r.value() == whole(0),
{
    Double { bits: 0 }
}

/// One.
pub fn one() -> (r: Double)
    ensures
        r.bits == 0x3ff0_0000_0000_0000u64,
        r.is_finite(),
        r.value() == whole(1),
{
    proof {
        lemma2_to64_rest();
        lemma_pow2_adds(52, 1022);
        assert(0x3ff0_0000_0000_0000u64 / FRACTION_RANGE == 1023);
        assert(0x3ff0_0000_0000_0000u64 % FRACTION_RANGE == 0);
    }
    Double { bits: 0x3ff0_0000_0000_0000 }
}

/// The largest quantity that K-Ruoka keeps; it clamps to it in silence.
pub const MAX_AMOUNT: u64 = 999;

/// [`MAX_AMOUNT`] as a double.
pub fn max_amount() -> (r: Double)
    ensures
        r.bits == 0x408f_3800_0000_0000u64,
        r.is_finite(),
        r.value() == whole(MAX_AMOUNT as nat),
{
    proof {
        lemma2_to64_rest();
        lemma_pow2_adds(43, 1031);
        assert(0x408f_3800_0000_0000u64 / FRACTION_RANGE == 1032);
        assert(0x408f_3800_0000_0000u64 % FRACTION_RANGE == 0xf_3800_0000_0000u64);
        assert(0x0010_0000_0000_0000nat + 0xf_3800_0000_0000nat == 999 * 0x800_0000_0000nat);
        assert((999 * pow2(43)) * pow2(1031) == 999 * (pow2(43) * pow2(1031))) by (nonlinear_arith);
    }
    Double { bits: 0x408f_3800_0000_0000 }
}

/// A quantity, with the two ways it is written: `shown` to people, `json` on the wire.
#[derive(Debug)]
pub struct Amount {
    pub value: Double,
    /// The plain decimal form that messages use, such as `2` or `0.5`.
    pub shown: String,
    /// The JSON form, such as `2.0` or `0.5`.
    pub json: String,
}

impl Clone for Amount {
    fn clone(&self) -> (r: Self)
        ensures
            r == *self,
    {
        Amount { value: self.value, shown: self.shown.clone(), json: self.json.clone() }
    }
}

impl Amount {
    /// No quantity at all.
    pub fn none() -> (r: Amount)
        ensures
            r.value.bits == 0,
            r.value.is_finite(),
            r.value.value() == whole(0),
            r.shown@ == "0"@,
            r.json@ == "0.0"@,
    {
        Amount { value: zero(), shown: "0".to_owned(), json: "0.0".to_owned() }
    }

    /// A quantity of one.
    pub fn one() -> (r: Amount)
        ensures
            r.value.bits == 0x3ff0_0000_0000_0000u64,
            r.value.is_finite(),
            r.value.value() == whole(1),
            r.shown@ == "1"@,
            r.json@ == "1.0"@,
    {
        Amount { value: one(), shown: "1".to_owned(), json: "1.0".to_owned() }
    }
}

/// Which doubles are numbers, which are finite, which are zero and how they are ordered goes
/// by their bits alone: those without the sign bit by size, those with it the other way
/// round, below them.
pub proof fn doubles_go_by_their_bits(a: Double, b: Double)
    ensures
        a.is_number() <==> a.bits <= 0x7ff0_0000_0000_0000u64 || 0x8000_0000_0000_0000u64 <= a.bits
            <= 0xfff0_0000_0000_0000u64,
        a.is_finite() <==> a.bits < 0x7ff0_0000_0000_0000u64 || 0x8000_0000_0000_0000u64 <= a.bits
            < 0xfff0_0000_0000_0000u64,
        a.value() == 0 <==> a.bits == 0 || a.bits == 0x8000_0000_0000_0000u64,
        a.value() > 0 <==> 0 < a.bits < 0x8000_0000_0000_0000u64,
        a.bits < 0x8000_0000_0000_0000u64 && b.bits < 0x8000_0000_0000_0000u64 ==> (a.value()
            < b.value() <==> a.bits < b.bits),
        a.bits >= 0x8000_0000_0000_0000u64 && b.bits >= 0x8000_0000_0000_0000u64 ==> (a.value()
            < b.value() <==> b.bits < a.bits),
        a.value() == b.value() <==> a.bits == b.bits || (a.value() == 0 && b.value() == 0),
{
    let x = a.magnitude();
    let y = b.magnitude();
    assert(scaled(0) == 0);
    if x > 0 {
        scaled_increases(0, x);
    }
    if y > 0 {
        scaled_increases(0, y);
    }
    if x < y {
        scaled_increases(x, y);
    }
    if y < x {
        scaled_increases(y, x);
    }
}

/// The whole numbers that quantities are held against are the doubles of that value.
pub proof fn whole_numbers_are_their_doubles(d: Double)
    ensures
        d.is_number() && d.value() == whole(0) <==> d.bits == 0 || d.bits
            == 0x8000_0000_0000_0000u64,
        d.is_number() && d.value() == whole(MAX_AMOUNT as nat) <==> d.bits
            == 0x408f_3800_0000_0000u64,
        d.is_number() && d.value() > whole(0) <==> 0 < d.bits <= 0x7ff0_0000_0000_0000u64,
        d.is_number() && d.value() > whole(MAX_AMOUNT as nat) <==> 0x408f_3800_0000_0000u64 < d.bits
            <= 0x7ff0_0000_0000_0000u64,
{
    let limit = Double { bits: 0x408f_3800_0000_0000u64 };
    lemma2_to64_rest();
    lemma_pow2_adds(43, 1031);
    assert(0x408f_3800_0000_0000u64 / FRACTION_RANGE == 1032);
    assert(0x408f_3800_0000_0000u64 % FRACTION_RANGE == 0xf_3800_0000_0000u64);
    assert(0x0010_0000_0000_0000nat + 0xf_3800_0000_0000nat == 999 * 0x800_0000_0000nat);
    assert((999 * pow2(43)) * pow2(1031) == 999 * (pow2(43) * pow2(1031))) by (nonlinear_arith);
    assert(limit.value() == whole(MAX_AMOUNT as nat));
    doubles_go_by_their_bits(d, limit);
    doubles_go_by_their_bits(limit, d);
}

/// One is the double of that value.
pub proof fn one_is_its_double(d: Double)
    ensures
        d.is_number() && d.value() == whole(1) <==> d.bits == 0x3ff0_0000_0000_0000u64,
{
    let one = Double { bits: 0x3ff0_0000_0000_0000u64 };
    lemma2_to64_rest();
    lemma_pow2_adds(52, 1022);
    lemma_pow2_pos(1074);
    assert(0x3ff0_0000_0000_0000u64 / FRACTION_RANGE == 1023);
    assert(0x3ff0_0000_0000_0000u64 % FRACTION_RANGE == 0);
    assert(one.value() == whole(1));
    doubles_go_by_their_bits(d, one);
    doubles_go_by_their_bits(one, d);
}

} // verus!
