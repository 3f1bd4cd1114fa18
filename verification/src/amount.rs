//! Exact decimal amounts, kept as a scaled integer: an [`Amount`] with
//! mantissa `units` and scale `scale` denotes the value `units * 10^-scale`.
//! All arithmetic is exact; operations that would leave the representable
//! range report that instead of rounding.

use vstd::prelude::*;

verus! {

/// Largest magnitude the mantissa of an [`Amount`] may take: `2^96 - 1`,
/// the range of a 96-bit decimal mantissa.
pub const MAX_UNITS: i128 = 79228162514264337593543950335;

/// Largest number of decimal places an [`Amount`] may carry.
pub const MAX_SCALE: u32 = 28;

/// Powers of ten over the integers; non-positive exponents give 1.
pub open spec fn pow10(e: int) -> int
    decreases e,
{
    if e <= 0 {
        1
    } else {
        10 * pow10(e - 1)
    }
}

pub proof fn lemma_pow10_pos(e: int)
    ensures
        pow10(e) >= 1,
    decreases e,
{
    if e > 0 {
        lemma_pow10_pos(e - 1);
    }
}

pub proof fn lemma_pow10_adds(a: int, b: int)
    requires
        a >= 0,
        b >= 0,
    ensures
        pow10(a + b) == pow10(a) * pow10(b),
    decreases a,
{
    if a == 0 {
    } else {
        lemma_pow10_adds(a - 1, b);
        assert(10 * (pow10(a - 1) * pow10(b)) == (10 * pow10(a - 1)) * pow10(b))
            by (nonlinear_arith);
    }
}

pub proof fn lemma_pow10_increases(a: int, b: int)
    requires
        a <= b,
    ensures
        pow10(a) <= pow10(b),
    decreases b - a,
{
    if a < b {
        lemma_pow10_increases(a, b - 1);
        lemma_pow10_pos(b - 1);
    }
}

pub proof fn lemma_pow10_max_scale()
    ensures
        pow10(MAX_SCALE as int) == 10000000000000000000000000000,
{
    assert(pow10(0) == 1);
    assert(pow10(1) == 10);
    assert(pow10(2) == 100);
    assert(pow10(3) == 1000);
    assert(pow10(4) == 10000);
    assert(pow10(5) == 100000);
    assert(pow10(6) == 1000000);
    assert(pow10(7) == 10000000);
    assert(pow10(8) == 100000000);
    assert(pow10(9) == 1000000000);
    assert(pow10(10) == 10000000000);
    assert(pow10(11) == 100000000000);
    assert(pow10(12) == 1000000000000);
    assert(pow10(13) == 10000000000000);
    assert(pow10(14) == 100000000000000);
    assert(pow10(15) == 1000000000000000);
    assert(pow10(16) == 10000000000000000);
    assert(pow10(17) == 100000000000000000);
    assert(pow10(18) == 1000000000000000000);
    assert(pow10(19) == 10000000000000000000);
    assert(pow10(20) == 100000000000000000000);
    assert(pow10(21) == 1000000000000000000000);
    assert(pow10(22) == 10000000000000000000000);
    assert(pow10(23) == 100000000000000000000000);
    assert(pow10(24) == 1000000000000000000000000);
    assert(pow10(25) == 10000000000000000000000000);
    assert(pow10(26) == 100000000000000000000000000);
    assert(pow10(27) == 1000000000000000000000000000);
    assert(pow10(28) == 10000000000000000000000000000);
}

/// `10^e` as a machine integer, for exponents up to [`MAX_SCALE`].
pub fn pow10_i128(e: u32) -> (r: i128)
    requires
        e <= MAX_SCALE,
    ensures
        r == pow10(e as int),
        r >= 1,
{
    let mut r: i128 = 1;
    let mut i: u32 = 0;
    while i < e
        invariant
            i <= e <= MAX_SCALE,
            r == pow10(i as int),
        decreases e - i,
    {
        proof {
            lemma_pow10_pos(i as int);
            lemma_pow10_increases(i as int, MAX_SCALE as int - 1);
            lemma_pow10_max_scale();
            assert(pow10(MAX_SCALE as int) == 10 * pow10(MAX_SCALE as int - 1));
        }
        r = r * 10;
        i = i + 1;
    }
    proof {
        lemma_pow10_pos(e as int);
    }
    r
}

/// An exact decimal amount: the value `units * 10^-scale`.
#[derive(Clone, Copy, Debug)]
pub struct Amount {
    pub units: i128,
    pub scale: u32,
}

impl View for Amount {
    type V = int;

    /// The denoted value, scaled to an integer at [`MAX_SCALE`] decimal
    /// places: `units * 10^(MAX_SCALE - scale)`.
    open spec fn view(&self) -> int {
        self.units * pow10(MAX_SCALE as int - self.scale as int)
    }
}

/// The zero amount, at scale zero.
pub open spec fn spec_zero() -> Amount {
    Amount { units: 0, scale: 0 }
}

/// The larger of the two scales: the scale at which a sum or difference of
/// the two amounts is represented.
pub open spec fn spec_max_scale(a: Amount, b: Amount) -> int {
    if a.scale >= b.scale {
        a.scale as int
    } else {
        b.scale as int
    }
}

/// The mantissa of `a + b` at scale [`spec_max_scale`].
pub open spec fn spec_sum_units(a: Amount, b: Amount) -> int {
    a.units * pow10(spec_max_scale(a, b) - a.scale) + b.units * pow10(
        spec_max_scale(a, b) - b.scale,
    )
}

/// The mantissa of `a - b` at scale [`spec_max_scale`].
pub open spec fn spec_diff_units(a: Amount, b: Amount) -> int {
    a.units * pow10(spec_max_scale(a, b) - a.scale) - b.units * pow10(
        spec_max_scale(a, b) - b.scale,
    )
}

/// Whether `a + b` is exactly representable.
pub open spec fn can_add(a: Amount, b: Amount) -> bool {
    -MAX_UNITS <= spec_sum_units(a, b) <= MAX_UNITS
}

/// Whether `a - b` is exactly representable.
pub open spec fn can_sub(a: Amount, b: Amount) -> bool {
    -MAX_UNITS <= spec_diff_units(a, b) <= MAX_UNITS
}

/// A mantissa at the common scale denotes `a + b` exactly.
proof fn lemma_sum_value(a: Amount, b: Amount)
    requires
        a.inv(),
        b.inv(),
    ensures
        spec_sum_units(a, b) * pow10(MAX_SCALE as int - spec_max_scale(a, b)) == a@ + b@,
{
    let m: int = spec_max_scale(a, b);
    let p: int = pow10(MAX_SCALE as int - m);
    let da: int = m - a.scale;
    let db: int = m - b.scale;
    lemma_pow10_adds(da, MAX_SCALE as int - m);
    lemma_pow10_adds(db, MAX_SCALE as int - m);
    assert((a.units * pow10(da) + b.units * pow10(db)) * p == a.units * (pow10(da) * p)
        + b.units * (pow10(db) * p)) by (nonlinear_arith);
}

/// Value equality of two amounts is mantissa equality at the common scale.
proof fn lemma_value_eq_iff(a: Amount, b: Amount)
    requires
        a.inv(),
        b.inv(),
    ensures
        (a@ == b@) <==> (a.units * pow10(spec_max_scale(a, b) - a.scale) == b.units * pow10(
            spec_max_scale(a, b) - b.scale,
        )),
{
    let m: int = spec_max_scale(a, b);
    let p: int = pow10(MAX_SCALE as int - m);
    let da: int = m - a.scale;
    let db: int = m - b.scale;
    lemma_pow10_adds(da, MAX_SCALE as int - m);
    lemma_pow10_adds(db, MAX_SCALE as int - m);
    lemma_pow10_pos(MAX_SCALE as int - m);
    assert((a.units * pow10(da)) * p == a.units * (pow10(da) * p)) by (nonlinear_arith);
    assert((b.units * pow10(db)) * p == b.units * (pow10(db) * p)) by (nonlinear_arith);
    assert((a.units * pow10(da)) * p == (b.units * pow10(db)) * p && p >= 1 ==> a.units * pow10(da)
        == b.units * pow10(db)) by (nonlinear_arith);
}

impl Amount {
    /// Well-formedness: the mantissa and scale lie in the representable range.
    pub open spec fn inv(self) -> bool {
        &&& -MAX_UNITS <= self.units <= MAX_UNITS
        &&& self.scale <= MAX_SCALE
    }

    /// Builds the amount `units * 10^-scale`; `None` when the mantissa or the
    /// scale lies outside the representable range.
    pub fn new(units: i128, scale: u32) -> (r: Option<Amount>)
        ensures
            r is Some <==> (-MAX_UNITS <= units <= MAX_UNITS && scale <= MAX_SCALE),
            (r matches Some(a) ==> a.units == units && a.scale == scale && a.inv()),
    {
        if -MAX_UNITS <= units && units <= MAX_UNITS && scale <= MAX_SCALE {
            Some(Amount { units, scale })
        } else {
            None
        }
    }

    /// The zero amount, at scale zero.
    pub fn zero() -> (r: Amount)
        ensures
            r.inv(),
            r == spec_zero(),
            r@ == 0,
    {
        let r = Amount { units: 0, scale: 0 };
        r
    }

    /// The negated amount, at the same scale.
    pub fn neg(self) -> (r: Amount)
        requires
            self.inv(),
        ensures
            r.inv(),
            r.units == -self.units,
            r.scale == self.scale,
            r@ == -self@,
    {
        let r = Amount { units: -self.units, scale: self.scale };
        proof {
            assert((-self.units) * pow10(MAX_SCALE as int - self.scale as int) == -(self.units
                * pow10(MAX_SCALE as int - self.scale as int))) by (nonlinear_arith);
        }
        r
    }

    /// Exact addition; `None` exactly when the sum is not representable at
    /// the common scale.
    pub fn checked_add(self, other: Amount) -> (r: Option<Amount>)
        requires
            self.inv(),
            other.inv(),
        ensures
            r is Some <==> can_add(self, other),
            (r matches Some(c) ==> c.inv() && c.scale == spec_max_scale(self, other)
                && c.units == spec_sum_units(self, other) && c@ == self@ + other@),
    {
        let (lo, hi) = if self.scale >= other.scale {
            (other, self)
        } else {
            (self, other)
        };
        let f: i128 = pow10_i128(hi.scale - lo.scale);
        proof {
            assert(pow10(0) == 1);
            assert(spec_max_scale(self, other) == hi.scale as int);
            assert(spec_sum_units(self, other) == lo.units * (f as int) + hi.units);
        }
        match lo.units.checked_mul(f) {
            None => {
                proof {
                    // The aligned mantissa of `lo` overflows a machine word,
                    // so the sum lies far outside the representable range.
                    assert(lo.units * f > i128::MAX || lo.units * f < i128::MIN);
                }
                None
            },
            Some(aligned) => {
                match aligned.checked_add(hi.units) {
                    None => None,
                    Some(s) => {
                        if -MAX_UNITS <= s && s <= MAX_UNITS {
                            let c = Amount { units: s, scale: hi.scale };
                            proof {
                                lemma_sum_value(self, other);
                            }
                            Some(c)
                        } else {
                            None
                        }
                    },
                }
            },
        }
    }

    /// Exact subtraction; `None` exactly when the difference is not
    /// representable at the common scale.
    pub fn checked_sub(self, other: Amount) -> (r: Option<Amount>)
        requires
            self.inv(),
            other.inv(),
        ensures
            r is Some <==> can_sub(self, other),
            (r matches Some(c) ==> c.inv() && c.scale == spec_max_scale(self, other)
                && c.units == spec_diff_units(self, other) && c@ == self@ - other@),
    {
        let n = other.neg();
        proof {
            let m: int = spec_max_scale(self, other);
            assert(spec_max_scale(self, n) == m);
            assert((-other.units) * pow10(m - other.scale) == -(other.units * pow10(
                m - other.scale,
            ))) by (nonlinear_arith);
            assert(spec_sum_units(self, n) == spec_diff_units(self, other));
        }
        self.checked_add(n)
    }

    /// Whether the two amounts denote the same value, regardless of scale.
    pub fn eq_value(&self, other: &Amount) -> (r: bool)
        requires
            self.inv(),
            other.inv(),
        ensures
            r == (self@ == other@),
    {
        let (lo, hi) = if self.scale >= other.scale {
            (*other, *self)
        } else {
            (*self, *other)
        };
        let f: i128 = pow10_i128(hi.scale - lo.scale);
        proof {
            assert(pow10(0) == 1);
            lemma_value_eq_iff(*self, *other);
            assert((self@ == other@) <==> (lo.units * (f as int) == hi.units));
        }
        match lo.units.checked_mul(f) {
            None => {
                proof {
                    assert(lo.units * f > i128::MAX || lo.units * f < i128::MIN);
                }
                false
            },
            Some(x) => x == hi.units,
        }
    }
}

} // verus!
