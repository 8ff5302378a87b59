//! US dollar amounts.
//!
//! An amount is kept as the bit pattern of an IEEE 754 binary64 number, the
//! form in which limits and ledger totals travel. The comparisons that budget
//! rules need are decided on that pattern, so that no amount is ever rounded.
use vstd::arithmetic::power2::{lemma_pow2_adds, lemma_pow2_pos, lemma_pow2_strictly_increases, lemma2_to64, pow2};
use vstd::prelude::*;

verus! {

/// Weight of the sign bit in a binary64 pattern.
pub const SIGN_BIT: u64 = 0x8000_0000_0000_0000;

/// Magnitude pattern of infinity; larger magnitudes are not numbers.
pub const INFINITE_MAGNITUDE: u64 = 0x7ff0_0000_0000_0000;

/// Number of fraction patterns per exponent.
pub const FRACTIONS: u64 = 0x0010_0000_0000_0000;

/// An amount in US dollars, held as a binary64 bit pattern.
#[derive(Clone, Copy, Debug, PartialEq, Eq, Structural)]
pub struct Usd {
    pub bits: u64,
}

impl Usd {
    /// The pattern without its sign.
    pub open spec fn magnitude(self) -> u64 {
        if self.bits >= SIGN_BIT {
            (self.bits - SIGN_BIT) as u64
        } else {
            self.bits
        }
    }

    pub open spec fn is_nan(self) -> bool {
        self.magnitude() > INFINITE_MAGNITUDE
    }

    pub open spec fn finite(self) -> bool {
        self.magnitude() < INFINITE_MAGNITUDE
    }

    /// Position of a number in the order of binary64; both zeros share one.
    pub open spec fn rank(self) -> int {
        if self.bits >= SIGN_BIT {
            -(self.magnitude() as int)
        } else {
            self.magnitude() as int
        }
    }

    /// The amount that a finite pattern stands for, counted in units of
    /// two to the power -1074.
    pub open spec fn units(self) -> int {
        if self.bits >= SIGN_BIT {
            -magnitude_units(self.magnitude() as nat)
        } else {
            magnitude_units(self.magnitude() as nat)
        }
    }

    /// `self >= other`; false as soon as one side is not a number.
    pub open spec fn at_least(self, other: Usd) -> bool {
        !self.is_nan() && !other.is_nan() && self.rank() >= other.rank()
    }

    pub open spec fn positive(self) -> bool {
        !self.is_nan() && self.rank() > 0
    }

    pub open spec fn is_zero_amount(self) -> bool {
        self.magnitude() == 0
    }

    /// A limit that a budget can carry: finite and above zero.
    pub open spec fn valid_limit(self) -> bool {
        self.finite() && self.rank() > 0
    }

    /// A limit that the store can carry: finite and not below zero.
    pub open spec fn storable_limit(self) -> bool {
        self.finite() && self.rank() >= 0
    }

    fn unsigned(self) -> (r: u64)
        ensures
            r == self.magnitude(),
    {
        if self.bits >= SIGN_BIT {
            self.bits - SIGN_BIT
        } else {
            self.bits
        }
    }

    /// Amount zero.
    pub fn zero() -> (r: Usd)
        ensures
            r == (Usd { bits: 0 }),
    {
        Usd { bits: 0 }
    }

    pub fn is_finite(self) -> (r: bool)
        ensures
            r == self.finite(),
    {
        self.unsigned() < INFINITE_MAGNITUDE
    }

    /// Whether the amount equals zero, of either sign.
    pub fn is_zero(self) -> (r: bool)
        ensures
            r == self.is_zero_amount(),
    {
        self.unsigned() == 0
    }

    /// Whether the amount is above zero.
    pub fn is_positive(self) -> (r: bool)
        ensures
            r == self.positive(),
    {
        let magnitude: u64 = self.unsigned();
        self.bits < SIGN_BIT && magnitude > 0 && magnitude <= INFINITE_MAGNITUDE
    }

    /// Whether this amount has reached `other`.
    pub fn reaches(self, other: Usd) -> (r: bool)
        ensures
            r == self.at_least(other),
    {
        let left: u64 = self.unsigned();
        let right: u64 = other.unsigned();
        if left > INFINITE_MAGNITUDE || right > INFINITE_MAGNITUDE {
            false
        } else if self.bits >= SIGN_BIT {
            if other.bits >= SIGN_BIT {
                left <= right
            } else {
                left == 0 && right == 0
            }
        } else if other.bits >= SIGN_BIT {
            true
        } else {
            left >= right
        }
    }

    /// Whether the amount may limit a budget: finite and above zero.
    pub fn is_valid_limit(self) -> (r: bool)
        ensures
            r == self.valid_limit(),
    {
        self.is_finite() && self.is_positive()
    }

    /// Whether the amount may be stored as a limit: finite and not below zero.
    pub fn is_storable_limit(self) -> (r: bool)
        ensures
            r == self.storable_limit(),
    {
        self.is_finite() && self.reaches(Usd::zero())
    }
}

/// The value of an unsigned finite pattern in units of two to the power -1074:
/// the fraction alone for subnormal numbers, otherwise the fraction with its
/// hidden leading one, shifted by the exponent.
pub open spec fn magnitude_units(magnitude: nat) -> int {
    let exponent = magnitude / (FRACTIONS as nat);
    let fraction = magnitude % (FRACTIONS as nat);
    if exponent == 0 {
        fraction as int
    } else {
        (FRACTIONS + fraction) * pow2((exponent - 1) as nat)
    }
}

/// A larger pattern stands for a larger amount.
proof fn lemma_magnitude_units_increase(a: nat, b: nat)
    requires
        a < b,
    ensures
        0 <= magnitude_units(a) < magnitude_units(b),
{
    let n = FRACTIONS as nat;
    let (ea, fa) = (a / n, a % n);
    let (eb, fb) = (b / n, b % n);
    assert(a == ea * n + fa && fa < n) by (nonlinear_arith)
        requires
            n == 0x0010_0000_0000_0000nat,
            ea == a / n,
            fa == a % n,
    ;
    assert(b == eb * n + fb && fb < n) by (nonlinear_arith)
        requires
            n == 0x0010_0000_0000_0000nat,
            eb == b / n,
            fb == b % n,
    ;
    assert(ea <= eb && (ea == eb ==> fa < fb)) by (nonlinear_arith)
        requires
            a < b,
            a == ea * n + fa,
            b == eb * n + fb,
            fa < n,
            fb < n,
    ;
    if ea > 0 {
        lemma_pow2_pos((ea - 1) as nat);
    }
    if eb > 0 {
        let pb = pow2((eb - 1) as nat) as int;
        lemma_pow2_pos((eb - 1) as nat);
        if ea == eb {
            assert((n + fa) * pb < (n + fb) * pb) by (nonlinear_arith)
                requires
                    pb > 0,
                    fa < fb,
            ;
            assert(0 <= (n + fa) * pb) by (nonlinear_arith)
                requires
                    pb > 0,
            ;
        } else if ea == 0 {
            assert(n <= (n + fb) * pb) by (nonlinear_arith)
                requires
                    pb > 0,
            ;
        } else {
            let pa = pow2((ea - 1) as nat) as int;
            lemma_pow2_adds((ea - 1) as nat, 1);
            lemma2_to64();
            assert(pow2(ea) == 2 * pa);
            if ea < eb - 1 {
                lemma_pow2_strictly_increases(ea, (eb - 1) as nat);
            }
            assert(pb >= 2 * pa);
            assert((n + fa) * pa < (n + fb) * pb) by (nonlinear_arith)
                requires
                    pa > 0,
                    pb >= 2 * pa,
                    fa < n,
            ;
            assert(0 <= (n + fa) * pa) by (nonlinear_arith)
                requires
                    pa > 0,
            ;
        }
    }
}

/// Comparing two finite amounts by their patterns is comparing the amounts
/// themselves.
pub proof fn law_order_is_numeric(a: Usd, b: Usd)
    requires
        a.finite(),
        b.finite(),
    ensures
        a.at_least(b) == (a.units() >= b.units()),
        a.positive() == (a.units() > 0),
        a.is_zero_amount() == (a.units() == 0),
{
    let ma = a.magnitude() as nat;
    let mb = b.magnitude() as nat;
    if ma < mb {
        lemma_magnitude_units_increase(ma, mb);
    }
    if mb < ma {
        lemma_magnitude_units_increase(mb, ma);
    }
    if ma > 0 {
        lemma_magnitude_units_increase(0, ma);
    }
    if mb > 0 {
        lemma_magnitude_units_increase(0, mb);
    }
    assert(magnitude_units(0) == 0);
}

} // verus!
