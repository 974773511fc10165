//! Saturating fixed-point numbers with six decimal places.
//!
//! A [`Fixed`] holds a signed count of millionths. Every operation is total:
//! results that would leave the range of `i64` stop at its bounds, and
//! quotients round toward zero.

use vstd::prelude::*;

verus! {

/// Number of raw units in one whole.
pub const SCALE: i64 = 1_000_000;

/// Clamps an integer into the range of `i64`.
pub open spec fn sat(x: int) -> int {
    if x < i64::MIN {
        i64::MIN as int
    } else if x > i64::MAX {
        i64::MAX as int
    } else {
        x
    }
}

/// Quotient of `n` by a non-zero `d`, rounded toward zero.
pub open spec fn trunc_div(n: int, d: int) -> int {
    if d > 0 {
        if n >= 0 {
            n / d
        } else {
            -((-n) / d)
        }
    } else {
        if n >= 0 {
            -(n / (-d))
        } else {
            (-n) / (-d)
        }
    }
}

/// A fixed-point number: `raw` counts millionths.
#[derive(Clone, Copy, Debug, PartialEq, Eq, Structural)]
pub struct Fixed {
    pub raw: i64,
}

impl View for Fixed {
    type V = int;

    open spec fn view(&self) -> int {
        self.raw as int
    }
}

fn clamp_wide(x: i128) -> (r: i64)
    ensures
        r == sat(x as int),
{
    if x < i64::MIN as i128 {
        i64::MIN
    } else if x > i64::MAX as i128 {
        i64::MAX
    } else {
        x as i64
    }
}

impl Fixed {
    /// The number that `raw` millionths stand for.
    pub open spec fn spec_from_raw(raw: i64) -> Fixed {
        Fixed { raw }
    }

    #[verifier::when_used_as_spec(spec_from_raw)]
    pub fn from_raw(raw: i64) -> (r: Fixed)
        ensures
            r == Fixed::spec_from_raw(raw),
    {
        Fixed { raw }
    }

    pub open spec fn spec_from_int(whole: i64) -> Fixed {
        Fixed { raw: sat(whole * SCALE) as i64 }
    }

    /// The whole number `whole`, saturated.
    #[verifier::when_used_as_spec(spec_from_int)]
    pub fn from_int(whole: i64) -> (r: Fixed)
        ensures
            r == Fixed::spec_from_int(whole),
    {
        assert(-0x8000_0000_0000_0000 * 1_000_000 <= whole * 1_000_000 <= 0x7fff_ffff_ffff_ffff
            * 1_000_000) by (nonlinear_arith)
            requires
                -0x8000_0000_0000_0000 <= whole <= 0x7fff_ffff_ffff_ffff,
        ;
        Fixed { raw: clamp_wide(whole as i128 * SCALE as i128) }
    }

    pub open spec fn spec_zero() -> Fixed {
        Fixed { raw: 0 }
    }

    #[verifier::when_used_as_spec(spec_zero)]
    pub fn zero() -> (r: Fixed)
        ensures
            r == Fixed::spec_zero(),
    {
        Fixed { raw: 0 }
    }

    pub open spec fn spec_plus(self, rhs: Fixed) -> Fixed {
        Fixed { raw: sat(self.raw + rhs.raw) as i64 }
    }

    /// Saturating sum.
    #[verifier::when_used_as_spec(spec_plus)]
    pub fn plus(self, rhs: Fixed) -> (r: Fixed)
        ensures
            r == self.spec_plus(rhs),
    {
        Fixed { raw: clamp_wide(self.raw as i128 + rhs.raw as i128) }
    }

    pub open spec fn spec_minus(self, rhs: Fixed) -> Fixed {
        Fixed { raw: sat(self.raw - rhs.raw) as i64 }
    }

    /// Saturating difference.
    #[verifier::when_used_as_spec(spec_minus)]
    pub fn minus(self, rhs: Fixed) -> (r: Fixed)
        ensures
            r == self.spec_minus(rhs),
    {
        Fixed { raw: clamp_wide(self.raw as i128 - rhs.raw as i128) }
    }

    pub open spec fn spec_negated(self) -> Fixed {
        Fixed { raw: sat(-self.raw) as i64 }
    }

    /// Saturating negation.
    #[verifier::when_used_as_spec(spec_negated)]
    pub fn negated(self) -> (r: Fixed)
        ensures
            r == self.spec_negated(),
    {
        Fixed { raw: clamp_wide(-(self.raw as i128)) }
    }

    pub open spec fn spec_times(self, rhs: Fixed) -> Fixed {
        Fixed { raw: sat(trunc_div(self.raw * rhs.raw, SCALE as int)) as i64 }
    }

    /// Saturating product, rounded toward zero.
    #[verifier::when_used_as_spec(spec_times)]
    pub fn times(self, rhs: Fixed) -> (r: Fixed)
        ensures
            r == self.spec_times(rhs),
    {
        let a: i128 = self.raw as i128;
        let b: i128 = rhs.raw as i128;
        assert(-0x4000_0000_0000_0000_0000_0000_0000_0000 <= a * b
            <= 0x4000_0000_0000_0000_0000_0000_0000_0000) by (nonlinear_arith)
            requires
                -0x8000_0000_0000_0000 <= a <= 0x8000_0000_0000_0000,
                -0x8000_0000_0000_0000 <= b <= 0x8000_0000_0000_0000,
        ;
        Fixed { raw: clamp_wide((a * b) / (SCALE as i128)) }
    }

    pub open spec fn spec_over(self, rhs: Fixed) -> Option<Fixed> {
        if rhs.raw == 0 {
            None
        } else {
            Some(Fixed { raw: sat(trunc_div(self.raw * SCALE, rhs.raw as int)) as i64 })
        }
    }

    /// Saturating quotient, rounded toward zero; `None` exactly when `rhs` is zero.
    #[verifier::when_used_as_spec(spec_over)]
    pub fn over(self, rhs: Fixed) -> (r: Option<Fixed>)
        ensures
            r == self.spec_over(rhs),
    {
        if rhs.raw == 0 {
            return None;
        }
        let a: i128 = self.raw as i128;
        assert(-0x8000_0000_0000_0000 * 1_000_000 <= a * 1_000_000 <= 0x7fff_ffff_ffff_ffff
            * 1_000_000) by (nonlinear_arith)
            requires
                -0x8000_0000_0000_0000 <= a <= 0x7fff_ffff_ffff_ffff,
        ;
        let n: i128 = a * (SCALE as i128);
        let d: i128 = rhs.raw as i128;
        let q: i128 = if d > 0 {
            n / d
        } else if n >= 0 {
            -(n / (-d))
        } else {
            (-n) / (-d)
        };
        Some(Fixed { raw: clamp_wide(q) })
    }

    pub open spec fn spec_divided_by(self, rhs: Fixed) -> Fixed {
        Fixed { raw: sat(trunc_div(self.raw * SCALE, rhs.raw as int)) as i64 }
    }

    /// Saturating quotient by a divisor known not to be zero.
    #[verifier::when_used_as_spec(spec_divided_by)]
    pub fn divided_by(self, rhs: Fixed) -> (r: Fixed)
        requires
            rhs.raw != 0,
        ensures
            r == self.spec_divided_by(rhs),
    {
        match self.over(rhs) {
            Some(q) => q,
            None => self,
        }
    }

    pub open spec fn spec_clamped(self, low: Fixed, high: Fixed) -> Fixed {
        if self.raw < low.raw {
            low
        } else if self.raw > high.raw {
            high
        } else {
            self
        }
    }

    /// `self` restricted to the interval from `low` to `high`.
    #[verifier::when_used_as_spec(spec_clamped)]
    pub fn clamped(self, low: Fixed, high: Fixed) -> (r: Fixed)
        requires
            low.raw <= high.raw,
        ensures
            r == self.spec_clamped(low, high),
    {
        if self.raw < low.raw {
            low
        } else if self.raw > high.raw {
            high
        } else {
            self
        }
    }
}

/// Whether `r` is the square root of `n`, rounded down.
pub open spec fn is_root(n: nat, r: nat) -> bool {
    r * r <= n < (r + 1) * (r + 1)
}

/// The square root of `n`, rounded down.
pub open spec fn isqrt(n: nat) -> nat {
    choose|r: nat| is_root(n, r)
}

/// Every number has a rounded-down square root; this returns it.
pub proof fn square_root_witness(n: nat) -> (r: nat)
    ensures
        is_root(n, r),
        r == isqrt(n),
    decreases n,
{
    if n == 0 {
        assert(0nat * 0nat <= 0nat < (0nat + 1) * (0nat + 1)) by (nonlinear_arith);
        lemma_root_unique(0, 0);
        0
    } else {
        let p = square_root_witness((n - 1) as nat);
        let r: nat = if (p + 1) * (p + 1) <= n {
            p + 1
        } else {
            p
        };
        assert(is_root(n, r)) by (nonlinear_arith)
            requires
                p * p <= n - 1 < (p + 1) * (p + 1),
                r == if (p + 1) * (p + 1) <= n {
                    p + 1
                } else {
                    p
                },
        ;
        lemma_root_unique(n, r);
        r
    }
}

/// At most one number is the rounded-down square root of `n`, and `isqrt` names it.
pub proof fn lemma_root_unique(n: nat, r: nat)
    requires
        is_root(n, r),
    ensures
        isqrt(n) == r,
{
    let s = isqrt(n);
    assert(is_root(n, s));
    assert(s == r) by (nonlinear_arith)
        requires
            r * r <= n < (r + 1) * (r + 1),
            s * s <= n < (s + 1) * (s + 1),
    ;
}

/// Computes the square root of `n`, rounded down.
pub fn square_root(n: u128) -> (r: u64)
    ensures
        r == isqrt(n as nat),
{
    let mut low: u128 = 0;
    let mut high: u128 = 0x1_0000_0000_0000_0000;
    assert(n < high * high) by (nonlinear_arith)
        requires
            n <= 0xffff_ffff_ffff_ffff_ffff_ffff_ffff_ffff,
            high == 0x1_0000_0000_0000_0000,
    ;
    while high - low > 1
        invariant
            low < high <= 0x1_0000_0000_0000_0000,
            low * low <= n < high * high,
        decreases high - low,
    {
        let mid: u128 = low + (high - low) / 2;
        assert(mid * mid <= 0xffff_ffff_ffff_ffff * 0xffff_ffff_ffff_ffff) by (nonlinear_arith)
            requires
                0 <= mid <= 0xffff_ffff_ffff_ffff,
        ;
        if mid * mid <= n {
            low = mid;
        } else {
            high = mid;
        }
    }
    proof {
        lemma_root_unique(n as nat, low as nat);
    }
    low as u64
}

} // verus!
