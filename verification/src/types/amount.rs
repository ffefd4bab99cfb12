//! Fixed-point token amounts.

use vstd::prelude::*;

verus! {

/// Number of raw units in one whole HCLAW (18 decimal places).
pub const RAW_PER_HCLAW: u128 = 1_000_000_000_000_000_000;

/// An amount of HCLAW tokens, counted in raw units.
#[derive(Clone, Copy, Debug, PartialEq, Eq, Structural, PartialOrd, Ord, Hash)]
pub struct HclawAmount(pub u128);

impl Default for HclawAmount {
    fn default() -> (r: Self)
        ensures
            r.0 == 0,
    {
        HclawAmount(0)
    }
}

impl HclawAmount {
    /// The amount that `percentage` yields: `raw * percent / 100`, capped at
    /// the largest representable amount.
    pub open spec fn spec_percentage(raw: u128, percent: u8) -> int {
        let exact = (raw as int) * (percent as int) / 100;
        if exact > u128::MAX as int {
            u128::MAX as int
        } else {
            exact
        }
    }

    /// The zero amount.
    pub fn zero() -> (r: Self)
        ensures
            r.0 == 0,
    {
        HclawAmount(0)
    }

    /// An amount from raw units.
    pub fn from_raw(raw: u128) -> (r: Self)
        ensures
            r.0 == raw,
    {
        HclawAmount(raw)
    }

    /// An amount from whole HCLAW.
    pub fn from_hclaw(hclaw: u64) -> (r: Self)
        ensures
            r.0 == hclaw * RAW_PER_HCLAW,
    {
        assert(hclaw * RAW_PER_HCLAW <= u128::MAX) by (nonlinear_arith)
            requires
                hclaw <= u64::MAX,
                RAW_PER_HCLAW == 1_000_000_000_000_000_000,
        ;
        HclawAmount((hclaw as u128) * RAW_PER_HCLAW)
    }

    /// The raw unit count.
    pub fn raw(&self) -> (r: u128)
        ensures
            r == self.0,
    {
        self.0
    }

    /// Whole HCLAW, rounded down. A count that does not fit in 64 bits is
    /// reduced to its low 64 bits.
    pub fn whole_hclaw(&self) -> (r: u64)
        ensures
            r == (self.0 / RAW_PER_HCLAW) % 0x1_0000_0000_0000_0000,
            self.0 / RAW_PER_HCLAW <= u64::MAX ==> r == self.0 / RAW_PER_HCLAW,
    {
        ((self.0 / RAW_PER_HCLAW) % 0x1_0000_0000_0000_0000) as u64
    }

    /// Whether this is the zero amount.
    pub fn is_zero(&self) -> (r: bool)
        ensures
            r == (self.0 == 0),
    {
        self.0 == 0
    }

    /// Sum, capped at the largest representable amount.
    pub fn saturating_add(self, other: Self) -> (r: Self)
        ensures
            r.0 == if self.0 + other.0 > u128::MAX {
                u128::MAX
            } else {
                (self.0 + other.0) as u128
            },
    {
        HclawAmount(self.0.saturating_add(other.0))
    }

    /// Difference, floored at zero.
    pub fn saturating_sub(self, other: Self) -> (r: Self)
        ensures
            r.0 == if self.0 < other.0 {
                0
            } else {
                (self.0 - other.0) as u128
            },
    {
        HclawAmount(self.0.saturating_sub(other.0))
    }

    /// Sum, or `None` where it cannot be represented.
    pub fn checked_add(self, other: Self) -> (r: Option<Self>)
        ensures
            self.0 + other.0 <= u128::MAX ==> r == Some(HclawAmount((self.0 + other.0) as u128)),
            self.0 + other.0 > u128::MAX ==> r.is_none(),
    {
        match self.0.checked_add(other.0) {
            Some(v) => Some(HclawAmount(v)),
            None => None,
        }
    }

    /// Difference, or `None` where `other` is the larger.
    pub fn checked_sub(self, other: Self) -> (r: Option<Self>)
        ensures
            self.0 >= other.0 ==> r == Some(HclawAmount((self.0 - other.0) as u128)),
            self.0 < other.0 ==> r.is_none(),
    {
        match self.0.checked_sub(other.0) {
            Some(v) => Some(HclawAmount(v)),
            None => None,
        }
    }

    /// `count` times this amount, capped at the largest representable amount.
    pub fn saturating_mul(self, count: u128) -> (r: Self)
        ensures
            r.0 == if self.0 * count > u128::MAX {
                u128::MAX as int
            } else {
                self.0 * count
            },
    {
        match self.0.checked_mul(count) {
            Some(v) => HclawAmount(v),
            None => HclawAmount(u128::MAX),
        }
    }

    /// The smaller of two amounts.
    pub fn min(self, other: Self) -> (r: Self)
        ensures
            r.0 == if self.0 <= other.0 {
                self.0
            } else {
                other.0
            },
    {
        if self.0 <= other.0 {
            self
        } else {
            other
        }
    }

    /// The larger of two amounts.
    pub fn max(self, other: Self) -> (r: Self)
        ensures
            r.0 == if self.0 >= other.0 {
                self.0
            } else {
                other.0
            },
    {
        if self.0 >= other.0 {
            self
        } else {
            other
        }
    }

    /// `percent` hundredths of this amount, rounded down and capped at the
    /// largest representable amount.
    pub fn percentage(self, percent: u8) -> (r: Self)
        ensures
            r.0 == Self::spec_percentage(self.0, percent),
    {
        let q: u128 = self.0 / 100;
        let m: u128 = self.0 % 100;
        let p: u128 = percent as u128;
        // raw * p / 100 == q * p + (m * p) / 100 because raw == 100 * q + m.
        assert((self.0 as int) * (p as int) / 100 == (q as int) * (p as int) + ((m as int) * (
        p as int)) / 100) by (nonlinear_arith)
            requires
                self.0 as int == 100 * (q as int) + (m as int),
                0 <= m < 100,
                0 <= p,
        ;
        assert(m * p <= 99 * 255) by (nonlinear_arith)
            requires
                m <= 99,
                p <= 255,
        ;
        let low: u128 = (m * p) / 100;
        match q.checked_mul(p) {
            Some(high) => HclawAmount(high.saturating_add(low)),
            None => HclawAmount(u128::MAX),
        }
    }
}

} // verus!
