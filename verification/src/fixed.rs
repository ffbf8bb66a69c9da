//! Fixed-point decimal numbers with four fractional digits.
//!
//! Development times, temperatures and compensation factors are exact
//! decimals; binary floating point would drift when rounding times to
//! seconds or splitting volumes.  A value is stored as a count of
//! ten-thousandths, so `20.5` is `Fixed { units: 205000 }`.

use vstd::prelude::*;

verus! {

/// Quotient `n / d` rounded to the nearest integer, ties to even
/// (banker's rounding), for `n >= 0`, `d > 0`.
pub open spec fn div_round_even(n: int, d: int) -> int
    recommends
        n >= 0,
        d > 0,
{
    let q = n / d;
    let r = n % d;
    if 2 * r < d {
        q
    } else if 2 * r > d {
        q + 1
    } else if q % 2 == 0 {
        q
    } else {
        q + 1
    }
}

/// Rounding a quotient moves it past the floor by at most one.
pub proof fn lemma_div_round_even_bounds(n: int, d: int)
    requires
        n >= 0,
        d > 0,
    ensures
        n / d <= div_round_even(n, d) <= n / d + 1,
{
}

pub(crate) fn div_round_even_u128(n: u128, d: u128) -> (q: u128)
    requires
        0 < d,
        d <= 0xffff_ffff_ffff_ffff,
        n < 0xffff_ffff_ffff_ffff_ffff_ffff_ffff_ffff,
    ensures
        q == div_round_even(n as int, d as int),
{
    let q0: u128 = n / d;
    let r0: u128 = n % d;
    if 2 * r0 < d {
        q0
    } else if 2 * r0 > d {
        q0 + 1
    } else if q0 % 2 == 0 {
        q0
    } else {
        q0 + 1
    }
}

/// A fixed-point decimal: the represented value is `units / 10000`.
#[derive(Clone, Copy, PartialEq, Eq, Structural, Debug)]
pub struct Fixed {
    pub units: i64,
}

impl Fixed {
    /// Dataset values (times, compensation factors) stay within this bound,
    /// which keeps every product the engine forms within machine range.
    pub open spec fn bounded(self) -> bool {
        0 <= self.units <= 1_000_000_000
    }

    pub fn from_units(units: i64) -> (r: Fixed)
        ensures
            r.units == units,
    {
        Fixed { units }
    }

    pub fn from_int(n: i64) -> (r: Fixed)
        requires
            -922_337_203_685_477 <= n <= 922_337_203_685_477,
        ensures
            r.units == n * 10000,
    {
        Fixed { units: n * 10000 }
    }

    /// Product of two nonnegative values, rounded to four decimal places,
    /// ties to even.
    pub fn mul(self, other: Fixed) -> (r: Fixed)
        requires
            0 <= self.units,
            0 <= other.units,
            self.units * other.units <= 0x7fff_ffff_ffff_ffff,
        ensures
            r.units == div_round_even(self.units * other.units, 10000),
            0 <= r.units <= self.units * other.units,
    {
        let p: u128 = (self.units as u128) * (other.units as u128);
        let q: u128 = div_round_even_u128(p, 10000);
        proof {
            lemma_div_round_even_bounds(p as int, 10000);
        }
        Fixed { units: q as i64 }
    }
}

} // verus!
