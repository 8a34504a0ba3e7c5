use vstd::arithmetic::div_mod::{lemma_div_is_ordered, lemma_fundamental_div_mod, lemma_mod_bound};
use vstd::prelude::*;

verus! {

/// Largest magnitude of a native coordinate or extent accepted by the conversions.
pub const NATIVE_LIMIT: i64 = 0x10_0000_0000;

/// Largest magnitude of a coordinate or extent accepted by the placement math.
pub const PLACE_LIMIT: i64 = 0x4_0000_0000_0000;

/// An axis-aligned rectangle: origin plus extent.
#[derive(Clone, Copy, Debug, PartialEq, Eq, Structural)]
pub struct Rect {
    pub x: i64,
    pub y: i64,
    pub width: i64,
    pub height: i64,
}

pub open spec fn within(v: int, limit: int) -> bool {
    -limit <= v <= limit
}

impl Rect {
    /// Non-negative extents and every value within `limit`.
    pub open spec fn bounded(self, limit: int) -> bool {
        &&& within(self.x as int, limit)
        &&& within(self.y as int, limit)
        &&& 0 <= self.width <= limit
        &&& 0 <= self.height <= limit
    }

    /// Non-negative extents, and both the near and the far edges within `limit`.
    pub open spec fn edges_within(self, limit: int) -> bool {
        &&& self.bounded(limit)
        &&& within(self.x + self.width, limit)
        &&& within(self.y + self.height, limit)
    }

    /// Half-open containment: inclusive lower bound, exclusive upper bound per axis.
    pub open spec fn contains_spec(self, px: int, py: int) -> bool {
        &&& self.x <= px < self.x + self.width
        &&& self.y <= py < self.y + self.height
    }

    /// Whether `other` lies fully inside `self`.
    pub open spec fn encloses(self, other: Rect) -> bool {
        &&& self.x <= other.x
        &&& self.y <= other.y
        &&& other.x + other.width <= self.x + self.width
        &&& other.y + other.height <= self.y + self.height
    }

    pub fn contains(&self, px: i64, py: i64) -> (r: bool)
        requires
            self.bounded(NATIVE_LIMIT as int),
        ensures
            r == self.contains_spec(px as int, py as int),
    {
        px >= self.x && px < self.x + self.width && py >= self.y && py < self.y + self.height
    }
}

/// Scale factors are carried in percent: 100 means one native unit per logical point.
pub open spec fn valid_scale(scale_percent: u32) -> bool {
    1 <= scale_percent <= 1000
}

/// A native measurement divided by the scale factor, rounded down.
pub open spec fn unscaled(v: int, scale_percent: int) -> int {
    (v * 100) / scale_percent
}

/// Largest magnitude of a dividend handed to `floor_div`.
pub const DIV_LIMIT: i64 = 0x1000_0000_0000_0000;

/// `n / d` rounded towards negative infinity.
pub fn floor_div(n: i64, d: i64) -> (r: i64)
    requires
        within(n as int, DIV_LIMIT as int),
        1 <= d <= 1000,
    ensures
        r as int == n as int / d as int,
        within(r as int, DIV_LIMIT as int),
        0 <= n ==> 0 <= r,
{
    let q = if n >= 0 {
        n / d
    } else {
        -((-n + d - 1) / d)
    };
    proof {
        lemma_floor_div(n as int, d as int);
    }
    q
}

/// Divides a native measurement by the scale factor, rounding down.
pub fn unscale(v: i64, scale_percent: u32) -> (r: i64)
    requires
        within(v as int, 4 * NATIVE_LIMIT),
        valid_scale(scale_percent),
    ensures
        r as int == unscaled(v as int, scale_percent as int),
        within(r as int, 400 * NATIVE_LIMIT),
{
    let r = floor_div(v * 100, scale_percent as i64);
    proof {
        lemma_floor_div(v * 100, scale_percent as int);
    }
    r
}

proof fn lemma_floor_div(n: int, s: int)
    requires
        1 <= s <= 1000,
        -DIV_LIMIT <= n <= DIV_LIMIT,
    ensures
        n < 0 ==> n / s == -((-n + s - 1) / s),
        n >= 0 ==> 0 <= n / s,
        -DIV_LIMIT <= n / s <= DIV_LIMIT,
        n <= 0 ==> n <= n / s,
        n >= 0 ==> n / s <= n,
{
    let q = n / s;
    let r = n % s;
    lemma_fundamental_div_mod(n, s);
    lemma_mod_bound(n, s);
    assert(n == q * s + r && 0 <= r < s);
    if n < 0 {
        let m = -n + s - 1;
        let q2 = m / s;
        let r2 = m % s;
        lemma_fundamental_div_mod(m, s);
        lemma_mod_bound(m, s);
        assert(m == q2 * s + r2 && 0 <= r2 < s);
        // -n + s - 1 == -q*s - r + s - 1 == (-q)*s + (s - 1 - r)
        assert(m == (-q) * s + (s - 1 - r)) by (nonlinear_arith)
            requires m == -n + s - 1, n == q * s + r,
        ;
        assert(q2 == -q) by (nonlinear_arith)
            requires m == q2 * s + r2, 0 <= r2 < s, m == (-q) * s + (s - 1 - r), 0 <= s - 1 - r < s,
        ;
    }
    assert(n <= 0 ==> n <= q) by (nonlinear_arith)
        requires n == q * s + r, 0 <= r < s, 1 <= s,
    ;
    assert(n >= 0 ==> 0 <= q <= n) by (nonlinear_arith)
        requires n == q * s + r, 0 <= r < s, 1 <= s,
    ;
}

/// A native measurement divided by the scale factor, rounded up.
pub open spec fn unscaled_up(v: int, scale_percent: int) -> int {
    -unscaled(-v, scale_percent)
}

/// Divides a native measurement by the scale factor, rounding up.
pub fn unscale_up(v: i64, scale_percent: u32) -> (r: i64)
    requires
        within(v as int, 4 * NATIVE_LIMIT),
        valid_scale(scale_percent),
    ensures
        r as int == unscaled_up(v as int, scale_percent as int),
        within(r as int, 400 * NATIVE_LIMIT),
{
    -unscale(-v, scale_percent)
}

/// Rounding down never exceeds rounding up, and a value strictly below
/// another stays strictly below once the lower is rounded down and the
/// higher rounded up.
pub proof fn lemma_unscaled_up_bounds(a: int, b: int, scale_percent: int)
    requires
        1 <= scale_percent,
    ensures
        unscaled(a, scale_percent) <= unscaled_up(a, scale_percent),
        a <= b ==> unscaled_up(a, scale_percent) <= unscaled_up(b, scale_percent),
        a < b ==> unscaled(a, scale_percent) < unscaled_up(b, scale_percent),
{
    let s = scale_percent;
    lemma_ceil_tolerance(a, s);
    lemma_ceil_tolerance(b, s);
    lemma_unscaled_tolerance(a, s);
    let la = unscaled(a, s);
    let ua = unscaled_up(a, s);
    let ub = unscaled_up(b, s);
    assert(la <= ua) by (nonlinear_arith)
        requires
            0 <= 100 * a - s * la,
            0 <= s * ua - 100 * a,
            1 <= s,
    {
        if la > ua {
            assert(s * la > s * ua) by (nonlinear_arith) requires la > ua, 1 <= s;
        }
    }
    if a <= b {
        lemma_unscaled_monotone(-b, -a, s);
    }
    assert(a < b ==> la < ub) by (nonlinear_arith)
        requires
            0 <= 100 * a - s * la < s,
            0 <= s * ub - 100 * b < s,
            1 <= s,
    {
        if a < b && la >= ub {
            assert(s * la >= s * ub) by (nonlinear_arith) requires la >= ub, 1 <= s;
        }
    }
}

/// Scaling a measurement rounded up back up lands within one logical point
/// above the original: `0 <= scale * unscaled_up(v) - 100 * v < scale`.
pub proof fn lemma_ceil_tolerance(v: int, scale_percent: int)
    requires
        1 <= scale_percent,
    ensures
        0 <= scale_percent * unscaled_up(v, scale_percent) - 100 * v < scale_percent,
{
    let s = scale_percent;
    lemma_unscaled_tolerance(-v, s);
    let d = unscaled(-v, s);
    assert(s * unscaled_up(v, s) == -(s * d)) by (nonlinear_arith)
        requires unscaled_up(v, s) == -d;
}

/// Dividing by the scale and rounding down keeps the order of measurements.
pub proof fn lemma_unscaled_monotone(a: int, b: int, scale_percent: int)
    requires
        a <= b,
        1 <= scale_percent,
    ensures
        unscaled(a, scale_percent) <= unscaled(b, scale_percent),
{
    lemma_div_is_ordered(a * 100, b * 100, scale_percent);
}

/// Scaling a converted measurement back up lands within one logical point
/// below the original: `0 <= 100 * v - scale * unscaled(v) < scale`.
pub proof fn lemma_unscaled_tolerance(v: int, scale_percent: int)
    requires
        1 <= scale_percent,
    ensures
        0 <= 100 * v - scale_percent * unscaled(v, scale_percent) < scale_percent,
{
    lemma_fundamental_div_mod(v * 100, scale_percent);
    lemma_mod_bound(v * 100, scale_percent);
}

} // verus!
