//! Geometry model: the touchpad's raw coordinate bounds and the
//! rectangular dead-zone test near the device edges.
//!
//! Each margin is a percentage of the axis maximum (the raw coordinate
//! origin is 0, so the maximum is the span reference). A sample is
//! excluded when it falls left of the left threshold, right of the right
//! threshold, above the top threshold or below the bottom threshold.

use vstd::arithmetic::div_mod::lemma_div_is_ordered;
use vstd::arithmetic::mul::lemma_mul_inequality;
use vstd::prelude::*;

verus! {

/// The raw value range that the touchpad hardware reports for its two
/// absolute axes.
#[derive(Debug, Clone, Copy, PartialEq, Eq, Structural)]
pub struct TouchpadDimensions {
    pub min_x: i32,
    pub max_x: i32,
    pub min_y: i32,
    pub max_y: i32,
}

impl TouchpadDimensions {
    /// The width of the raw X range; diagnostic only.
    pub fn width(&self) -> (r: i32)
        requires
            i32::MIN <= self.max_x - self.min_x <= i32::MAX,
        ensures
            r == self.max_x - self.min_x,
    {
        self.max_x - self.min_x
    }

    /// The height of the raw Y range; diagnostic only.
    pub fn height(&self) -> (r: i32)
        requires
            i32::MIN <= self.max_y - self.min_y <= i32::MAX,
        ensures
            r == self.max_y - self.min_y,
    {
        self.max_y - self.min_y
    }
}

/// Percentage margins, one per edge, to treat as dead zones. A margin of
/// 0 disables its edge; margins above 100, or opposing margins that
/// overlap, simply exclude the whole surface and are not rejected.
#[derive(Debug, Clone, Copy, PartialEq, Eq, Structural)]
pub struct ExclusionZones {
    pub top: u8,
    pub bottom: u8,
    pub left: u8,
    pub right: u8,
}

impl ExclusionZones {
    pub fn new(top: u8, bottom: u8, left: u8, right: u8) -> (z: Self)
        ensures
            z == (ExclusionZones { top, bottom, left, right }),
    {
        ExclusionZones { top, bottom, left, right }
    }

    /// No dead zones at all.
    pub fn none() -> (z: Self)
        ensures
            z == (ExclusionZones { top: 0u8, bottom: 0u8, left: 0u8, right: 0u8 }),
    {
        ExclusionZones::new(0, 0, 0, 0)
    }
}

/// `p / 100` rounded toward zero, the rounding the threshold math uses.
pub open spec fn div100_trunc(p: int) -> int {
    if p >= 0 {
        p / 100
    } else {
        -((-p) / 100)
    }
}

/// Samples with `x` strictly below this are in the left dead zone.
pub open spec fn left_threshold(dims: TouchpadDimensions, z: ExclusionZones) -> int {
    div100_trunc(dims.max_x * z.left)
}

/// Samples with `x` strictly above this are in the right dead zone.
pub open spec fn right_threshold(dims: TouchpadDimensions, z: ExclusionZones) -> int {
    div100_trunc(dims.max_x * (100 - z.right))
}

/// Samples with `y` strictly below this are in the top dead zone.
pub open spec fn top_threshold(dims: TouchpadDimensions, z: ExclusionZones) -> int {
    div100_trunc(dims.max_y * z.top)
}

/// Samples with `y` strictly above this are in the bottom dead zone.
pub open spec fn bottom_threshold(dims: TouchpadDimensions, z: ExclusionZones) -> int {
    div100_trunc(dims.max_y * (100 - z.bottom))
}

/// Whether the sample `(x, y)` lies inside any of the four dead zones.
pub open spec fn point_excluded(
    dims: TouchpadDimensions,
    z: ExclusionZones,
    x: int,
    y: int,
) -> bool {
    ||| x < left_threshold(dims, z)
    ||| x > right_threshold(dims, z)
    ||| y < top_threshold(dims, z)
    ||| y > bottom_threshold(dims, z)
}

/// `max * pct / 100`, rounded toward zero, computed without overflow.
fn scaled_threshold(max: i32, pct: i32) -> (t: i64)
    requires
        -255 <= pct <= 255,
    ensures
        t == div100_trunc(max * pct),
{
    proof {
        assert((max as int) * (pct as int) <= 255 * 0x8000_0000 && (max as int) * (pct as int)
            >= -255 * 0x8000_0000) by (nonlinear_arith)
            requires
                -255 <= pct <= 255,
                -0x8000_0000 <= max <= 0x7fff_ffff,
        ;
    }
    let prod: i64 = (max as i64) * (pct as i64);
    if prod >= 0 {
        (((prod as u64) / 100) as i64)
    } else {
        -((((-prod) as u64) / 100) as i64)
    }
}

/// Decides whether the sample `(x, y)` lies inside a dead zone of the
/// given geometry and margins.
pub fn is_point_excluded(dims: &TouchpadDimensions, z: &ExclusionZones, x: i32, y: i32) -> (r:
    bool)
    ensures
        r == point_excluded(*dims, *z, x as int, y as int),
{
    let lt = scaled_threshold(dims.max_x, z.left as i32);
    let rt = scaled_threshold(dims.max_x, 100 - (z.right as i32));
    let tt = scaled_threshold(dims.max_y, z.top as i32);
    let bt = scaled_threshold(dims.max_y, 100 - (z.bottom as i32));
    (x as i64) < lt || (x as i64) > rt || (y as i64) < tt || (y as i64) > bt
}

proof fn lemma_div100_trunc_monotonic(a: int, b: int)
    requires
        a <= b,
    ensures
        div100_trunc(a) <= div100_trunc(b),
{
    if 0 <= a {
        lemma_div_is_ordered(a, b, 100);
    } else if b < 0 {
        lemma_div_is_ordered(-b, -a, 100);
    } else {
        lemma_div_is_ordered(0, -a, 100);
        lemma_div_is_ordered(0, b, 100);
    }
}

/// Exclusion is monotone in the margins: for a geometry with
/// non-negative axis maxima, widening any margin (here: widening each
/// margin by any amount, possibly zero) can only grow, never shrink,
/// the set of samples classified as excluded.
pub proof fn lemma_exclusion_monotonic(
    dims: TouchpadDimensions,
    z1: ExclusionZones,
    z2: ExclusionZones,
    x: int,
    y: int,
)
    requires
        dims.max_x >= 0,
        dims.max_y >= 0,
        z1.top <= z2.top,
        z1.bottom <= z2.bottom,
        z1.left <= z2.left,
        z1.right <= z2.right,
        point_excluded(dims, z1, x, y),
    ensures
        point_excluded(dims, z2, x, y),
{
    lemma_mul_inequality(z1.left as int, z2.left as int, dims.max_x as int);
    lemma_mul_inequality(100 - z2.right, 100 - z1.right, dims.max_x as int);
    lemma_mul_inequality(z1.top as int, z2.top as int, dims.max_y as int);
    lemma_mul_inequality(100 - z2.bottom, 100 - z1.bottom, dims.max_y as int);
    lemma_div100_trunc_monotonic(dims.max_x * z1.left, dims.max_x * z2.left);
    lemma_div100_trunc_monotonic(dims.max_x * (100 - z2.right), dims.max_x * (100 - z1.right));
    lemma_div100_trunc_monotonic(dims.max_y * z1.top, dims.max_y * z2.top);
    lemma_div100_trunc_monotonic(dims.max_y * (100 - z2.bottom), dims.max_y * (100 - z1.bottom));
}

} // verus!
