//! The viewport transform: a `(center, zoom)` pair mapping viewport pixels
//! to world (content) coordinates, with exact fixed-point arithmetic.
//!
//! Zoom is counted in fifths of a zoom level (one wheel tick changes the
//! zoom level by 0.2), clamped to `[ZOOM_MIN_FIFTHS, ZOOM_MAX_FIFTHS]`.
//! The derived scale is `2^(-zoom)` in Q21 fixed point (`scale_of(0) ==
//! 2^21`): fractional zoom levels use a Q16 table of `2^(-r/5)` for the
//! five step positions inside one level, so the scale is always a positive
//! integer and strictly decreasing in the zoom.  Centers are kept in "fine
//! world units" (world units times 2^21), so the pan and zoom-to-cursor
//! updates are exact integer arithmetic and the zoom-to-cursor invariant
//! holds with equality, not merely within a tolerance.

use vstd::prelude::*;
use vstd::arithmetic::mul::{lemma_mul_strict_inequality, lemma_mul_strictly_positive};

verus! {

/// Lowest zoom, in fifths of a zoom level (zoom level -5.0).
pub const ZOOM_MIN_FIFTHS: i32 = -25;

/// Highest zoom, in fifths of a zoom level (zoom level 5.0).
pub const ZOOM_MAX_FIFTHS: i32 = 25;

/// Initial zoom, in fifths of a zoom level (zoom level 1.0).
pub const ZOOM_DEFAULT_FIFTHS: i32 = 5;

/// Largest magnitude accepted for a pixel coordinate (2^20).
pub const COORD_LIMIT: i64 = 0x10_0000;

/// Largest magnitude kept for a center coordinate, in fine world units (2^56).
pub const CENTER_LIMIT: i64 = 0x100_0000_0000_0000;

/// Largest value of `scale_of` over the zoom range (2^26, at the lowest zoom).
pub const SCALE_MAX: i64 = 0x400_0000;

/// `2^(-r/5)` in Q16 fixed point, for the step position `r` in `0..5`.
pub open spec fn frac_q16(r: int) -> int {
    if r == 0 {
        65536
    } else if r == 1 {
        57052
    } else if r == 2 {
        49667
    } else if r == 3 {
        43238
    } else {
        37641
    }
}

/// `2^k` for `k` in `0..=10` (callers never use it outside that range).
pub open spec fn pow2_small(k: int) -> int {
    if k <= 0 {
        1
    } else if k == 1 {
        2
    } else if k == 2 {
        4
    } else if k == 3 {
        8
    } else if k == 4 {
        16
    } else if k == 5 {
        32
    } else if k == 6 {
        64
    } else if k == 7 {
        128
    } else if k == 8 {
        256
    } else if k == 9 {
        512
    } else {
        1024
    }
}

/// Whether a zoom (in fifths) lies in the clamp range.
pub open spec fn zoom_in_range(z: int) -> bool {
    ZOOM_MIN_FIFTHS <= z <= ZOOM_MAX_FIFTHS
}

/// The scale derived from a zoom of `f` fifths: `2^(-f/5)` in Q21 fixed
/// point, evaluated as a Q16 fraction for the step inside the zoom level
/// times the power of two for the level itself.
pub open spec fn scale_of(f: int) -> int {
    frac_q16((f - ZOOM_MIN_FIFTHS) % 5) * pow2_small(10 - (f - ZOOM_MIN_FIFTHS) / 5)
}

/// Clamp an integer into `[lo, hi]`.
pub open spec fn clamp_spec(v: int, lo: int, hi: int) -> int {
    if v < lo {
        lo
    } else if v > hi {
        hi
    } else {
        v
    }
}

/// A viewport rectangle in pixels: origin and extent.
#[derive(Clone, Copy, Debug, PartialEq, Eq, Structural)]
pub struct Bounds {
    pub x: i64,
    pub y: i64,
    pub width: i64,
    pub height: i64,
}

impl Bounds {
    /// Origin within the coordinate limit, extents non-negative and bounded.
    pub open spec fn wf(self) -> bool {
        &&& -COORD_LIMIT <= self.x <= COORD_LIMIT
        &&& -COORD_LIMIT <= self.y <= COORD_LIMIT
        &&& 0 <= self.width <= COORD_LIMIT
        &&& 0 <= self.height <= COORD_LIMIT
    }

    /// Whether the pixel `(px, py)` lies inside the rectangle
    /// (closed at the origin edges, open at the far edges).
    pub open spec fn contains_spec(self, px: int, py: int) -> bool {
        &&& self.x <= px < self.x + self.width
        &&& self.y <= py < self.y + self.height
    }

    /// Executable form of `contains_spec`.
    pub fn contains(&self, px: i64, py: i64) -> (r: bool)
        requires
            self.wf(),
            -COORD_LIMIT <= px <= COORD_LIMIT,
            -COORD_LIMIT <= py <= COORD_LIMIT,
        ensures
            r == self.contains_spec(px as int, py as int),
    {
        self.x <= px && px < self.x + self.width && self.y <= py && py < self.y + self.height
    }
}

/// The continuous viewport transform: a center in fine world units and a
/// zoom in fifths of a zoom level.
#[derive(Clone, Copy, Debug, PartialEq, Eq, Structural)]
pub struct Transform {
    pub center_x: i64,
    pub center_y: i64,
    pub zoom_fifths: i32,
}

/// Twice the signed horizontal offset of the pixel `px` from the center of
/// the bounds that start at `bx` and are `bw` wide (doubled so that it is
/// exact even for odd extents).
pub open spec fn twice_offset(px: int, bx: int, bw: int) -> int {
    2 * px - (2 * bx + bw)
}

/// The world coordinate (in fine world units) under the pixel `px`, for a
/// center coordinate `c`, a scale `s` and bounds starting at `bx` with
/// extent `bw`.
pub open spec fn world_coord(c: int, s: int, px: int, bx: int, bw: int) -> int {
    c + s * twice_offset(px, bx, bw)
}

/// The transform after a pan of `(dx, dy)` pixels: each center coordinate
/// moves by twice the pixel delta times the scale, clamped to the center
/// limit; the zoom is untouched.
pub open spec fn panned(t: Transform, dx: int, dy: int) -> Transform {
    let s = scale_of(t.zoom_fifths as int);
    Transform {
        center_x: clamp_spec(t.center_x - 2 * dx * s, -CENTER_LIMIT as int, CENTER_LIMIT as int) as i64,
        center_y: clamp_spec(t.center_y - 2 * dy * s, -CENTER_LIMIT as int, CENTER_LIMIT as int) as i64,
        zoom_fifths: t.zoom_fifths,
    }
}

/// The zoom reached from `z` after a wheel delta of `dy` fifths, clamped.
pub open spec fn zoom_target(z: int, dy: int) -> int {
    clamp_spec(z + dy, ZOOM_MIN_FIFTHS as int, ZOOM_MAX_FIFTHS as int)
}

/// The transform after a wheel delta of `dy` fifths at the cursor pixel
/// `(px, py)` over `b`: the zoom moves to its clamped target and each
/// center coordinate shifts by the cursor's doubled offset from the bounds
/// center times the drop in scale, keeping the world point under the
/// cursor fixed.
pub open spec fn zoomed(t: Transform, px: int, py: int, b: Bounds, dy: int) -> Transform {
    let s_old = scale_of(t.zoom_fifths as int);
    let z_new = zoom_target(t.zoom_fifths as int, dy);
    let s_new = scale_of(z_new);
    Transform {
        center_x: clamp_spec(
            t.center_x + twice_offset(px, b.x as int, b.width as int) * (s_old - s_new),
            -CENTER_LIMIT as int,
            CENTER_LIMIT as int,
        ) as i64,
        center_y: clamp_spec(
            t.center_y + twice_offset(py, b.y as int, b.height as int) * (s_old - s_new),
            -CENTER_LIMIT as int,
            CENTER_LIMIT as int,
        ) as i64,
        zoom_fifths: z_new as i32,
    }
}

impl Transform {
    /// Zoom within the clamp range, center within the center limit.
    pub open spec fn wf(self) -> bool {
        &&& zoom_in_range(self.zoom_fifths as int)
        &&& -CENTER_LIMIT <= self.center_x <= CENTER_LIMIT
        &&& -CENTER_LIMIT <= self.center_y <= CENTER_LIMIT
    }

    /// The initial transform: origin center at the default zoom.
    pub fn start() -> (t: Transform)
        ensures
            t == (Transform { center_x: 0i64, center_y: 0i64, zoom_fifths: ZOOM_DEFAULT_FIFTHS }),
            t.wf(),
    {
        Transform { center_x: 0, center_y: 0, zoom_fifths: ZOOM_DEFAULT_FIFTHS }
    }

    /// The scale of this transform's zoom: `2^(-zoom)` in Q21 fixed point.
    pub fn scale(&self) -> (s: i64)
        requires
            self.wf(),
        ensures
            s == scale_of(self.zoom_fifths as int),
            0 < s <= SCALE_MAX,
    {
        proof {
            lemma_scale_bounds(self.zoom_fifths as int);
        }
        scale_exec(self.zoom_fifths)
    }

    /// Pan by `(dx, dy)` pixels.
    pub fn apply_pan(&mut self, dx: i64, dy: i64)
        requires
            old(self).wf(),
            -2 * COORD_LIMIT <= dx <= 2 * COORD_LIMIT,
            -2 * COORD_LIMIT <= dy <= 2 * COORD_LIMIT,
        ensures
            *final(self) == panned(*old(self), dx as int, dy as int),
            final(self).wf(),
    {
        let s = self.scale();
        proof {
            lemma_abs_mul_bound(2 * dx as int, s as int, 0x40_0000, SCALE_MAX as int);
            lemma_abs_mul_bound(2 * dy as int, s as int, 0x40_0000, SCALE_MAX as int);
        }
        self.center_x = clamp_i64(self.center_x - 2 * dx * s, -CENTER_LIMIT, CENTER_LIMIT);
        self.center_y = clamp_i64(self.center_y - 2 * dy * s, -CENTER_LIMIT, CENTER_LIMIT);
    }

    /// Zoom by `dy` fifths about the cursor pixel `(px, py)` over `b`.
    pub fn apply_zoom(&mut self, px: i64, py: i64, b: Bounds, dy: i32)
        requires
            old(self).wf(),
            b.wf(),
            -COORD_LIMIT <= px <= COORD_LIMIT,
            -COORD_LIMIT <= py <= COORD_LIMIT,
        ensures
            *final(self) == zoomed(*old(self), px as int, py as int, b, dy as int),
            final(self).wf(),
    {
        proof {
            lemma_scale_bounds(self.zoom_fifths as int);
        }
        let s_old = self.scale();
        let target: i64 = self.zoom_fifths as i64 + dy as i64;
        let z_new: i32 = clamp_i64(target, ZOOM_MIN_FIFTHS as i64, ZOOM_MAX_FIFTHS as i64) as i32;
        proof {
            lemma_scale_bounds(z_new as int);
        }
        let s_new = scale_exec(z_new);
        let tx = 2 * px - (2 * b.x + b.width);
        let ty = 2 * py - (2 * b.y + b.height);
        proof {
            lemma_abs_mul_bound(tx as int, s_old - s_new, 0x50_0000, SCALE_MAX as int);
            lemma_abs_mul_bound(ty as int, s_old - s_new, 0x50_0000, SCALE_MAX as int);
        }
        self.center_x = clamp_i64(self.center_x + tx * (s_old - s_new), -CENTER_LIMIT, CENTER_LIMIT);
        self.center_y = clamp_i64(self.center_y + ty * (s_old - s_new), -CENTER_LIMIT, CENTER_LIMIT);
        self.zoom_fifths = z_new;
    }

    /// The world point (in fine world units) under the pixel `(px, py)`
    /// when this transform shows bounds `b`.
    pub fn world_point(&self, px: i64, py: i64, b: Bounds) -> (w: (i64, i64))
        requires
            self.wf(),
            b.wf(),
            -COORD_LIMIT <= px <= COORD_LIMIT,
            -COORD_LIMIT <= py <= COORD_LIMIT,
        ensures
            w.0 == world_coord(
                self.center_x as int,
                scale_of(self.zoom_fifths as int),
                px as int,
                b.x as int,
                b.width as int,
            ),
            w.1 == world_coord(
                self.center_y as int,
                scale_of(self.zoom_fifths as int),
                py as int,
                b.y as int,
                b.height as int,
            ),
    {
        let s = self.scale();
        let tx = 2 * px - (2 * b.x + b.width);
        let ty = 2 * py - (2 * b.y + b.height);
        proof {
            lemma_abs_mul_bound(s as int, tx as int, SCALE_MAX as int, 0x50_0000);
            lemma_abs_mul_bound(s as int, ty as int, SCALE_MAX as int, 0x50_0000);
        }
        (self.center_x + s * tx, self.center_y + s * ty)
    }
}

/// Clamp `v` into `[lo, hi]`.
pub fn clamp_i64(v: i64, lo: i64, hi: i64) -> (r: i64)
    requires
        lo <= hi,
    ensures
        r == clamp_spec(v as int, lo as int, hi as int),
{
    if v < lo {
        lo
    } else if v > hi {
        hi
    } else {
        v
    }
}


/// Bound on a product of two bounded factors.
proof fn lemma_abs_mul_bound(a: int, b: int, ab: int, bb: int) by (nonlinear_arith)
    requires
        -ab <= a <= ab,
        -bb <= b <= bb,
        0 <= ab,
        0 <= bb,
    ensures
        -(ab * bb) <= a * b <= ab * bb,
{
}

/// Executable form of `scale_of` over the zoom range.
fn scale_exec(f: i32) -> (s: i64)
    requires
        zoom_in_range(f as int),
    ensures
        s == scale_of(f as int),
{
    let g: i32 = f - ZOOM_MIN_FIFTHS;
    let e: i32 = g / 5;
    let r: i32 = g % 5;
    let frac: i64 = if r == 0 {
        65536
    } else if r == 1 {
        57052
    } else if r == 2 {
        49667
    } else if r == 3 {
        43238
    } else {
        37641
    };
    let p: i64 = if e == 0 {
        1024
    } else if e == 1 {
        512
    } else if e == 2 {
        256
    } else if e == 3 {
        128
    } else if e == 4 {
        64
    } else if e == 5 {
        32
    } else if e == 6 {
        16
    } else if e == 7 {
        8
    } else if e == 8 {
        4
    } else if e == 9 {
        2
    } else {
        1
    };
    frac * p
}

/// The scale is positive and bounded by `SCALE_MAX` over the zoom range.
pub proof fn lemma_scale_bounds(f: int)
    requires
        zoom_in_range(f),
    ensures
        0 < scale_of(f) <= SCALE_MAX,
{
    let g = f - ZOOM_MIN_FIFTHS;
    assert(0 <= g <= 50);
    assert(0 <= g % 5 < 5);
    assert(0 <= g / 5 <= 10);
    assert(37641 <= frac_q16(g % 5) <= 65536);
    assert(1 <= pow2_small(10 - g / 5) <= 1024);
    lemma_mul_strictly_positive(frac_q16(g % 5), pow2_small(10 - g / 5));
    vstd::arithmetic::mul::lemma_mul_upper_bound(
        frac_q16(g % 5),
        65536,
        pow2_small(10 - g / 5),
        1024,
    );
}

/// The scale strictly shrinks from one zoom step to the next.
proof fn lemma_scale_adjacent(f: int)
    requires
        ZOOM_MIN_FIFTHS <= f < ZOOM_MAX_FIFTHS,
    ensures
        scale_of(f) > scale_of(f + 1),
{
    let g = f - ZOOM_MIN_FIFTHS;
    let e = g / 5;
    let r = g % 5;
    assert(0 <= g <= 49);
    assert(g == 5 * e + r && 0 <= r < 5);
    if r < 4 {
        assert((g + 1) / 5 == e && (g + 1) % 5 == r + 1);
        assert(frac_q16(r) > frac_q16(r + 1));
        lemma_mul_strict_inequality(frac_q16(r + 1), frac_q16(r), pow2_small(10 - e));
    } else {
        assert((g + 1) / 5 == e + 1 && (g + 1) % 5 == 0);
        assert(e <= 9);
        assert(pow2_small(10 - e) == 2 * pow2_small(10 - (e + 1)));
        assert(scale_of(f) == 37641 * (2 * pow2_small(9 - e)));
        assert(37641 * (2 * pow2_small(9 - e)) == 75282 * pow2_small(9 - e))
            by (nonlinear_arith);
        lemma_mul_strict_inequality(65536, 75282, pow2_small(9 - e));
    }
}

/// The scale is strictly decreasing in the zoom over the whole zoom range.
pub proof fn lemma_scale_strictly_decreasing(f1: int, f2: int)
    requires
        zoom_in_range(f1),
        zoom_in_range(f2),
        f1 < f2,
    ensures
        scale_of(f1) > scale_of(f2),
    decreases f2 - f1,
{
    lemma_scale_adjacent(f1);
    if f1 + 1 < f2 {
        lemma_scale_strictly_decreasing(f1 + 1, f2);
    }
}

/// A pan of `(0, 0)` never changes the center (nor anything else).
pub proof fn lemma_pan_zero(t: Transform)
    requires
        t.wf(),
    ensures
        panned(t, 0, 0) == t,
{
    assert(2 * 0 * scale_of(t.zoom_fifths as int) == 0) by (nonlinear_arith);
}

/// The zoom target always stays inside the clamp range, however large the
/// wheel delta; at a saturated bound, a delta pushing further leaves the
/// zoom where it is.
pub proof fn lemma_zoom_clamped(z: int, dy: int)
    requires
        zoom_in_range(z),
    ensures
        zoom_in_range(zoom_target(z, dy)),
        z == ZOOM_MAX_FIFTHS && dy >= 0 ==> zoom_target(z, dy) == ZOOM_MAX_FIFTHS,
        z == ZOOM_MIN_FIFTHS && dy <= 0 ==> zoom_target(z, dy) == ZOOM_MIN_FIFTHS,
{
}

/// When the zoom saturates fully (the clamped target equals the old zoom),
/// a zoom step leaves the center untouched.
pub proof fn lemma_zoom_saturated_center_fixed(t: Transform, px: int, py: int, b: Bounds, dy: int)
    requires
        t.wf(),
        b.wf(),
        zoom_target(t.zoom_fifths as int, dy) == t.zoom_fifths as int,
    ensures
        zoomed(t, px, py, b, dy) == t,
{
}

/// Zoom-to-cursor invariant: as long as neither clamped center coordinate
/// saturates, one zoom step maps the world point that was under the cursor
/// back under the cursor, exactly.
pub proof fn lemma_zoom_keeps_cursor_point(t: Transform, px: int, py: int, b: Bounds, dy: int)
    requires
        t.wf(),
        b.wf(),
        -COORD_LIMIT <= px <= COORD_LIMIT,
        -COORD_LIMIT <= py <= COORD_LIMIT,
        -CENTER_LIMIT <= t.center_x + twice_offset(px, b.x as int, b.width as int) * (
        scale_of(t.zoom_fifths as int) - scale_of(zoom_target(t.zoom_fifths as int, dy))),
        t.center_x + twice_offset(px, b.x as int, b.width as int) * (scale_of(
            t.zoom_fifths as int,
        ) - scale_of(zoom_target(t.zoom_fifths as int, dy))) <= CENTER_LIMIT,
        -CENTER_LIMIT <= t.center_y + twice_offset(py, b.y as int, b.height as int) * (
        scale_of(t.zoom_fifths as int) - scale_of(zoom_target(t.zoom_fifths as int, dy))),
        t.center_y + twice_offset(py, b.y as int, b.height as int) * (scale_of(
            t.zoom_fifths as int,
        ) - scale_of(zoom_target(t.zoom_fifths as int, dy))) <= CENTER_LIMIT,
    ensures
        ({
            let u = zoomed(t, px, py, b, dy);
            &&& world_coord(
                u.center_x as int,
                scale_of(u.zoom_fifths as int),
                px,
                b.x as int,
                b.width as int,
            ) == world_coord(
                t.center_x as int,
                scale_of(t.zoom_fifths as int),
                px,
                b.x as int,
                b.width as int,
            )
            &&& world_coord(
                u.center_y as int,
                scale_of(u.zoom_fifths as int),
                py,
                b.y as int,
                b.height as int,
            ) == world_coord(
                t.center_y as int,
                scale_of(t.zoom_fifths as int),
                py,
                b.y as int,
                b.height as int,
            )
        }),
{
    let s_old = scale_of(t.zoom_fifths as int);
    let s_new = scale_of(zoom_target(t.zoom_fifths as int, dy));
    let tx = twice_offset(px, b.x as int, b.width as int);
    let ty = twice_offset(py, b.y as int, b.height as int);
    assert(tx * (s_old - s_new) + s_new * tx == s_old * tx) by (nonlinear_arith);
    assert(ty * (s_old - s_new) + s_new * ty == s_old * ty) by (nonlinear_arith);
}

} // verus!
