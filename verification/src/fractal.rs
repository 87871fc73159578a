//! The escape-time iteration the compute stage runs per pixel, in the same
//! fixed-point encoding as the camera.
//!
//! A pixel is mapped to a point `c` of the plane, the quadratic map
//! `z -> z*z + c` is iterated from `z = c`, and the pixel is shaded by how
//! many steps the orbit stayed inside the escape circle.  The executable
//! iteration short-circuits interior points by watching for a repeated
//! orbit value, and is proved to return exactly the count of the plain,
//! unshortened iteration.

use vstd::prelude::*;
use crate::fixed::{
    lemma_div_le, lemma_div_shrinks, lemma_mag_mul_le, lemma_tdiv_mag, mag, tdiv, tdiv_i128, SCALE,
};
use vstd::arithmetic::div_mod::lemma_div_by_multiple;

verus! {

/// Squared escape threshold: a magnitude of four world units, squared, in
/// squared thousandths.
pub const ESCAPE_SQ: i64 = 16_000_000;

/// Magnitude (in thousandths) past which a single component already puts
/// `z` outside the escape circle.
pub const ESCAPE_COMPONENT: i64 = 4000;

/// Largest coordinate magnitude the iteration accepts, in thousandths.
pub const COORD_LIMIT: i64 = 1_000_000_000_000_000;

/// Largest translation magnitude the pixel mapping accepts, in
/// thousandths; keeps the mapped point within [`COORD_LIMIT`].
pub const TRANSLATION_LIMIT: i64 = 900_000_000_000_000;

/// Iterations between captures of the periodicity reference point.
pub const PERIOD_WINDOW: u32 = 20;

/// Horizontal component of one step of the quadratic map, in fixed point.
pub open spec fn orbit_step_x(zx: int, zy: int, cx: int) -> int {
    tdiv(zx * zx - zy * zy, SCALE as int) + cx
}

/// Vertical component of one step of the quadratic map, in fixed point.
pub open spec fn orbit_step_y(zx: int, zy: int, cy: int) -> int {
    tdiv(zy * zx + zx * zy, SCALE as int) + cy
}

/// Whether `z` lies outside the escape circle of radius four.
pub open spec fn escaped(zx: int, zy: int) -> bool {
    zx * zx + zy * zy > ESCAPE_SQ
}

/// The orbit of `c`: `n` applications of the quadratic map, starting at
/// `c` itself.
pub open spec fn orbit(cx: int, cy: int, n: nat) -> (int, int)
    decreases n,
{
    if n == 0 {
        (cx, cy)
    } else {
        let p = orbit(cx, cy, (n - 1) as nat);
        (orbit_step_x(p.0, p.1, cx), orbit_step_y(p.0, p.1, cy))
    }
}

/// Whether the orbit of `c` has escaped after exactly `n` steps.
pub open spec fn escaped_at(cx: int, cy: int, n: nat) -> bool {
    escaped(orbit(cx, cy, n).0, orbit(cx, cy, n).1)
}

/// The count reached from index `i` with `fuel` steps left: the index just
/// before the first escaping orbit point, or `i + fuel` when none escapes.
pub open spec fn count_from(cx: int, cy: int, fuel: nat, i: nat) -> nat
    decreases fuel,
{
    if fuel == 0 {
        i
    } else if escaped_at(cx, cy, (i + 1) as nat) {
        i
    } else {
        count_from(cx, cy, (fuel - 1) as nat, (i + 1) as nat)
    }
}

/// The iteration count the compute stage shades a pixel with: steps of the
/// plain escape-time iteration, up to the budget.
pub open spec fn escape_count(cx: int, cy: int, max_iters: nat) -> nat {
    count_from(cx, cy, max_iters, 0)
}

/// Two coinciding orbit points keep coinciding under further iteration.
proof fn lemma_orbit_shift(cx: int, cy: int, j: nat, m: nat, n: nat)
    requires
        orbit(cx, cy, j) == orbit(cx, cy, m),
    ensures
        orbit(cx, cy, (j + n) as nat) == orbit(cx, cy, (m + n) as nat),
    decreases n,
{
    if n > 0 {
        let nm1 = (n - 1) as nat;
        lemma_orbit_shift(cx, cy, j, m, nm1);
        assert(orbit(cx, cy, (j + n) as nat).0 == orbit_step_x(
            orbit(cx, cy, (j + nm1) as nat).0,
            orbit(cx, cy, (j + nm1) as nat).1,
            cx,
        ));
        assert(orbit(cx, cy, (j + n) as nat).1 == orbit_step_y(
            orbit(cx, cy, (j + nm1) as nat).0,
            orbit(cx, cy, (j + nm1) as nat).1,
            cy,
        ));
        assert(orbit(cx, cy, (m + n) as nat).0 == orbit_step_x(
            orbit(cx, cy, (m + nm1) as nat).0,
            orbit(cx, cy, (m + nm1) as nat).1,
            cx,
        ));
        assert(orbit(cx, cy, (m + n) as nat).1 == orbit_step_y(
            orbit(cx, cy, (m + nm1) as nat).0,
            orbit(cx, cy, (m + nm1) as nat).1,
            cy,
        ));
    }
}

/// Once the orbit repeats, every later orbit point already occurs in the
/// repeating window.
proof fn lemma_orbit_wraps(cx: int, cy: int, j: nat, m: nat, k: nat)
    requires
        j < m,
        orbit(cx, cy, j) == orbit(cx, cy, m),
        j <= k,
    ensures
        exists|k2: nat| j <= k2 < m && (#[trigger] orbit(cx, cy, k2)) == orbit(cx, cy, k),
    decreases k,
{
    if k < m {
        assert(j <= k < m && orbit(cx, cy, k) == orbit(cx, cy, k));
    } else {
        let n = (k - m) as nat;
        lemma_orbit_shift(cx, cy, j, m, n);
        assert(orbit(cx, cy, (j + n) as nat) == orbit(cx, cy, k));
        lemma_orbit_wraps(cx, cy, j, m, (j + n) as nat);
        let k2 = choose|k2: nat|
            j <= k2 < m && (#[trigger] orbit(cx, cy, k2)) == orbit(cx, cy, (j + n) as nat);
        assert(j <= k2 < m && orbit(cx, cy, k2) == orbit(cx, cy, k));
    }
}

/// If the orbit repeats before ever escaping, it never escapes at all.
proof fn lemma_periodic_never_escapes(cx: int, cy: int, j: nat, m: nat)
    requires
        j < m,
        orbit(cx, cy, j) == orbit(cx, cy, m),
        forall|k: nat| 1 <= k <= m ==> !escaped_at(cx, cy, k),
    ensures
        forall|k: nat| k >= 1 ==> !escaped_at(cx, cy, k),
{
    assert forall|k: nat| k >= 1 implies !escaped_at(cx, cy, k) by {
        if k > m {
            lemma_orbit_wraps(cx, cy, j, m, k);
            let k2 = choose|k2: nat|
                j <= k2 < m && (#[trigger] orbit(cx, cy, k2)) == orbit(cx, cy, k);
            if k2 == 0 {
                assert(orbit(cx, cy, 0) == orbit(cx, cy, j));
                assert(!escaped_at(cx, cy, m));
            } else {
                assert(!escaped_at(cx, cy, k2));
            }
        }
    };
}

/// With no escape inside the window, the count runs the whole fuel out.
proof fn lemma_count_saturates(cx: int, cy: int, fuel: nat, i: nat)
    requires
        forall|k: nat| i + 1 <= k <= i + fuel ==> !escaped_at(cx, cy, k),
    ensures
        count_from(cx, cy, fuel, i) == i + fuel,
    decreases fuel,
{
    if fuel > 0 {
        assert(!escaped_at(cx, cy, (i + 1) as nat));
        lemma_count_saturates(cx, cy, (fuel - 1) as nat, (i + 1) as nat);
    }
}

/// One component already past the threshold puts the point outside the
/// escape circle.
proof fn lemma_component_escapes(x: int, y: int)
    by (nonlinear_arith)
    requires
        mag(x) > ESCAPE_COMPONENT || mag(y) > ESCAPE_COMPONENT,
    ensures
        x * x + y * y > ESCAPE_SQ,
{
}

/// A point inside the escape circle has both components within the
/// threshold.
proof fn lemma_inside_disk(x: int, y: int)
    by (nonlinear_arith)
    requires
        x * x + y * y <= ESCAPE_SQ,
    ensures
        mag(x) <= ESCAPE_COMPONENT,
        mag(y) <= ESCAPE_COMPONENT,
{
}

/// Runs the escape-time iteration for one point of the plane, with the
/// periodicity shortcut: whenever the current orbit value matches the
/// reference point captured every [`PERIOD_WINDOW`] steps, the point is
/// interior and the full budget is returned at once.  The result is
/// exactly the count of the plain iteration without the shortcut.
pub fn escape_iterations(cx: i64, cy: i64, max_iters: u32) -> (n: u32)
    requires
        -COORD_LIMIT <= cx <= COORD_LIMIT,
        -COORD_LIMIT <= cy <= COORD_LIMIT,
    ensures
        n as nat == escape_count(cx as int, cy as int, max_iters as nat),
{
    let ghost cxi: int = cx as int;
    let ghost cyi: int = cy as int;
    let mut zx: i128 = cx as i128;
    let mut zy: i128 = cy as i128;
    let mut ox: i128 = cx as i128;
    let mut oy: i128 = cy as i128;
    let ghost mut mark: nat = 0nat;
    let mut period: u32 = 0;
    let mut i: u32 = 0;
    while i < max_iters
        invariant
            i <= max_iters,
            -COORD_LIMIT <= cx <= COORD_LIMIT,
            -COORD_LIMIT <= cy <= COORD_LIMIT,
            cxi == cx as int,
            cyi == cy as int,
            zx as int == orbit(cxi, cyi, i as nat).0,
            zy as int == orbit(cxi, cyi, i as nat).1,
            ox as int == orbit(cxi, cyi, mark).0,
            oy as int == orbit(cxi, cyi, mark).1,
            mark <= i,
            period <= PERIOD_WINDOW,
            mag(zx as int) <= COORD_LIMIT as int,
            mag(zy as int) <= COORD_LIMIT as int,
            forall|k: nat| 1 <= k <= i ==> !escaped_at(cxi, cyi, k),
            count_from(cxi, cyi, max_iters as nat, 0) == count_from(
                cxi,
                cyi,
                (max_iters - i) as nat,
                i as nat,
            ),
        decreases max_iters - i,
    {
        proof {
            lemma_mag_mul_le(zx as int, zx as int, COORD_LIMIT as int, COORD_LIMIT as int);
            lemma_mag_mul_le(zy as int, zy as int, COORD_LIMIT as int, COORD_LIMIT as int);
            lemma_mag_mul_le(zx as int, zy as int, COORD_LIMIT as int, COORD_LIMIT as int);
            lemma_mag_mul_le(zy as int, zx as int, COORD_LIMIT as int, COORD_LIMIT as int);
        }
        let sq_diff: i128 = zx * zx - zy * zy;
        let cross: i128 = zy * zx + zx * zy;
        proof {
            lemma_tdiv_mag(sq_diff as int, SCALE as int);
            lemma_tdiv_mag(cross as int, SCALE as int);
            lemma_div_le(
                mag(sq_diff as int),
                2_000_000_000_000_000_000_000_000_000_000int,
                SCALE as int,
            );
            lemma_div_le(
                mag(cross as int),
                2_000_000_000_000_000_000_000_000_000_000int,
                SCALE as int,
            );
        }
        let nzx: i128 = tdiv_i128(sq_diff, SCALE as i128) + (cx as i128);
        let nzy: i128 = tdiv_i128(cross, SCALE as i128) + (cy as i128);
        proof {
            assert(orbit(cxi, cyi, (i + 1) as nat).0 == orbit_step_x(
                orbit(cxi, cyi, i as nat).0,
                orbit(cxi, cyi, i as nat).1,
                cxi,
            ));
            assert(orbit(cxi, cyi, (i + 1) as nat).1 == orbit_step_y(
                orbit(cxi, cyi, i as nat).0,
                orbit(cxi, cyi, i as nat).1,
                cyi,
            ));
            assert(nzx as int == orbit(cxi, cyi, (i + 1) as nat).0);
            assert(nzy as int == orbit(cxi, cyi, (i + 1) as nat).1);
        }
        let esc: bool = if nzx > ESCAPE_COMPONENT as i128 || nzx < -ESCAPE_COMPONENT as i128 || nzy
            > ESCAPE_COMPONENT as i128 || nzy < -ESCAPE_COMPONENT as i128 {
            proof {
                lemma_component_escapes(nzx as int, nzy as int);
            }
            true
        } else {
            proof {
                lemma_mag_mul_le(nzx as int, nzx as int, 4000, 4000);
                lemma_mag_mul_le(nzy as int, nzy as int, 4000, 4000);
            }
            (nzx * nzx + nzy * nzy) > ESCAPE_SQ as i128
        };
        proof {
            assert(esc == escaped_at(cxi, cyi, (i + 1) as nat));
        }
        if esc {
            proof {
                assert(count_from(cxi, cyi, (max_iters - i) as nat, i as nat) == i as nat);
            }
            return i;
        }
        proof {
            lemma_inside_disk(nzx as int, nzy as int);
            assert(forall|k: nat|
                1 <= k <= i + 1 ==> !escaped_at(cxi, cyi, k));
        }
        if nzx == ox && nzy == oy {
            proof {
                lemma_periodic_never_escapes(cxi, cyi, mark, (i + 1) as nat);
                lemma_count_saturates(cxi, cyi, (max_iters - i) as nat, i as nat);
            }
            return max_iters;
        }
        proof {
            assert(count_from(cxi, cyi, (max_iters - i) as nat, i as nat) == count_from(
                cxi,
                cyi,
                (max_iters - i - 1) as nat,
                (i + 1) as nat,
            ));
        }
        period = period + 1;
        if period > PERIOD_WINDOW {
            period = 0;
            ox = nzx;
            oy = nzy;
            proof {
                mark = (i + 1) as nat;
            }
        }
        zx = nzx;
        zy = nzy;
        i = i + 1;
    }
    proof {
        assert(count_from(cxi, cyi, (max_iters - max_iters) as nat, max_iters as nat)
            == max_iters as nat);
    }
    max_iters
}

/// The normalized position of a pixel on one canvas side, in thousandths.
pub open spec fn norm_coord(p: int, side: int) -> int {
    tdiv(p * SCALE, side)
}

/// The canvas aspect ratio (width over height), in thousandths.
pub open spec fn aspect_ratio(width: int, height: int) -> int {
    tdiv(width * SCALE, height)
}

/// The horizontal plane coordinate of a pixel: the normalized position
/// spans four zoom-scaled units, corrected by the aspect ratio, shifted
/// two zoom-scaled units left and panned by the translation.
pub open spec fn plane_x(px: int, width: int, height: int, zoom: int, tx: int) -> int {
    let xn = norm_coord(px, width);
    let xs = tdiv(xn * 4000, zoom);
    tdiv(aspect_ratio(width, height) * xs, SCALE as int) - tdiv(2_000_000, zoom) + tx
}

/// The vertical plane coordinate of a pixel: as [`plane_x`] but without
/// the aspect correction.
pub open spec fn plane_y(py: int, height: int, zoom: int, ty: int) -> int {
    let yn = norm_coord(py, height);
    tdiv(yn * 4000, zoom) - tdiv(2_000_000, zoom) + ty
}

/// Maps one pixel of the canvas to its point of the plane, in thousandths;
/// the result always lies within what [`escape_iterations`] accepts.
pub fn pixel_to_plane(px: u32, py: u32, width: u32, height: u32, zoom: i64, tx: i64, ty: i64) -> (c:
    (i64, i64))
    requires
        0 < width,
        0 < height,
        px < width,
        py < height,
        zoom >= SCALE,
        -TRANSLATION_LIMIT <= tx <= TRANSLATION_LIMIT,
        -TRANSLATION_LIMIT <= ty <= TRANSLATION_LIMIT,
    ensures
        c.0 as int == plane_x(px as int, width as int, height as int, zoom as int, tx as int),
        c.1 as int == plane_y(py as int, height as int, zoom as int, ty as int),
        -COORD_LIMIT <= c.0 <= COORD_LIMIT,
        -COORD_LIMIT <= c.1 <= COORD_LIMIT,
{
    let xn: i128 = tdiv_i128((px as i128) * (SCALE as i128), width as i128);
    let yn: i128 = tdiv_i128((py as i128) * (SCALE as i128), height as i128);
    let ar: i128 = tdiv_i128((width as i128) * (SCALE as i128), height as i128);
    proof {
        lemma_tdiv_mag(px as int * SCALE as int, width as int);
        lemma_div_le(px as int * SCALE as int, (width as int - 1) * SCALE as int, width as int);
        lemma_div_le(
            (width as int - 1) * SCALE as int,
            width as int * SCALE as int,
            width as int,
        );
        lemma_div_by_multiple(SCALE as int, width as int);
        lemma_tdiv_mag(py as int * SCALE as int, height as int);
        lemma_div_le(py as int * SCALE as int, (height as int - 1) * SCALE as int, height as int);
        lemma_div_le(
            (height as int - 1) * SCALE as int,
            height as int * SCALE as int,
            height as int,
        );
        lemma_div_by_multiple(SCALE as int, height as int);
        lemma_tdiv_mag(width as int * SCALE as int, height as int);
    }
    let xs: i128 = tdiv_i128(xn * 4000, zoom as i128);
    let ys: i128 = tdiv_i128(yn * 4000, zoom as i128);
    let off: i128 = tdiv_i128(2_000_000, zoom as i128);
    proof {
        lemma_tdiv_mag(xn as int * 4000, zoom as int);
        lemma_div_le(mag(xn as int * 4000), 4_000_000int, zoom as int);
        lemma_div_shrinks(4_000_000int, SCALE as int, zoom as int);
        lemma_tdiv_mag(yn as int * 4000, zoom as int);
        lemma_div_le(mag(yn as int * 4000), 4_000_000int, zoom as int);
        lemma_tdiv_mag(2_000_000, zoom as int);
        lemma_div_shrinks(2_000_000int, SCALE as int, zoom as int);
        lemma_mag_mul_le(ar as int, xs as int, 4_294_967_295_000int, 4000int);
    }
    let xa: i128 = tdiv_i128(ar * xs, SCALE as i128);
    proof {
        lemma_tdiv_mag(ar as int * xs as int, SCALE as int);
        lemma_div_le(mag(ar as int * xs as int), 17_179_869_180_000_000int, SCALE as int);
    }
    let c0: i128 = xa - off + (tx as i128);
    let c1: i128 = ys - off + (ty as i128);
    (c0 as i64, c1 as i64)
}

/// The shade of one pixel: the fraction of the budget the orbit survived,
/// in thousandths.
pub open spec fn shade(iterations: int, max_iters: int) -> int
    recommends
        max_iters >= 1,
{
    iterations * SCALE / max_iters
}

/// The color written for one pixel: a grey level at the survived fraction
/// of the budget, deliberately translucent at one tenth alpha.
pub fn pixel_color(iterations: u32, max_iters: u32) -> (rgba: (i64, i64, i64, i64))
    requires
        max_iters >= 1,
    ensures
        rgba.0 == shade(iterations as int, max_iters as int),
        rgba.1 == rgba.0,
        rgba.2 == rgba.0,
        rgba.3 == 100,
{
    proof {
        lemma_tdiv_mag(iterations as int * 1000, max_iters as int);
    }
    let grey: i64 = (((iterations as u64) * 1000) / (max_iters as u64)) as i64;
    (grey, grey, grey, 100)
}


/// The whole per-pixel program of the compute stage, on the CPU model:
/// maps the pixel to its point of the plane, runs the escape-time
/// iteration with the periodicity shortcut, and shades the survived
/// fraction of the budget.
pub fn shade_pixel(
    px: u32,
    py: u32,
    width: u32,
    height: u32,
    zoom: i64,
    tx: i64,
    ty: i64,
    max_iters: u32,
) -> (rgba: (i64, i64, i64, i64))
    requires
        0 < width,
        0 < height,
        px < width,
        py < height,
        zoom >= SCALE,
        -TRANSLATION_LIMIT <= tx <= TRANSLATION_LIMIT,
        -TRANSLATION_LIMIT <= ty <= TRANSLATION_LIMIT,
        max_iters >= 1,
    ensures
        ({
            let cx = plane_x(px as int, width as int, height as int, zoom as int, tx as int);
            let cy = plane_y(py as int, height as int, zoom as int, ty as int);
            let n = escape_count(cx, cy, max_iters as nat);
            rgba.0 == shade(n as int, max_iters as int) && rgba.1 == rgba.0 && rgba.2 == rgba.0
                && rgba.3 == 100
        }),
{
    let c = pixel_to_plane(px, py, width, height, zoom, tx, ty);
    let n = escape_iterations(c.0, c.1, max_iters);
    pixel_color(n, max_iters)
}

} // verus!
