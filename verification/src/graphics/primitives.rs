//! Drawing primitives over the console's framebuffer operations.  Every
//! algorithm uses integer arithmetic only; a pixel is plotted only when it
//! falls inside the framebuffer.
use vstd::prelude::*;
use crate::console::{Console, OpView};

verus! {

/// A drawing surface over a console.
pub struct Canvas {
    pub console: Console,
}

/// The framebuffer width as the drawing code sees it (a signed 32-bit value).
pub open spec fn screen_w(c: Console) -> int {
    (c.spec_fb_width() as i32) as int
}

/// The framebuffer height as the drawing code sees it.
pub open spec fn screen_h(c: Console) -> int {
    (c.spec_fb_height() as i32) as int
}

/// The operation plotting point `(x, y)` if it lies on a `w` by `h` screen,
/// nothing otherwise.
pub open spec fn plot(x: int, y: int, w: int, h: int, color: u32) -> Seq<OpView> {
    if 0 <= x < w && 0 <= y < h {
        seq![OpView::Pixel(x as usize, y as usize, color)]
    } else {
        Seq::empty()
    }
}

/// The operations plotting each point of `pts` in turn.
pub open spec fn plot_all(pts: Seq<(int, int)>, w: int, h: int, color: u32) -> Seq<OpView>
    decreases pts.len(),
{
    if pts.len() == 0 {
        Seq::empty()
    } else {
        plot_all(pts.drop_last(), w, h, color) + plot(pts.last().0, pts.last().1, w, h, color)
    }
}

pub open spec fn abs(v: int) -> int {
    if v < 0 { -v } else { v }
}

pub open spec fn max(a: int, b: int) -> int {
    if a >= b { a } else { b }
}

/// Bresenham's walk from `(x, y)` with error term `err` towards `(x1, y1)`,
/// where `dx = |x1 - x0|`, `dy = -|y1 - y0|` and `sx`, `sy` are the step
/// directions: each step doubles the error, moves along x when it is at
/// least `dy` and along y when it is at most `dx`.  `fuel` bounds the walk.
pub open spec fn bres_from(
    x: int, y: int, err: int, x1: int, y1: int, dx: int, dy: int, sx: int, sy: int, fuel: nat,
) -> Seq<(int, int)>
    decreases fuel,
{
    if fuel == 0 {
        Seq::empty()
    } else if x == x1 && y == y1 {
        seq![(x, y)]
    } else {
        let e2 = 2 * err;
        let nx = if e2 >= dy { x + sx } else { x };
        let err1 = if e2 >= dy { err + dy } else { err };
        let ny = if e2 <= dx { y + sy } else { y };
        let err2 = if e2 <= dx { err1 + dx } else { err1 };
        seq![(x, y)] + bres_from(nx, ny, err2, x1, y1, dx, dy, sx, sy, (fuel - 1) as nat)
    }
}

/// The points of the segment from `(x0, y0)` to `(x1, y1)`, in drawing order.
pub open spec fn line_points(x0: int, y0: int, x1: int, y1: int) -> Seq<(int, int)> {
    let dx = abs(x1 - x0);
    let dy = -abs(y1 - y0);
    let sx: int = if x0 < x1 { 1 } else { -1 };
    let sy: int = if y0 < y1 { 1 } else { -1 };
    bres_from(x0, y0, dx + dy, x1, y1, dx, dy, sx, sy, (dx - dy + 1) as nat)
}

/// `q` follows `p` by one step of at most one pixel along each axis, each
/// move going in the given direction, and at least one move.
pub open spec fn unit_step(p: (int, int), q: (int, int), sx: int, sy: int) -> bool {
    &&& (q.0 == p.0 || q.0 == p.0 + sx)
    &&& (q.1 == p.1 || q.1 == p.1 + sy)
    &&& q != p
}

/// What keeps Bresenham's walk on track: `a` and `b` are the distances still
/// to go along x and y out of `dd = |dx|` and `ee = |dy|`, the error term is
/// determined by them, and twice the error stays within the band that keeps
/// the walk from overshooting.
pub open spec fn bres_inv(dd: int, ee: int, a: int, b: int, err: int) -> bool {
    &&& 0 <= a <= dd
    &&& 0 <= b <= ee
    &&& err == dd - ee + ee * a - dd * b
    &&& (if -ee <= 2 * dd - 3 * ee { -ee } else { 2 * dd - 3 * ee }) <= 2 * err
    &&& 2 * err <= (if dd >= 3 * dd - 2 * ee { dd } else { 3 * dd - 2 * ee })
    &&& dd >= ee ==> b <= a
    &&& ee >= dd ==> a <= b
}

/// One step of the walk keeps the invariant, moves along x only while x is
/// short of its end (and likewise for y), always moves, and moves along the
/// longer axis every time.
proof fn lemma_bres_step(dd: int, ee: int, a: int, b: int, err: int)
    requires
        bres_inv(dd, ee, a, b, err),
        a > 0 || b > 0,
    ensures
        ({
            let xs = 2 * err >= -ee;
            let ys = 2 * err <= dd;
            let a2 = if xs { a - 1 } else { a };
            let b2 = if ys { b - 1 } else { b };
            let err2 = err + (if xs { -ee } else { 0 }) + (if ys { dd } else { 0 });
            &&& xs ==> a > 0
            &&& ys ==> b > 0
            &&& xs || ys
            &&& dd >= ee ==> xs
            &&& ee >= dd ==> ys
            &&& bres_inv(dd, ee, a2, b2, err2)
        }),
{
    let xs = 2 * err >= -ee;
    let ys = 2 * err <= dd;
    let a2 = if xs { a - 1 } else { a };
    let b2 = if ys { b - 1 } else { b };
    let err2 = err + (if xs { -ee } else { 0 }) + (if ys { dd } else { 0 });
    if a == 0 {
        assert(dd * b >= dd) by (nonlinear_arith)
            requires
                b >= 1,
                dd >= 0,
        ;
        assert(ee * a == 0) by (nonlinear_arith)
            requires
                a == 0,
        ;
        assert(!xs);
    }
    if b == 0 {
        assert(ee * a >= ee) by (nonlinear_arith)
            requires
                a >= 1,
                ee >= 0,
        ;
        assert(dd * b == 0) by (nonlinear_arith)
            requires
                b == 0,
        ;
        assert(!ys);
    }
    assert(ee * a2 == ee * a - (if xs { ee } else { 0 })) by (nonlinear_arith)
        requires
            a2 == (if xs { a - 1 } else { a }),
    ;
    assert(dd * b2 == dd * b - (if ys { dd } else { 0 })) by (nonlinear_arith)
        requires
            b2 == (if ys { b - 1 } else { b }),
    ;
    assert(err2 == dd - ee + ee * a2 - dd * b2);
    if a == b && a >= 1 {
        assert(ee * a - dd * b == (ee - dd) * a) by (nonlinear_arith)
            requires
                a == b,
        ;
        if dd >= ee {
            assert((ee - dd) * a <= ee - dd) by (nonlinear_arith)
                requires
                    a >= 1,
                    ee - dd <= 0,
            ;
            assert(ys);
        }
        if ee >= dd {
            assert((ee - dd) * a >= ee - dd) by (nonlinear_arith)
                requires
                    a >= 1,
                    ee - dd >= 0,
            ;
            assert(xs);
        }
    }
    assert(dd >= ee ==> b2 <= a2);
    assert(ee >= dd ==> a2 <= b2);
}

/// The walk from a state satisfying the invariant takes `max(a, b) + 1`
/// points, starts at the current point, ends at `(x1, y1)`, and moves by unit
/// steps in the directions `sx`, `sy`.
proof fn lemma_bres_walk(
    x: int, y: int, err: int, x1: int, y1: int, dd: int, ee: int, sx: int, sy: int,
    a: int, b: int, fuel: nat,
)
    requires
        bres_inv(dd, ee, a, b, err),
        sx == 1 || sx == -1,
        sy == 1 || sy == -1,
        x1 == (if sx == 1 { x + a } else { x - a }),
        y1 == (if sy == 1 { y + b } else { y - b }),
        fuel >= a + b + 1,
    ensures
        ({
            let pts = bres_from(x, y, err, x1, y1, dd, -ee, sx, sy, fuel);
            &&& pts.len() == max(a, b) + 1
            &&& pts[0] == (x, y)
            &&& pts.last() == (x1, y1)
            &&& forall|k: int| 0 <= k < pts.len() - 1 ==> #[trigger] unit_step(pts[k], pts[k + 1], sx, sy)
        }),
    decreases fuel,
{
    let pts = bres_from(x, y, err, x1, y1, dd, -ee, sx, sy, fuel);
    if a == 0 && b == 0 {
        assert(pts =~= seq![(x, y)]);
    } else {
        lemma_bres_step(dd, ee, a, b, err);
        let xs = 2 * err >= -ee;
        let ys = 2 * err <= dd;
        let nx = if xs { x + sx } else { x };
        let ny = if ys { y + sy } else { y };
        let a2 = if xs { a - 1 } else { a };
        let b2 = if ys { b - 1 } else { b };
        let err2 = err + (if xs { -ee } else { 0 }) + (if ys { dd } else { 0 });
        lemma_bres_walk(nx, ny, err2, x1, y1, dd, ee, sx, sy, a2, b2, (fuel - 1) as nat);
        let rest = bres_from(nx, ny, err2, x1, y1, dd, -ee, sx, sy, (fuel - 1) as nat);
        assert(!(x == x1 && y == y1));
        assert(pts == seq![(x, y)] + rest);
        assert(dd >= ee ==> xs);
        assert(max(a2, b2) + 1 == max(a, b)) by {
            if dd >= ee {
                assert(xs);
                if !ys {
                    assert(b2 == b);
                }
            }
        }
        assert(pts.len() == rest.len() + 1);
        assert forall|k: int| 0 <= k < pts.len() - 1 implies #[trigger] unit_step(pts[k], pts[k + 1], sx, sy) by {
            if k == 0 {
                assert(pts[0] == (x, y));
                assert(pts[1] == rest[0]);
            } else {
                assert(unit_step(rest[k - 1], rest[(k - 1) + 1], sx, sy));
                assert(pts[k] == rest[k - 1]);
                assert(pts[k + 1] == rest[k]);
            }
        }
    }
}

/// A segment has one point more than its longer side is long; it starts at
/// its first end, finishes at its second, and every step moves by at most
/// one pixel along each axis, towards the second end.
pub proof fn lemma_line_shape(x0: int, y0: int, x1: int, y1: int)
    ensures
        ({
            let pts = line_points(x0, y0, x1, y1);
            let sx: int = if x0 < x1 { 1 } else { -1 };
            let sy: int = if y0 < y1 { 1 } else { -1 };
            &&& pts.len() == max(abs(x1 - x0), abs(y1 - y0)) + 1
            &&& pts[0] == (x0, y0)
            &&& pts.last() == (x1, y1)
            &&& forall|k: int| 0 <= k < pts.len() - 1 ==> #[trigger] unit_step(pts[k], pts[k + 1], sx, sy)
        }),
{
    let dd = abs(x1 - x0);
    let ee = abs(y1 - y0);
    let sx: int = if x0 < x1 { 1 } else { -1 };
    let sy: int = if y0 < y1 { 1 } else { -1 };
    assert(dd - ee == dd - ee + ee * dd - dd * ee) by (nonlinear_arith);
    lemma_bres_walk(x0, y0, dd - ee, x1, y1, dd, ee, sx, sy, dd, ee, (dd + ee + 1) as nat);
}

/// The midpoint decision value at octant point `(x, y)` of a circle of
/// radius `r`: positive when the point lies so far out that the next row
/// should move one column in.
pub open spec fn mid_d(x: int, y: int, r: int) -> int {
    x * x - x + y * y + 2 * y + 1 - r * r
}

/// The octant points the midpoint algorithm visits from `(x, y)`: each step
/// goes one row up, and one column in when the decision value is positive;
/// the walk ends once `x < y`.
pub open spec fn octant_from(x: int, y: int, r: int, fuel: nat) -> Seq<(int, int)>
    decreases fuel,
{
    if fuel == 0 || x < y {
        Seq::empty()
    } else {
        let nx = if mid_d(x, y, r) <= 0 { x } else { x - 1 };
        seq![(x, y)] + octant_from(nx, y + 1, r, (fuel - 1) as nat)
    }
}

/// The octant of a circle of radius `r` from `(r, 0)` up to the diagonal.
pub open spec fn octant_points(r: int) -> Seq<(int, int)> {
    octant_from(r, 0, r, (r + 1) as nat)
}

/// The four images of `(a, b)` mirrored in both axes around `(cx, cy)`.
pub open spec fn plot4(cx: int, cy: int, a: int, b: int, w: int, h: int, color: u32) -> Seq<OpView> {
    plot(cx + a, cy + b, w, h, color) + plot(cx - a, cy + b, w, h, color) + plot(cx + a, cy - b, w, h, color)
        + plot(cx - a, cy - b, w, h, color)
}

/// The eight symmetric images of octant point `(x, y)` around `(cx, cy)`.
pub open spec fn plot8(cx: int, cy: int, x: int, y: int, w: int, h: int, color: u32) -> Seq<OpView> {
    plot4(cx, cy, x, y, w, h, color) + plot4(cx, cy, y, x, w, h, color)
}

pub open spec fn plot_octants(pts: Seq<(int, int)>, cx: int, cy: int, w: int, h: int, color: u32) -> Seq<OpView>
    decreases pts.len(),
{
    if pts.len() == 0 {
        Seq::empty()
    } else {
        plot_octants(pts.drop_last(), cx, cy, w, h, color) + plot8(cx, cy, pts.last().0, pts.last().1, w, h, color)
    }
}

/// The operations drawing the outline of the circle of radius `r` around `(cx, cy)`.
pub open spec fn circle_ops(cx: int, cy: int, r: int, w: int, h: int, color: u32) -> Seq<OpView> {
    if r <= 0 {
        Seq::empty()
    } else {
        plot_octants(octant_points(r), cx, cy, w, h, color)
    }
}

proof fn lemma_mid_step(x: int, y: int, r: int)
    ensures
        mid_d(x, y + 1, r) == mid_d(x, y, r) + 2 * (y + 1) + 1,
        mid_d(x - 1, y + 1, r) == mid_d(x, y, r) + 2 * ((y + 1) - (x - 1)) + 1,
{
    assert((y + 1) * (y + 1) == y * y + 2 * y + 1) by (nonlinear_arith);
    assert((x - 1) * (x - 1) == x * x - 2 * x + 1) by (nonlinear_arith);
}

/// Each octant point from a state within the midpoint band lies on row
/// `y + k`, on or below the diagonal, and within `x` of the circle:
/// `|x^2 + y^2 - r^2| <= x`.
proof fn lemma_octant_walk(x: int, y: int, r: int, fuel: nat)
    requires
        y >= 0,
        x >= y ==> 2 * y + 1 - 2 * x <= mid_d(x, y, r) <= 2 * y + 1,
    ensures
        ({
            let pts = octant_from(x, y, r, fuel);
            &&& (x >= y && fuel > 0) ==> pts.len() >= 1 && pts[0] == (x, y)
            &&& forall|k: int| 0 <= k < pts.len() ==> {
                let p = #[trigger] pts[k];
                &&& p.1 == y + k
                &&& 0 <= p.1 <= p.0
                &&& abs(p.0 * p.0 + p.1 * p.1 - r * r) <= p.0
            }
        }),
    decreases fuel,
{
    let pts = octant_from(x, y, r, fuel);
    if fuel > 0 && x >= y {
        let d = mid_d(x, y, r);
        let nx = if d <= 0 { x } else { x - 1 };
        lemma_mid_step(x, y, r);
        lemma_octant_walk(nx, y + 1, r, (fuel - 1) as nat);
        let rest = octant_from(nx, y + 1, r, (fuel - 1) as nat);
        assert(pts == seq![(x, y)] + rest);
        assert(x * x + y * y - r * r == d + x - 2 * y - 1);
        assert forall|k: int| 0 <= k < pts.len() implies {
            let p = #[trigger] pts[k];
            &&& p.1 == y + k
            &&& 0 <= p.1 <= p.0
            &&& abs(p.0 * p.0 + p.1 * p.1 - r * r) <= p.0
        } by {
            if k > 0 {
                assert(pts[k] == rest[k - 1]);
            }
        }
    }
}

/// Every point of the octant of a circle of radius `r > 0` lies on its own
/// row (the `k`-th point on row `k`), on or below the diagonal, and within
/// `x` of the circle; the first point is `(r, 0)`.
pub proof fn lemma_circle_shape(r: int)
    requires
        r > 0,
    ensures
        ({
            let pts = octant_points(r);
            &&& pts.len() >= 1
            &&& pts[0] == (r, 0int)
            &&& forall|k: int| 0 <= k < pts.len() ==> {
                let p = #[trigger] pts[k];
                &&& p.1 == k
                &&& 0 <= p.1 <= p.0
                &&& abs(p.0 * p.0 + p.1 * p.1 - r * r) <= p.0
            }
        }),
{
    assert(mid_d(r, 0, r) == 1 - r) by (nonlinear_arith);
    lemma_octant_walk(r, 0, r, (r + 1) as nat);
}

proof fn lemma_plot_octants_push(pts: Seq<(int, int)>, p: (int, int), cx: int, cy: int, w: int, h: int, color: u32)
    ensures
        plot_octants(pts.push(p), cx, cy, w, h, color) == plot_octants(pts, cx, cy, w, h, color) + plot8(cx, cy, p.0, p.1, w, h, color),
{
    assert(pts.push(p).drop_last() =~= pts);
}

/// Plots `(px, py)` when it lies on the `w` by `h` screen.
fn put_visible(console: &mut Console, px: i64, py: i64, w: i64, h: i64, color: u32)
    requires
        w <= i32::MAX,
        h <= i32::MAX,
    ensures
        final(console)@ == old(console)@ + plot(px as int, py as int, w as int, h as int, color),
        final(console).spec_fb_width() == old(console).spec_fb_width(),
        final(console).spec_fb_height() == old(console).spec_fb_height(),
        final(console).spec_fb_pitch() == old(console).spec_fb_pitch(),
{
    if px >= 0 && px < w && py >= 0 && py < h {
        console.put_pixel(px as usize, py as usize, color);
        assert(final(console)@ =~= old(console)@ + plot(px as int, py as int, w as int, h as int, color));
    } else {
        assert(old(console)@ + plot(px as int, py as int, w as int, h as int, color) =~= old(console)@);
    }
}

/// Plots the four mirror images of `(a, b)` around `(cx, cy)`.
fn plot_mirrored(console: &mut Console, cx: i64, cy: i64, a: i64, b: i64, w: i64, h: i64, color: u32)
    requires
        -0x100_0000_0000 <= cx <= 0x100_0000_0000,
        -0x100_0000_0000 <= cy <= 0x100_0000_0000,
        -0x100_0000_0000 <= a <= 0x100_0000_0000,
        -0x100_0000_0000 <= b <= 0x100_0000_0000,
        w <= i32::MAX,
        h <= i32::MAX,
    ensures
        final(console)@ == old(console)@ + plot4(cx as int, cy as int, a as int, b as int, w as int, h as int, color),
        final(console).spec_fb_width() == old(console).spec_fb_width(),
        final(console).spec_fb_height() == old(console).spec_fb_height(),
        final(console).spec_fb_pitch() == old(console).spec_fb_pitch(),
{
    put_visible(console, cx + a, cy + b, w, h, color);
    put_visible(console, cx - a, cy + b, w, h, color);
    put_visible(console, cx + a, cy - b, w, h, color);
    put_visible(console, cx - a, cy - b, w, h, color);
    assert(final(console)@ =~= old(console)@ + plot4(cx as int, cy as int, a as int, b as int, w as int, h as int, color));
}

/// Plots the eight symmetric points of octant point `(x, y)` around `(cx, cy)`.
fn plot_circle_points(console: &mut Console, cx: i64, cy: i64, x: i64, y: i64, w: i64, h: i64, color: u32)
    requires
        -0x100_0000_0000 <= cx <= 0x100_0000_0000,
        -0x100_0000_0000 <= cy <= 0x100_0000_0000,
        -0x100_0000_0000 <= x <= 0x100_0000_0000,
        -0x100_0000_0000 <= y <= 0x100_0000_0000,
        w <= i32::MAX,
        h <= i32::MAX,
    ensures
        final(console)@ == old(console)@ + plot8(cx as int, cy as int, x as int, y as int, w as int, h as int, color),
        final(console).spec_fb_width() == old(console).spec_fb_width(),
        final(console).spec_fb_height() == old(console).spec_fb_height(),
        final(console).spec_fb_pitch() == old(console).spec_fb_pitch(),
{
    plot_mirrored(console, cx, cy, x, y, w, h, color);
    plot_mirrored(console, cx, cy, y, x, w, h, color);
    assert(final(console)@ =~= old(console)@ + plot8(cx as int, cy as int, x as int, y as int, w as int, h as int, color));
}

/// The operations of a `cols` by `rows` grid of cells visited row by row,
/// left to right, starting at column `x_lo` and row `y_lo`.
pub open spec fn grid(cell: spec_fn(int, int) -> Seq<OpView>, x_lo: int, y_lo: int, cols: nat, rows: nat) -> Seq<OpView>
    decreases rows,
{
    if rows == 0 {
        Seq::empty()
    } else {
        grid(cell, x_lo, y_lo, cols, (rows - 1) as nat) + grid_row(cell, x_lo, y_lo + rows - 1, cols)
    }
}

/// The operations of the first `n` cells of row `y`, starting at column `x_lo`.
pub open spec fn grid_row(cell: spec_fn(int, int) -> Seq<OpView>, x_lo: int, y: int, n: nat) -> Seq<OpView>
    decreases n,
{
    if n == 0 {
        Seq::empty()
    } else {
        grid_row(cell, x_lo, y, (n - 1) as nat) + cell(x_lo + n - 1, y)
    }
}

/// Disk cell at offset `(dx, dy)` from `(cx, cy)`: plotted when `dx^2 + dy^2 <= r^2`.
pub open spec fn disk_cell(cx: int, cy: int, r: int, w: int, h: int, color: u32) -> spec_fn(int, int) -> Seq<OpView> {
    |dx: int, dy: int| if dx * dx + dy * dy <= r * r { plot(cx + dx, cy + dy, w, h, color) } else { Seq::empty() }
}

/// The operations filling the disk of radius `r` around `(cx, cy)`.
pub open spec fn fill_circle_ops(cx: int, cy: int, r: int, w: int, h: int, color: u32) -> Seq<OpView> {
    if r <= 0 {
        Seq::empty()
    } else {
        grid(disk_cell(cx, cy, r, w, h, color), -r, -r, (2 * r + 1) as nat, (2 * r + 1) as nat)
    }
}

/// Edge function: which side of the edge from `(x1, y1)` to `(x0, y0)` the point lies on.
pub open spec fn sign_val(px: int, py: int, x0: int, y0: int, x1: int, y1: int) -> int {
    (px - x1) * (y0 - y1) - (x0 - x1) * (py - y1)
}

/// A point is inside the triangle (edges included) when the three edge
/// functions do not take both signs.
pub open spec fn in_triangle(px: int, py: int, x0: int, y0: int, x1: int, y1: int, x2: int, y2: int) -> bool {
    let d1 = sign_val(px, py, x0, y0, x1, y1);
    let d2 = sign_val(px, py, x1, y1, x2, y2);
    let d3 = sign_val(px, py, x2, y2, x0, y0);
    !((d1 < 0 || d2 < 0 || d3 < 0) && (d1 > 0 || d2 > 0 || d3 > 0))
}

proof fn lemma_sign_val_swap(px: int, py: int, ax: int, ay: int, bx: int, by: int)
    ensures
        sign_val(px, py, bx, by, ax, ay) == -sign_val(px, py, ax, ay, bx, by),
{
    assert((px - ax) * (by - ay) - (bx - ax) * (py - ay) == -((px - bx) * (ay - by) - (ax - bx) * (py - by)))
        by (nonlinear_arith);
}

/// Whether a point lies inside a triangle does not depend on the order in
/// which its corners are given: swapping two corners (which reverses the
/// orientation) or rotating them keeps every point in or out.  A point
/// strictly inside (all three edge functions of one strict sign, in either
/// orientation) is in; one strictly outside an edge while strictly inside
/// another is out.
pub proof fn lemma_in_triangle_any_order(px: int, py: int, x0: int, y0: int, x1: int, y1: int, x2: int, y2: int)
    ensures
        in_triangle(px, py, x0, y0, x1, y1, x2, y2) == in_triangle(px, py, x0, y0, x2, y2, x1, y1),
        in_triangle(px, py, x0, y0, x1, y1, x2, y2) == in_triangle(px, py, x1, y1, x2, y2, x0, y0),
        ({
            let d1 = sign_val(px, py, x0, y0, x1, y1);
            let d2 = sign_val(px, py, x1, y1, x2, y2);
            let d3 = sign_val(px, py, x2, y2, x0, y0);
            &&& (d1 > 0 && d2 > 0 && d3 > 0) ==> in_triangle(px, py, x0, y0, x1, y1, x2, y2)
            &&& (d1 < 0 && d2 < 0 && d3 < 0) ==> in_triangle(px, py, x0, y0, x1, y1, x2, y2)
            &&& ((d1 < 0 || d2 < 0 || d3 < 0) && (d1 > 0 || d2 > 0 || d3 > 0)) ==> !in_triangle(px, py, x0, y0, x1, y1, x2, y2)
        }),
{
    lemma_sign_val_swap(px, py, x0, y0, x2, y2);
    lemma_sign_val_swap(px, py, x2, y2, x1, y1);
    lemma_sign_val_swap(px, py, x1, y1, x0, y0);
}

pub open spec fn min3(a: int, b: int, c: int) -> int {
    if a <= b && a <= c { a } else if b <= c { b } else { c }
}

pub open spec fn max3(a: int, b: int, c: int) -> int {
    if a >= b && a >= c { a } else if b >= c { b } else { c }
}

/// Triangle cell: the pixel is plotted when it is inside the triangle.
pub open spec fn tri_cell(x0: int, y0: int, x1: int, y1: int, x2: int, y2: int, color: u32) -> spec_fn(int, int) -> Seq<OpView> {
    |px: int, py: int| if in_triangle(px, py, x0, y0, x1, y1, x2, y2) {
        seq![OpView::Pixel(px as usize, py as usize, color)]
    } else {
        Seq::empty()
    }
}

/// Number of integers from `lo` to `hi` inclusive.
pub open spec fn span(lo: int, hi: int) -> nat {
    if hi >= lo { (hi - lo + 1) as nat } else { 0 }
}

/// The operations filling the triangle: its bounding box, clipped to the
/// screen, scanned row by row.
pub open spec fn triangle_ops(x0: int, y0: int, x1: int, y1: int, x2: int, y2: int, w: int, h: int, color: u32) -> Seq<OpView> {
    let min_x = max(min3(x0, x1, x2), 0);
    let max_x = if max3(x0, x1, x2) <= w - 1 { max3(x0, x1, x2) } else { w - 1 };
    let min_y = max(min3(y0, y1, y2), 0);
    let max_y = if max3(y0, y1, y2) <= h - 1 { max3(y0, y1, y2) } else { h - 1 };
    grid(tri_cell(x0, y0, x1, y1, x2, y2, color), min_x, min_y, span(min_x, max_x), span(min_y, max_y))
}

/// The pixels a filled triangle plots do not depend on the order in which
/// its corners are given: swapping two corners or rotating them gives the
/// same operations.
pub proof fn lemma_triangle_fill_any_order(x0: int, y0: int, x1: int, y1: int, x2: int, y2: int, w: int, h: int, color: u32)
    ensures
        triangle_ops(x0, y0, x1, y1, x2, y2, w, h, color) == triangle_ops(x0, y0, x2, y2, x1, y1, w, h, color),
        triangle_ops(x0, y0, x1, y1, x2, y2, w, h, color) == triangle_ops(x1, y1, x2, y2, x0, y0, w, h, color),
{
    assert forall|px: int, py: int| #[trigger] in_triangle(px, py, x0, y0, x1, y1, x2, y2) == in_triangle(px, py, x0, y0, x2, y2, x1, y1)
        && in_triangle(px, py, x0, y0, x1, y1, x2, y2) == in_triangle(px, py, x1, y1, x2, y2, x0, y0) by {
        lemma_in_triangle_any_order(px, py, x0, y0, x1, y1, x2, y2);
    }
    assert(tri_cell(x0, y0, x1, y1, x2, y2, color) =~= tri_cell(x0, y0, x2, y2, x1, y1, color));
    assert(tri_cell(x0, y0, x1, y1, x2, y2, color) =~= tri_cell(x1, y1, x2, y2, x0, y0, color));
    assert(min3(x0, x1, x2) == min3(x0, x2, x1) && min3(x0, x1, x2) == min3(x1, x2, x0));
    assert(max3(x0, x1, x2) == max3(x0, x2, x1) && max3(x0, x1, x2) == max3(x1, x2, x0));
    assert(min3(y0, y1, y2) == min3(y0, y2, y1) && min3(y0, y1, y2) == min3(y1, y2, y0));
    assert(max3(y0, y1, y2) == max3(y0, y2, y1) && max3(y0, y1, y2) == max3(y1, y2, y0));
}

/// Half a thickness, rounded toward zero.
pub open spec fn half_of(thickness: int) -> int {
    if thickness >= 0 { thickness / 2 } else { -((-thickness) / 2) }
}

/// The circles of radii `r + lo` up to `r + lo + n - 1` that are positive, in turn.
pub open spec fn rings(cx: int, cy: int, r: int, lo: int, n: nat, w: int, h: int, color: u32) -> Seq<OpView>
    decreases n,
{
    if n == 0 {
        Seq::empty()
    } else {
        let ri = r + lo + n - 1;
        rings(cx, cy, r, lo, (n - 1) as nat, w, h, color) + (if ri > 0 { circle_ops(cx, cy, ri, w, h, color) } else { Seq::empty() })
    }
}

/// The operations drawing a thick circle outline: the circles of radii
/// `r - half` to `r + half` that are positive, `half` being half the thickness.
pub open spec fn outline_ops(cx: int, cy: int, r: int, thickness: int, w: int, h: int, color: u32) -> Seq<OpView> {
    let half = half_of(thickness);
    rings(cx, cy, r, -half, span(-half, half), w, h, color)
}

proof fn lemma_plot_all_push(pts: Seq<(int, int)>, p: (int, int), w: int, h: int, color: u32)
    ensures
        plot_all(pts.push(p), w, h, color) == plot_all(pts, w, h, color) + plot(p.0, p.1, w, h, color),
{
    assert(pts.push(p).drop_last() =~= pts);
}

fn min3_i32(a: i32, b: i32, c: i32) -> (m: i32)
    ensures
        m == min3(a as int, b as int, c as int),
{
    if a <= b && a <= c { a } else if b <= c { b } else { c }
}

fn max3_i32(a: i32, b: i32, c: i32) -> (m: i32)
    ensures
        m == max3(a as int, b as int, c as int),
{
    if a >= b && a >= c { a } else if b >= c { b } else { c }
}

/// Edge function of the edge from `(x1, y1)` to `(x0, y0)` at point `(px, py)`.
fn sign_of(px: i64, py: i64, x0: i64, y0: i64, x1: i64, y1: i64) -> (s: i128)
    requires
        -0x1_0000_0000 <= px <= 0x1_0000_0000,
        -0x1_0000_0000 <= py <= 0x1_0000_0000,
        i32::MIN <= x0 <= i32::MAX,
        i32::MIN <= y0 <= i32::MAX,
        i32::MIN <= x1 <= i32::MAX,
        i32::MIN <= y1 <= i32::MAX,
    ensures
        s == sign_val(px as int, py as int, x0 as int, y0 as int, x1 as int, y1 as int),
{
    let a = (px - x1) as i128;
    let b = (y0 - y1) as i128;
    let c = (x0 - x1) as i128;
    let d = (py - y1) as i128;
    assert(-0x4_0000_0000_0000_0000 <= a * b <= 0x4_0000_0000_0000_0000) by (nonlinear_arith)
        requires
            -0x2_0000_0000 <= a <= 0x2_0000_0000,
            -0x2_0000_0000 <= b <= 0x2_0000_0000,
    ;
    assert(-0x4_0000_0000_0000_0000 <= c * d <= 0x4_0000_0000_0000_0000) by (nonlinear_arith)
        requires
            -0x2_0000_0000 <= c <= 0x2_0000_0000,
            -0x2_0000_0000 <= d <= 0x2_0000_0000,
    ;
    a * b - c * d
}

/// Whether `(px, py)` lies inside the triangle, edges included.
fn point_in_triangle(px: i64, py: i64, x0: i64, y0: i64, x1: i64, y1: i64, x2: i64, y2: i64) -> (r: bool)
    requires
        -0x1_0000_0000 <= px <= 0x1_0000_0000,
        -0x1_0000_0000 <= py <= 0x1_0000_0000,
        i32::MIN <= x0 <= i32::MAX,
        i32::MIN <= y0 <= i32::MAX,
        i32::MIN <= x1 <= i32::MAX,
        i32::MIN <= y1 <= i32::MAX,
        i32::MIN <= x2 <= i32::MAX,
        i32::MIN <= y2 <= i32::MAX,
    ensures
        r == in_triangle(px as int, py as int, x0 as int, y0 as int, x1 as int, y1 as int, x2 as int, y2 as int),
{
    let d1 = sign_of(px, py, x0, y0, x1, y1);
    let d2 = sign_of(px, py, x1, y1, x2, y2);
    let d3 = sign_of(px, py, x2, y2, x0, y0);
    let has_neg = (d1 < 0) || (d2 < 0) || (d3 < 0);
    let has_pos = (d1 > 0) || (d2 > 0) || (d3 > 0);
    !(has_neg && has_pos)
}

impl Canvas {
    pub fn new(console: Console) -> (c: Canvas)
        ensures
            c.console == console,
    {
        Canvas { console }
    }

    /// Draws the outline of the circle of radius `r` around `(cx, cy)` by
    /// the midpoint algorithm; nothing when `r <= 0`.
    pub fn circle(&mut self, cx: i32, cy: i32, r: i32, color: u32)
        ensures
            final(self).console@ == old(self).console@ + circle_ops(
                cx as int,
                cy as int,
                r as int,
                screen_w(old(self).console),
                screen_h(old(self).console),
                color,
            ),
            final(self).console.spec_fb_width() == old(self).console.spec_fb_width(),
            final(self).console.spec_fb_height() == old(self).console.spec_fb_height(),
            final(self).console.spec_fb_pitch() == old(self).console.spec_fb_pitch(),
    {
        self.circle_at(cx as i64, cy as i64, r as i64, color);
    }

    fn circle_at(&mut self, cx: i64, cy: i64, r: i64, color: u32)
        requires
            -0x1_0000_0000 <= cx <= 0x1_0000_0000,
            -0x1_0000_0000 <= cy <= 0x1_0000_0000,
            r <= 0x1_0000_0000,
        ensures
            final(self).console@ == old(self).console@ + circle_ops(
                cx as int,
                cy as int,
                r as int,
                screen_w(old(self).console),
                screen_h(old(self).console),
                color,
            ),
            final(self).console.spec_fb_width() == old(self).console.spec_fb_width(),
            final(self).console.spec_fb_height() == old(self).console.spec_fb_height(),
            final(self).console.spec_fb_pitch() == old(self).console.spec_fb_pitch(),
    {
        if r <= 0 {
            assert(old(self).console@ + circle_ops(cx as int, cy as int, r as int, screen_w(old(self).console), screen_h(old(self).console), color) =~= old(self).console@);
            return;
        }
        let ghost old_ops = self.console@;
        let ghost gw = screen_w(self.console);
        let ghost gh = screen_h(self.console);
        let w = (#[verifier::truncate] (self.console.fb_width() as i32)) as i64;
        let h = (#[verifier::truncate] (self.console.fb_height() as i32)) as i64;
        let mut x: i64 = r;
        let mut y: i64 = 0;
        let mut d: i64 = 1 - r;
        let ghost target = octant_points(r as int);
        let ghost mut done: Seq<(int, int)> = Seq::empty();
        let ghost mut fuel: nat = (r + 1) as nat;
        proof {
            assert(mid_d(r as int, 0, r as int) == 1 - r) by (nonlinear_arith);
            assert(done + octant_from(x as int, y as int, r as int, fuel) =~= target);
        }
        while x >= y
            invariant
                gw == w,
                gh == h,
                i32::MIN <= w <= i32::MAX,
                i32::MIN <= h <= i32::MAX,
                -0x1_0000_0000 <= cx <= 0x1_0000_0000,
                -0x1_0000_0000 <= cy <= 0x1_0000_0000,
                0 < r <= 0x1_0000_0000,
                0 <= y,
                x <= r,
                x >= y - 2,
                d == mid_d(x as int, y as int, r as int),
                x >= y ==> 2 * y + 1 - 2 * x <= d <= 2 * y + 1,
                fuel >= x - y + 1,
                done + octant_from(x as int, y as int, r as int, fuel) == target,
                self.console@ == old_ops + plot_octants(done, cx as int, cy as int, gw, gh, color),
                self.console.spec_fb_width() == old(self).console.spec_fb_width(),
                self.console.spec_fb_height() == old(self).console.spec_fb_height(),
                self.console.spec_fb_pitch() == old(self).console.spec_fb_pitch(),
            decreases x - y + 2,
        {
            let ghost ox = x as int;
            let ghost oy = y as int;
            let ghost prev = done;
            let ghost rest = octant_from(ox, oy, r as int, fuel);
            plot_circle_points(&mut self.console, cx, cy, x, y, w, h, color);
            proof {
                lemma_plot_octants_push(prev, (ox, oy), cx as int, cy as int, gw, gh, color);
                lemma_mid_step(ox, oy, r as int);
                done = prev.push((ox, oy));
            }
            y = y + 1;
            if d <= 0 {
                d = d + 2 * y + 1;
            } else {
                x = x - 1;
                d = d + 2 * (y - x) + 1;
            }
            proof {
                let next = octant_from(x as int, y as int, r as int, (fuel - 1) as nat);
                assert(rest == seq![(ox, oy)] + next);
                assert(done + next =~= prev + rest);
                fuel = (fuel - 1) as nat;
            }
        }
        proof {
            assert(octant_from(x as int, y as int, r as int, fuel) =~= Seq::<(int, int)>::empty());
            assert(done =~= target);
        }
    }

    /// Fills the disk of radius `r` around `(cx, cy)`, scanning the square
    /// of side `2r + 1` row by row; nothing when `r <= 0`.
    pub fn fill_circle(&mut self, cx: i32, cy: i32, r: i32, color: u32)
        ensures
            final(self).console@ == old(self).console@ + fill_circle_ops(
                cx as int,
                cy as int,
                r as int,
                screen_w(old(self).console),
                screen_h(old(self).console),
                color,
            ),
            final(self).console.spec_fb_width() == old(self).console.spec_fb_width(),
            final(self).console.spec_fb_height() == old(self).console.spec_fb_height(),
            final(self).console.spec_fb_pitch() == old(self).console.spec_fb_pitch(),
    {
        if r <= 0 {
            assert(old(self).console@ + fill_circle_ops(cx as int, cy as int, r as int, screen_w(old(self).console), screen_h(old(self).console), color) =~= old(self).console@);
            return;
        }
        let ghost old_ops = self.console@;
        let ghost gw = screen_w(self.console);
        let ghost gh = screen_h(self.console);
        let ghost cell = disk_cell(cx as int, cy as int, r as int, gw, gh, color);
        let ghost n = (2 * r + 1) as nat;
        let w = (#[verifier::truncate] (self.console.fb_width() as i32)) as i64;
        let h = (#[verifier::truncate] (self.console.fb_height() as i32)) as i64;
        let rr = r as i64;
        assert(rr * rr < 0x4000_0000_0000_0000) by (nonlinear_arith)
            requires
                0 < rr <= i32::MAX,
        ;
        let r_sq = rr * rr;
        let xc = cx as i64;
        let yc = cy as i64;
        let mut dy: i64 = -rr;
        while dy <= rr
            invariant
                gw == w,
                gh == h,
                i32::MIN <= w <= i32::MAX,
                i32::MIN <= h <= i32::MAX,
                0 < rr <= i32::MAX,
                r_sq == rr * rr,
                i32::MIN <= xc <= i32::MAX,
                i32::MIN <= yc <= i32::MAX,
                cell == disk_cell(xc as int, yc as int, rr as int, gw, gh, color),
                n == 2 * rr + 1,
                -rr <= dy <= rr + 1,
                self.console@ == old_ops + grid(cell, -rr, -rr, n, (dy + rr) as nat),
                self.console.spec_fb_width() == old(self).console.spec_fb_width(),
                self.console.spec_fb_height() == old(self).console.spec_fb_height(),
                self.console.spec_fb_pitch() == old(self).console.spec_fb_pitch(),
            decreases rr + 1 - dy,
        {
            let ghost before = self.console@;
            let mut dx: i64 = -rr;
            while dx <= rr
                invariant
                    gw == w,
                    gh == h,
                    i32::MIN <= w <= i32::MAX,
                    i32::MIN <= h <= i32::MAX,
                    0 < rr <= i32::MAX,
                    r_sq == rr * rr,
                    i32::MIN <= xc <= i32::MAX,
                    i32::MIN <= yc <= i32::MAX,
                    cell == disk_cell(xc as int, yc as int, rr as int, gw, gh, color),
                    -rr <= dy <= rr,
                    -rr <= dx <= rr + 1,
                    self.console@ == before + grid_row(cell, -rr, dy as int, (dx + rr) as nat),
                    self.console.spec_fb_width() == old(self).console.spec_fb_width(),
                    self.console.spec_fb_height() == old(self).console.spec_fb_height(),
                    self.console.spec_fb_pitch() == old(self).console.spec_fb_pitch(),
                decreases rr + 1 - dx,
            {
                let ghost cur = self.console@;
                proof {
                    assert(0 <= dx * dx <= rr * rr) by (nonlinear_arith)
                        requires
                            -rr <= dx <= rr,
                    ;
                    assert(0 <= dy * dy <= rr * rr) by (nonlinear_arith)
                        requires
                            -rr <= dy <= rr,
                    ;
                    assert(rr * rr < 0x4000_0000_0000_0000) by (nonlinear_arith)
                        requires
                            0 < rr <= i32::MAX,
                    ;
                }
                if dx * dx + dy * dy <= r_sq {
                    put_visible(&mut self.console, xc + dx, yc + dy, w, h, color);
                }
                proof {
                    let k = (dx + rr + 1) as nat;
                    assert(grid_row(cell, -rr, dy as int, k) == grid_row(cell, -rr, dy as int, (k - 1) as nat) + cell(dx as int, dy as int));
                    assert(self.console@ =~= cur + cell(dx as int, dy as int));
                }
                dx = dx + 1;
            }
            proof {
                let k = (dy + rr + 1) as nat;
                assert(grid(cell, -rr, -rr, n, k) == grid(cell, -rr, -rr, n, (k - 1) as nat) + grid_row(cell, -rr, dy as int, n));
            }
            dy = dy + 1;
        }
    }

    /// Fills the triangle with the given corners: every pixel of its
    /// bounding box, clipped to the screen, that lies inside it (edges
    /// included) is plotted.
    pub fn triangle(&mut self, x0: i32, y0: i32, x1: i32, y1: i32, x2: i32, y2: i32, color: u32)
        ensures
            final(self).console@ == old(self).console@ + triangle_ops(
                x0 as int, y0 as int, x1 as int, y1 as int, x2 as int, y2 as int,
                screen_w(old(self).console),
                screen_h(old(self).console),
                color,
            ),
            final(self).console.spec_fb_width() == old(self).console.spec_fb_width(),
            final(self).console.spec_fb_height() == old(self).console.spec_fb_height(),
            final(self).console.spec_fb_pitch() == old(self).console.spec_fb_pitch(),
    {
        let ghost old_ops = self.console@;
        let ghost gw = screen_w(self.console);
        let ghost gh = screen_h(self.console);
        let ghost cell = tri_cell(x0 as int, y0 as int, x1 as int, y1 as int, x2 as int, y2 as int, color);
        let w = (#[verifier::truncate] (self.console.fb_width() as i32)) as i64;
        let h = (#[verifier::truncate] (self.console.fb_height() as i32)) as i64;
        let lo_x = min3_i32(x0, x1, x2) as i64;
        let hi_x = max3_i32(x0, x1, x2) as i64;
        let lo_y = min3_i32(y0, y1, y2) as i64;
        let hi_y = max3_i32(y0, y1, y2) as i64;
        let min_x: i64 = if lo_x > 0 { lo_x } else { 0 };
        let max_x: i64 = if hi_x <= w - 1 { hi_x } else { w - 1 };
        let min_y: i64 = if lo_y > 0 { lo_y } else { 0 };
        let max_y: i64 = if hi_y <= h - 1 { hi_y } else { h - 1 };
        let ghost cols = span(min_x as int, max_x as int);
        let ghost rows = span(min_y as int, max_y as int);
        proof {
            assert(triangle_ops(x0 as int, y0 as int, x1 as int, y1 as int, x2 as int, y2 as int, gw, gh, color)
                == grid(cell, min_x as int, min_y as int, cols, rows));
        }
        let mut py: i64 = min_y;
        while py <= max_y
            invariant
                0 <= min_x,
                0 <= min_y <= py,
                max_x <= i32::MAX,
                max_y <= i32::MAX,
                py <= max_y + 1 || max_y < min_y,
                py == min_y || py <= max_y + 1,
                cols == span(min_x as int, max_x as int),
                rows == span(min_y as int, max_y as int),
                cell == tri_cell(x0 as int, y0 as int, x1 as int, y1 as int, x2 as int, y2 as int, color),
                self.console@ == old_ops + grid(cell, min_x as int, min_y as int, cols, span(min_y as int, py - 1)),
                self.console.spec_fb_width() == old(self).console.spec_fb_width(),
                self.console.spec_fb_height() == old(self).console.spec_fb_height(),
                self.console.spec_fb_pitch() == old(self).console.spec_fb_pitch(),
            decreases max_y + 1 - py,
        {
            let ghost before = self.console@;
            let mut px: i64 = min_x;
            while px <= max_x
                invariant
                    0 <= min_x <= px,
                    0 <= min_y <= py <= max_y,
                    max_x <= i32::MAX,
                    max_y <= i32::MAX,
                    px <= max_x + 1 || max_x < min_x,
                    px == min_x || px <= max_x + 1,
                    cell == tri_cell(x0 as int, y0 as int, x1 as int, y1 as int, x2 as int, y2 as int, color),
                    self.console@ == before + grid_row(cell, min_x as int, py as int, span(min_x as int, px - 1)),
                    self.console.spec_fb_width() == old(self).console.spec_fb_width(),
                    self.console.spec_fb_height() == old(self).console.spec_fb_height(),
                    self.console.spec_fb_pitch() == old(self).console.spec_fb_pitch(),
                decreases max_x + 1 - px,
            {
                let ghost cur = self.console@;
                if point_in_triangle(px, py, x0 as i64, y0 as i64, x1 as i64, y1 as i64, x2 as i64, y2 as i64) {
                    self.console.put_pixel(px as usize, py as usize, color);
                }
                proof {
                    let k = span(min_x as int, px as int);
                    assert(k == span(min_x as int, px - 1) + 1);
                    assert(grid_row(cell, min_x as int, py as int, k) == grid_row(cell, min_x as int, py as int, (k - 1) as nat) + cell(px as int, py as int));
                    assert(self.console@ =~= cur + cell(px as int, py as int));
                }
                px = px + 1;
            }
            proof {
                if max_x < min_x {
                    assert(span(min_x as int, px - 1) == 0);
                    assert(cols == 0);
                }
                assert(span(min_x as int, px - 1) == cols);
                let k = span(min_y as int, py as int);
                assert(k == span(min_y as int, py - 1) + 1);
                assert(grid(cell, min_x as int, min_y as int, cols, k) == grid(cell, min_x as int, min_y as int, cols, (k - 1) as nat) + grid_row(cell, min_x as int, py as int, cols));
            }
            py = py + 1;
        }
        proof {
            if max_y < min_y {
                assert(span(min_y as int, py - 1) == 0);
            }
            assert(span(min_y as int, py - 1) == rows);
        }
    }

    /// Draws a thick circle outline: the circles of radii `r - half` to
    /// `r + half` (`half` being half the thickness, rounded toward zero)
    /// that are positive, from the innermost.
    pub fn draw_circle_outline(&mut self, cx: i32, cy: i32, r: i32, color: u32, thickness: i32)
        ensures
            final(self).console@ == old(self).console@ + outline_ops(
                cx as int,
                cy as int,
                r as int,
                thickness as int,
                screen_w(old(self).console),
                screen_h(old(self).console),
                color,
            ),
            final(self).console.spec_fb_width() == old(self).console.spec_fb_width(),
            final(self).console.spec_fb_height() == old(self).console.spec_fb_height(),
            final(self).console.spec_fb_pitch() == old(self).console.spec_fb_pitch(),
    {
        let ghost old_ops = self.console@;
        let ghost gw = screen_w(self.console);
        let ghost gh = screen_h(self.console);
        let th = thickness as i64;
        let half: i64 = if th >= 0 { th / 2 } else { -((-th) / 2) };
        let rr = r as i64;
        let mut t: i64 = -half;
        while t <= half
            invariant
                half == half_of(thickness as int),
                -0x4000_0000 <= half <= 0x4000_0000,
                rr == r,
                -half <= t,
                t <= half + 1 || half < -half,
                t == -half || t <= half + 1,
                self.console@ == old_ops + rings(cx as int, cy as int, r as int, -half, span(-half, t - 1), gw, gh, color),
                screen_w(self.console) == gw,
                screen_h(self.console) == gh,
                self.console.spec_fb_width() == old(self).console.spec_fb_width(),
                self.console.spec_fb_height() == old(self).console.spec_fb_height(),
                self.console.spec_fb_pitch() == old(self).console.spec_fb_pitch(),
            decreases half + 1 - t,
        {
            let ghost cur = self.console@;
            let ri = rr + t;
            if ri > 0 {
                self.circle_at(cx as i64, cy as i64, ri, color);
            }
            proof {
                let k = span(-half, t as int);
                assert(k == span(-half, t - 1) + 1);
                assert(r + (-half) + k - 1 == ri);
                assert(rings(cx as int, cy as int, r as int, -half, k, gw, gh, color)
                    == rings(cx as int, cy as int, r as int, -half, (k - 1) as nat, gw, gh, color)
                        + (if ri > 0 { circle_ops(cx as int, cy as int, ri as int, gw, gh, color) } else { Seq::empty() }));
                assert(self.console@ =~= cur + (if ri > 0 { circle_ops(cx as int, cy as int, ri as int, gw, gh, color) } else { Seq::<OpView>::empty() }));
            }
            t = t + 1;
        }
        proof {
            if half < -half {
                assert(span(-half, t - 1) == 0);
                assert(span(-half, half as int) == 0);
            }
            assert(span(-half, t - 1) == span(-half, half as int));
        }
    }

    /// Draws the segment from `(x0, y0)` to `(x1, y1)` by Bresenham's
    /// algorithm, plotting the points that fall on the screen.
    pub fn line(&mut self, x0: i32, y0: i32, x1: i32, y1: i32, color: u32)
        ensures
            final(self).console@ == old(self).console@ + plot_all(
                line_points(x0 as int, y0 as int, x1 as int, y1 as int),
                screen_w(old(self).console),
                screen_h(old(self).console),
                color,
            ),
            final(self).console.spec_fb_width() == old(self).console.spec_fb_width(),
            final(self).console.spec_fb_height() == old(self).console.spec_fb_height(),
            final(self).console.spec_fb_pitch() == old(self).console.spec_fb_pitch(),
    {
        let ghost old_ops = self.console@;
        let ghost gw = screen_w(self.console);
        let ghost gh = screen_h(self.console);
        let xa = x0 as i64;
        let ya = y0 as i64;
        let xb = x1 as i64;
        let yb = y1 as i64;
        let dx: i64 = if xb >= xa { xb - xa } else { xa - xb };
        let dy: i64 = if yb >= ya { ya - yb } else { yb - ya };
        let sx: i64 = if x0 < x1 { 1 } else { -1 };
        let sy: i64 = if y0 < y1 { 1 } else { -1 };
        let mut err: i64 = dx + dy;
        let mut x: i64 = xa;
        let mut y: i64 = ya;
        let w = (#[verifier::truncate] (self.console.fb_width() as i32)) as i64;
        let h = (#[verifier::truncate] (self.console.fb_height() as i32)) as i64;
        let ghost dd = dx as int;
        let ghost ee = -dy as int;
        let ghost target = line_points(x0 as int, y0 as int, x1 as int, y1 as int);
        let ghost mut done: Seq<(int, int)> = Seq::empty();
        let ghost mut fuel: nat = (dd + ee + 1) as nat;
        proof {
            assert(dd - ee == dd - ee + ee * dd - dd * ee) by (nonlinear_arith);
            assert(done + bres_from(x as int, y as int, err as int, xb as int, yb as int, dd, -ee, sx as int, sy as int, fuel) =~= target);
        }
        loop
            invariant_except_break
                gw == w,
                gh == h,
                dd == dx,
                ee == -dy,
                0 <= dd < 0x1_0000_0000,
                0 <= ee < 0x1_0000_0000,
                sx == 1 || sx == -1,
                sy == 1 || sy == -1,
                bres_inv(
                    dd,
                    ee,
                    if sx == 1 { xb - x } else { x - xb },
                    if sy == 1 { yb - y } else { y - yb },
                    err as int,
                ),
                sx == 1 ==> x <= xb,
                sx == -1 ==> x >= xb,
                sy == 1 ==> y <= yb,
                sy == -1 ==> y >= yb,
                -0x1_0000_0000 <= x - xb <= 0x1_0000_0000,
                -0x1_0000_0000 <= y - yb <= 0x1_0000_0000,
                i32::MIN <= xb <= i32::MAX,
                i32::MIN <= yb <= i32::MAX,
                fuel >= (if sx == 1 { xb - x } else { x - xb }) + (if sy == 1 { yb - y } else { y - yb }) + 1,
                done + bres_from(x as int, y as int, err as int, xb as int, yb as int, dd, -ee, sx as int, sy as int, fuel) == target,
                self.console@ == old_ops + plot_all(done, gw, gh, color),
                self.console.spec_fb_width() == old(self).console.spec_fb_width(),
                self.console.spec_fb_height() == old(self).console.spec_fb_height(),
                self.console.spec_fb_pitch() == old(self).console.spec_fb_pitch(),
            ensures
                self.console@ == old_ops + plot_all(target, gw, gh, color),
                self.console.spec_fb_width() == old(self).console.spec_fb_width(),
                self.console.spec_fb_height() == old(self).console.spec_fb_height(),
                self.console.spec_fb_pitch() == old(self).console.spec_fb_pitch(),
            decreases (if sx == 1 { xb - x } else { x - xb }) + (if sy == 1 { yb - y } else { y - yb }),
        {
            let ghost a = if sx == 1 { xb - x } else { x - xb };
            let ghost b = if sy == 1 { yb - y } else { y - yb };
            let ghost ox = x as int;
            let ghost oy = y as int;
            let ghost prev = done;
            let ghost rest = bres_from(ox, oy, err as int, xb as int, yb as int, dd, -ee, sx as int, sy as int, fuel);
            if 0 <= x && x < w && 0 <= y && y < h {
                self.console.put_pixel(x as usize, y as usize, color);
            }
            proof {
                lemma_plot_all_push(prev, (ox, oy), gw, gh, color);
                done = prev.push((ox, oy));
            }
            if x == xb && y == yb {
                proof {
                    assert(rest =~= seq![(ox, oy)]);
                    assert(done =~= prev + rest);
                }
                break;
            }
            proof {
                lemma_bres_step(dd, ee, a, b, err as int);
            }
            let e2 = 2 * err;
            if e2 >= dy {
                err = err + dy;
                x = x + sx;
            }
            if e2 <= dx {
                err = err + dx;
                y = y + sy;
            }
            proof {
                let next = bres_from(x as int, y as int, err as int, xb as int, yb as int, dd, -ee, sx as int, sy as int, (fuel - 1) as nat);
                assert(rest == seq![(ox, oy)] + next);
                assert(done + next =~= prev + rest);
                fuel = (fuel - 1) as nat;
            }
        }
    }
}

} // verus!
