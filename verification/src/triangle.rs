//! Barycentric scan-conversion of one screen-space triangle into
//! fragments: one fragment per covered pixel center of the clamped
//! bounding box, depth and attributes interpolated linearly in
//! barycentric space. Degenerate triangles produce no fragments.

use vstd::prelude::*;
use crate::fixed::{dt, abs_i, div_trunc, lemma_dt_bound, lemma_mul_bound, FP};
use crate::linalg::Vec3;
use crate::linalg::Vec2;
use crate::vertex::{ScreenVertex, Fragment, EXTENT, DEPTH_BOUND, NORMAL_BOUND, TEX_BOUND};
use vstd::arithmetic::div_mod::lemma_div_pos_is_pos;

verus! {

/// The signed-area edge function: positive when `(px, py)` lies to the
/// left of the directed edge from `(ax, ay)` to `(bx, by)`.
pub open spec fn edge_fn(ax: int, ay: int, bx: int, by: int, px: int, py: int) -> int {
    (bx - ax) * (py - ay) - (by - ay) * (px - ax)
}

/// Twice the signed area of the triangle, by the edge function.
pub open spec fn tri_area(a: ScreenVertex, b: ScreenVertex, c: ScreenVertex) -> int {
    edge_fn(a.x as int, a.y as int, b.x as int, b.y as int, c.x as int, c.y as int)
}

/// A pixel center is covered when all three barycentric weights are
/// nonnegative under the consistent winding.
pub open spec fn covered(a: ScreenVertex, b: ScreenVertex, c: ScreenVertex, px: int, py: int) -> bool {
    &&& edge_fn(b.x as int, b.y as int, c.x as int, c.y as int, px, py) >= 0
    &&& edge_fn(c.x as int, c.y as int, a.x as int, a.y as int, px, py) >= 0
    &&& edge_fn(a.x as int, a.y as int, b.x as int, b.y as int, px, py) >= 0
}

/// Barycentric interpolation of one attribute over the triangle.
pub open spec fn interp(w0: int, w1: int, w2: int, v0: int, v1: int, v2: int, area: int) -> int {
    dt(w0 * v0 + w1 * v1 + w2 * v2, area)
}

/// The lower edge of the clamped bounding box on one axis.
pub open spec fn bbox_lo(u0: int, u1: int, u2: int) -> int {
    let m = if u0 <= u1 && u0 <= u2 { u0 } else if u1 <= u2 { u1 } else { u2 };
    if m < 0 { 0 } else { m }
}

/// The upper edge of the clamped bounding box on one axis.
pub open spec fn bbox_hi(u0: int, u1: int, u2: int) -> int {
    let m = if u0 >= u1 && u0 >= u2 { u0 } else if u1 >= u2 { u1 } else { u2 };
    if m > EXTENT { EXTENT as int } else { m }
}

/// The fragment carries this pixel and the interpolated attributes of
/// the triangle at it.
pub open spec fn frag_matches(
    f: Fragment,
    a: ScreenVertex,
    b: ScreenVertex,
    c: ScreenVertex,
    px: int,
    py: int,
) -> bool {
    let w0 = edge_fn(b.x as int, b.y as int, c.x as int, c.y as int, px, py);
    let w1 = edge_fn(c.x as int, c.y as int, a.x as int, a.y as int, px, py);
    let w2 = edge_fn(a.x as int, a.y as int, b.x as int, b.y as int, px, py);
    let area = tri_area(a, b, c);
    &&& f.x == px
    &&& f.y == py
    &&& f.depth == interp(w0, w1, w2, a.depth as int, b.depth as int, c.depth as int, area)
    &&& f.normal.x == interp(w0, w1, w2, a.normal.x as int, b.normal.x as int, c.normal.x as int, area)
    &&& f.normal.y == interp(w0, w1, w2, a.normal.y as int, b.normal.y as int, c.normal.y as int, area)
    &&& f.normal.z == interp(w0, w1, w2, a.normal.z as int, b.normal.z as int, c.normal.z as int, area)
    &&& f.tex_coords.x == interp(w0, w1, w2, a.tex_coords.x as int, b.tex_coords.x as int, c.tex_coords.x as int, area)
    &&& f.tex_coords.y == interp(w0, w1, w2, a.tex_coords.y as int, b.tex_coords.y as int, c.tex_coords.y as int, area)
    &&& f.intensity == interp(w0, w1, w2, a.intensity as int, b.intensity as int, c.intensity as int, area)
}


/// The fragment is a covered pixel of the triangle carrying its
/// interpolated attributes.
pub open spec fn frag_ok(f: Fragment, a: ScreenVertex, b: ScreenVertex, c: ScreenVertex) -> bool {
    &&& covered(a, b, c, f.x as int, f.y as int)
    &&& frag_matches(f, a, b, c, f.x as int, f.y as int)
}


/// The fragment the rasterizer emits at one covered pixel.
pub open spec fn frag_at(a: ScreenVertex, b: ScreenVertex, c: ScreenVertex, px: int, py: int) -> Fragment {
    let w0 = edge_fn(b.x as int, b.y as int, c.x as int, c.y as int, px, py);
    let w1 = edge_fn(c.x as int, c.y as int, a.x as int, a.y as int, px, py);
    let w2 = edge_fn(a.x as int, a.y as int, b.x as int, b.y as int, px, py);
    let area = tri_area(a, b, c);
    Fragment {
        x: px as i64,
        y: py as i64,
        depth: interp(w0, w1, w2, a.depth as int, b.depth as int, c.depth as int, area) as i64,
        normal: Vec3 {
            x: interp(w0, w1, w2, a.normal.x as int, b.normal.x as int, c.normal.x as int, area) as i64,
            y: interp(w0, w1, w2, a.normal.y as int, b.normal.y as int, c.normal.y as int, area) as i64,
            z: interp(w0, w1, w2, a.normal.z as int, b.normal.z as int, c.normal.z as int, area) as i64,
        },
        tex_coords: Vec2 {
            x: interp(w0, w1, w2, a.tex_coords.x as int, b.tex_coords.x as int, c.tex_coords.x as int, area) as i64,
            y: interp(w0, w1, w2, a.tex_coords.y as int, b.tex_coords.y as int, c.tex_coords.y as int, area) as i64,
        },
        intensity: interp(w0, w1, w2, a.intensity as int, b.intensity as int, c.intensity as int, area) as i64,
    }
}

/// The fragments of the covered pixels among `cols` pixels of row `py`
/// starting at `x0`, left to right.
pub open spec fn row_frags(a: ScreenVertex, b: ScreenVertex, c: ScreenVertex, py: int, x0: int, cols: nat) -> Seq<Fragment>
    decreases cols,
{
    if cols == 0 {
        Seq::empty()
    } else {
        let px = x0 + cols - 1;
        let rest = row_frags(a, b, c, py, x0, (cols - 1) as nat);
        if covered(a, b, c, px, py) {
            rest.push(frag_at(a, b, c, px, py))
        } else {
            rest
        }
    }
}

/// The fragments of `rows` rows starting at `y0`, in row-major order.
pub open spec fn rect_frags(a: ScreenVertex, b: ScreenVertex, c: ScreenVertex, y0: int, rows: nat, x0: int, cols: nat) -> Seq<Fragment>
    decreases rows,
{
    if rows == 0 {
        Seq::empty()
    } else {
        rect_frags(a, b, c, y0, (rows - 1) as nat, x0, cols) + row_frags(a, b, c, y0 + rows - 1, x0, cols)
    }
}

/// The exact fragment sequence of one triangle: the covered pixels of
/// the clamped bounding box in row-major order, and the empty sequence
/// for a degenerate or back-facing triangle.
pub open spec fn tri_frags_spec(a: ScreenVertex, b: ScreenVertex, c: ScreenVertex) -> Seq<Fragment> {
    let x0 = bbox_lo(a.x as int, b.x as int, c.x as int);
    let x1 = bbox_hi(a.x as int, b.x as int, c.x as int);
    let y0 = bbox_lo(a.y as int, b.y as int, c.y as int);
    let y1 = bbox_hi(a.y as int, b.y as int, c.y as int);
    if tri_area(a, b, c) <= 0 || x0 > x1 || y0 > y1 {
        Seq::empty()
    } else {
        rect_frags(a, b, c, y0, (y1 - y0 + 1) as nat, x0, (x1 - x0 + 1) as nat)
    }
}

/// Some fragment of the sequence sits at the pixel.
pub open spec fn contains_pixel(s: Seq<Fragment>, px: int, py: int) -> bool {
    exists|i: int| 0 <= i < s.len() && s[i].x == px && s[i].y == py
}

/// The edge-sum identity over coordinates relative to the first vertex.
proof fn lemma_edge_sum_core(u1: int, v1: int, u2: int, v2: int, qx: int, qy: int)
    ensures
        ((u2 - u1) * (qy - v1) - (v2 - v1) * (qx - u1)) + ((-u2) * (qy - v2) - (-v2) * (qx - u2))
            + (u1 * qy - v1 * qx) == u1 * v2 - v1 * u2,
{
    assert((u2 - u1) * (qy - v1) == u2 * qy - u2 * v1 - u1 * qy + u1 * v1) by (nonlinear_arith);
    assert((v2 - v1) * (qx - u1) == v2 * qx - v2 * u1 - v1 * qx + v1 * u1) by (nonlinear_arith);
    assert((-u2) * (qy - v2) == -(u2 * qy) + u2 * v2) by (nonlinear_arith);
    assert((-v2) * (qx - u2) == -(v2 * qx) + v2 * u2) by (nonlinear_arith);
    assert(u1 * v1 == v1 * u1) by (nonlinear_arith);
    assert(u2 * v2 == v2 * u2) by (nonlinear_arith);
    assert(v2 * u1 == u1 * v2) by (nonlinear_arith);
    assert(u2 * v1 == v1 * u2) by (nonlinear_arith);
}

/// The three barycentric weights of a pixel sum to the triangle's area.
pub proof fn lemma_edge_sum(a: ScreenVertex, b: ScreenVertex, c: ScreenVertex, px: int, py: int)
    ensures
        edge_fn(b.x as int, b.y as int, c.x as int, c.y as int, px, py) + edge_fn(
            c.x as int, c.y as int, a.x as int, a.y as int, px, py,
        ) + edge_fn(a.x as int, a.y as int, b.x as int, b.y as int, px, py) == tri_area(a, b, c),
{
    let ax = a.x as int; let ay = a.y as int;
    let bx = b.x as int; let by = b.y as int;
    let cx = c.x as int; let cy = c.y as int;
    let u1 = bx - ax; let v1 = by - ay;
    let u2 = cx - ax; let v2 = cy - ay;
    let qx = px - ax; let qy = py - ay;
    lemma_edge_sum_core(u1, v1, u2, v2, qx, qy);
    assert(edge_fn(bx, by, cx, cy, px, py) == (u2 - u1) * (qy - v1) - (v2 - v1) * (qx - u1));
    assert(edge_fn(cx, cy, ax, ay, px, py) == (-u2) * (qy - v2) - (-v2) * (qx - u2));
    assert(edge_fn(ax, ay, bx, by, px, py) == u1 * qy - v1 * qx);
    assert(tri_area(a, b, c) == u1 * v2 - v1 * u2);
}

fn edge_exec(ax: i64, ay: i64, bx: i64, by: i64, px: i64, py: i64) -> (r: i64)
    requires
        abs_i(ax as int) <= EXTENT, abs_i(ay as int) <= EXTENT,
        abs_i(bx as int) <= EXTENT, abs_i(by as int) <= EXTENT,
        abs_i(px as int) <= EXTENT, abs_i(py as int) <= EXTENT,
    ensures
        r == edge_fn(ax as int, ay as int, bx as int, by as int, px as int, py as int),
        abs_i(r as int) <= 0x1_0000_0000int,
{
    proof {
        lemma_mul_bound(bx - ax, py - ay, 0x8000int, 0x8000int);
        lemma_mul_bound(by - ay, px - ax, 0x8000int, 0x8000int);
    }
    (bx - ax) * (py - ay) - (by - ay) * (px - ax)
}

fn interp_exec(
    w0: i64, w1: i64, w2: i64,
    v0: i64, v1: i64, v2: i64,
    area: i64,
    Ghost(vb): Ghost<int>,
) -> (r: i64)
    requires
        0 < area <= 0x3_0000_0000,
        0 <= w0, 0 <= w1, 0 <= w2,
        w0 + w1 + w2 == area,
        0 < vb <= 0x10_0000,
        abs_i(v0 as int) <= vb, abs_i(v1 as int) <= vb, abs_i(v2 as int) <= vb,
    ensures
        r == interp(w0 as int, w1 as int, w2 as int, v0 as int, v1 as int, v2 as int, area as int),
        abs_i(r as int) <= vb,
        v0 >= 0 && v1 >= 0 && v2 >= 0 ==> r >= 0,
{
    proof {
        lemma_mul_bound(w0 as int, v0 as int, 0x3_0000_0000int, vb);
        lemma_mul_bound(w1 as int, v1 as int, 0x3_0000_0000int, vb);
        lemma_mul_bound(w2 as int, v2 as int, 0x3_0000_0000int, vb);
        assert(0x3_0000_0000int * vb <= 0x3000_0000_0000_0000int) by (nonlinear_arith)
            requires 0 < vb <= 0x10_0000int;
    }
    let s: i64 = w0 * v0 + w1 * v1 + w2 * v2;
    let r = div_trunc(s, area);
    proof {
        assert(abs_i(s as int) <= vb * area) by (nonlinear_arith)
            requires
                0 <= w0, 0 <= w1, 0 <= w2,
                w0 + w1 + w2 == area,
                abs_i(v0 as int) <= vb, abs_i(v1 as int) <= vb, abs_i(v2 as int) <= vb,
                s == w0 as int * v0 as int + w1 as int * v1 as int + w2 as int * v2 as int,
                0 < vb,
        ;
        assert(vb * area == area * vb) by (nonlinear_arith);
        lemma_dt_bound(s as int, area as int, vb);
        if v0 >= 0 && v1 >= 0 && v2 >= 0 {
            assert(s >= 0) by (nonlinear_arith)
                requires
                    0 <= w0, 0 <= w1, 0 <= w2, 0 <= v0, 0 <= v1, 0 <= v2,
                    s == w0 as int * v0 as int + w1 as int * v1 as int + w2 as int * v2 as int,
            ;
            lemma_div_pos_is_pos(s as int, area as int);
        }
    }
    r
}

fn min3(u0: i64, u1: i64, u2: i64) -> (r: i64)
    ensures
        r == if u0 <= u1 && u0 <= u2 { u0 } else if u1 <= u2 { u1 } else { u2 },
{
    if u0 <= u1 && u0 <= u2 { u0 } else if u1 <= u2 { u1 } else { u2 }
}

fn max3(u0: i64, u1: i64, u2: i64) -> (r: i64)
    ensures
        r == if u0 >= u1 && u0 >= u2 { u0 } else if u1 >= u2 { u1 } else { u2 },
{
    if u0 >= u1 && u0 >= u2 { u0 } else if u1 >= u2 { u1 } else { u2 }
}

proof fn lemma_contains_push(s: Seq<Fragment>, f: Fragment, px: int, py: int)
    requires
        contains_pixel(s, px, py),
    ensures
        contains_pixel(s.push(f), px, py),
{
    let i = choose|i: int| 0 <= i < s.len() && s[i].x == px && s[i].y == py;
    assert(s.push(f)[i] == s[i]);
}

/// Rasterize one triangle: a fragment for every covered pixel center of
/// the clamped bounding box, in row-major scan order, and none at all
/// for a degenerate or back-facing triangle.
pub fn triangle(a: &ScreenVertex, b: &ScreenVertex, c: &ScreenVertex) -> (frags: Vec<Fragment>)
    requires
        a.wf(),
        b.wf(),
        c.wf(),
    ensures
        frags@ == tri_frags_spec(*a, *b, *c),
        tri_area(*a, *b, *c) <= 0 ==> frags@.len() == 0,
        forall|i: int| 0 <= i < frags@.len() ==> #[trigger] frags@[i].wf(),
        forall|i: int| 0 <= i < frags@.len() ==> #[trigger] frag_ok(frags@[i], *a, *b, *c),
        forall|px: int, py: int|
            tri_area(*a, *b, *c) > 0
                && bbox_lo(a.x as int, b.x as int, c.x as int) <= px <= bbox_hi(a.x as int, b.x as int, c.x as int)
                && bbox_lo(a.y as int, b.y as int, c.y as int) <= py <= bbox_hi(a.y as int, b.y as int, c.y as int)
                && covered(*a, *b, *c, px, py) ==> #[trigger] contains_pixel(frags@, px, py),
        forall|i: int, j: int|
            0 <= i < j < frags@.len() ==> (frags@[i].y < frags@[j].y) || (frags@[i].y == frags@[j].y
                && frags@[i].x < frags@[j].x),
{
    let mut frags: Vec<Fragment> = Vec::new();
    let area = edge_exec(a.x, a.y, b.x, b.y, c.x, c.y);
    if area <= 0 {
        proof {
            assert(frags@ =~= tri_frags_spec(*a, *b, *c));
        }
        return frags;
    }
    let mnx = min3(a.x, b.x, c.x);
    let mny = min3(a.y, b.y, c.y);
    let mxx = max3(a.x, b.x, c.x);
    let mxy = max3(a.y, b.y, c.y);
    let minx: i64 = if mnx < 0 { 0 } else { mnx };
    let miny: i64 = if mny < 0 { 0 } else { mny };
    let maxx: i64 = if mxx > EXTENT { EXTENT } else { mxx };
    let maxy: i64 = if mxy > EXTENT { EXTENT } else { mxy };
    if minx > maxx || miny > maxy {
        proof {
            assert(frags@ =~= tri_frags_spec(*a, *b, *c));
        }
        return frags;
    }
    let ghost glo_x = bbox_lo(a.x as int, b.x as int, c.x as int);
    let ghost ghi_x = bbox_hi(a.x as int, b.x as int, c.x as int);
    let ghost glo_y = bbox_lo(a.y as int, b.y as int, c.y as int);
    let ghost ghi_y = bbox_hi(a.y as int, b.y as int, c.y as int);
    let mut py: i64 = miny;
    while py <= maxy
        invariant
            a.wf(), b.wf(), c.wf(),
            minx == glo_x, maxx == ghi_x, miny == glo_y, maxy == ghi_y,
            0 <= minx <= maxx <= EXTENT, 0 <= miny <= maxy <= EXTENT,
            miny <= py <= maxy + 1,
            area == tri_area(*a, *b, *c),
            0 < area <= 0x1_0000_0000,
            forall|i: int| 0 <= i < frags@.len() ==> #[trigger] frags@[i].wf(),
            forall|i: int| 0 <= i < frags@.len() ==> #[trigger] frag_ok(frags@[i], *a, *b, *c),
            forall|i: int|
                0 <= i < frags@.len() ==> miny <= #[trigger] frags@[i].y < py && minx
                    <= frags@[i].x <= maxx,
            forall|qx: int, qy: int|
                minx <= qx <= maxx && miny <= qy < py && covered(*a, *b, *c, qx, qy)
                    ==> #[trigger] contains_pixel(frags@, qx, qy),
            forall|i: int, j: int|
                0 <= i < j < frags@.len() ==> (frags@[i].y < frags@[j].y) || (frags@[i].y
                    == frags@[j].y && frags@[i].x < frags@[j].x),
            frags@ == rect_frags(
                *a, *b, *c,
                miny as int,
                (py - miny) as nat,
                minx as int,
                (maxx - minx + 1) as nat,
            ),
        decreases maxy + 1 - py,
    {
        let mut px: i64 = minx;
        proof {
            assert(row_frags(*a, *b, *c, py as int, minx as int, 0nat) =~= Seq::<Fragment>::empty());
            assert(frags@ =~= rect_frags(
                *a, *b, *c,
                miny as int,
                (py - miny) as nat,
                minx as int,
                (maxx - minx + 1) as nat,
            ) + row_frags(*a, *b, *c, py as int, minx as int, 0nat));
        }
        while px <= maxx
            invariant
                a.wf(), b.wf(), c.wf(),
                minx == glo_x, maxx == ghi_x, miny == glo_y, maxy == ghi_y,
                0 <= minx <= maxx <= EXTENT, 0 <= miny <= maxy <= EXTENT,
                miny <= py <= maxy,
                minx <= px <= maxx + 1,
                area == tri_area(*a, *b, *c),
                0 < area <= 0x1_0000_0000,
                forall|i: int| 0 <= i < frags@.len() ==> #[trigger] frags@[i].wf(),
                forall|i: int| 0 <= i < frags@.len() ==> #[trigger] frag_ok(frags@[i], *a, *b, *c),
                forall|i: int|
                    0 <= i < frags@.len() ==> (miny <= #[trigger] frags@[i].y < py || (frags@[i].y
                        == py && minx <= frags@[i].x < px)) && minx <= frags@[i].x <= maxx,
                forall|qx: int, qy: int|
                    minx <= qx <= maxx && miny <= qy < py && covered(*a, *b, *c, qx, qy)
                        ==> #[trigger] contains_pixel(frags@, qx, qy),
                forall|qx: int|
                    minx <= qx < px && covered(*a, *b, *c, qx, py as int)
                        ==> #[trigger] contains_pixel(frags@, qx, py as int),
                forall|i: int, j: int|
                    0 <= i < j < frags@.len() ==> (frags@[i].y < frags@[j].y) || (frags@[i].y
                        == frags@[j].y && frags@[i].x < frags@[j].x),
                frags@ == rect_frags(
                    *a, *b, *c,
                    miny as int,
                    (py - miny) as nat,
                    minx as int,
                    (maxx - minx + 1) as nat,
                ) + row_frags(*a, *b, *c, py as int, minx as int, (px - minx) as nat),
            decreases maxx + 1 - px,
        {
            let w0 = edge_exec(b.x, b.y, c.x, c.y, px, py);
            let w1 = edge_exec(c.x, c.y, a.x, a.y, px, py);
            let w2 = edge_exec(a.x, a.y, b.x, b.y, px, py);
            if w0 >= 0 && w1 >= 0 && w2 >= 0 {
                proof {
                    lemma_edge_sum(*a, *b, *c, px as int, py as int);
                }
                let depth = interp_exec(w0, w1, w2, a.depth, b.depth, c.depth, area, Ghost(DEPTH_BOUND as int));
                let nx = interp_exec(w0, w1, w2, a.normal.x, b.normal.x, c.normal.x, area, Ghost(NORMAL_BOUND as int));
                let ny = interp_exec(w0, w1, w2, a.normal.y, b.normal.y, c.normal.y, area, Ghost(NORMAL_BOUND as int));
                let nz = interp_exec(w0, w1, w2, a.normal.z, b.normal.z, c.normal.z, area, Ghost(NORMAL_BOUND as int));
                let tu = interp_exec(w0, w1, w2, a.tex_coords.x, b.tex_coords.x, c.tex_coords.x, area, Ghost(TEX_BOUND as int));
                let tv = interp_exec(w0, w1, w2, a.tex_coords.y, b.tex_coords.y, c.tex_coords.y, area, Ghost(TEX_BOUND as int));
                let inten = interp_exec(w0, w1, w2, a.intensity, b.intensity, c.intensity, area, Ghost(FP as int));
                let f = Fragment {
                    x: px,
                    y: py,
                    depth,
                    normal: Vec3 { x: nx, y: ny, z: nz },
                    tex_coords: Vec2 { x: tu, y: tv },
                    intensity: inten,
                };
                let ghost old_frags = frags@;
                frags.push(f);
                proof {
                    assert(frags@[old_frags.len() as int] == f);
                    assert(frag_ok(f, *a, *b, *c));
                    assert(f == frag_at(*a, *b, *c, px as int, py as int));
                    let ghost rect = rect_frags(
                        *a, *b, *c,
                        miny as int,
                        (py - miny) as nat,
                        minx as int,
                        (maxx - minx + 1) as nat,
                    );
                    let ghost row_prev = row_frags(*a, *b, *c, py as int, minx as int, (px - minx) as nat);
                    assert(row_frags(*a, *b, *c, py as int, minx as int, (px + 1 - minx) as nat)
                        == row_prev.push(f));
                    assert(frags@ =~= rect + row_prev.push(f));
                    assert forall|qx: int, qy: int|
                        minx <= qx <= maxx && miny <= qy < py && covered(*a, *b, *c, qx, qy)
                            implies #[trigger] contains_pixel(frags@, qx, qy) by {
                        lemma_contains_push(old_frags, f, qx, qy);
                    }
                    assert forall|qx: int|
                        minx <= qx < px + 1 && covered(*a, *b, *c, qx, py as int)
                            implies #[trigger] contains_pixel(frags@, qx, py as int) by {
                        if qx < px {
                            lemma_contains_push(old_frags, f, qx, py as int);
                        } else {
                            assert(frags@[old_frags.len() as int].x == px);
                        }
                    }
                }
            } else {
                proof {
                    assert(!covered(*a, *b, *c, px as int, py as int));
                    assert(row_frags(*a, *b, *c, py as int, minx as int, (px + 1 - minx) as nat)
                        == row_frags(*a, *b, *c, py as int, minx as int, (px - minx) as nat));
                }
            }
            px = px + 1;
        }
        proof {
            assert(rect_frags(
                *a, *b, *c,
                miny as int,
                (py + 1 - miny) as nat,
                minx as int,
                (maxx - minx + 1) as nat,
            ) == rect_frags(
                *a, *b, *c,
                miny as int,
                (py - miny) as nat,
                minx as int,
                (maxx - minx + 1) as nat,
            ) + row_frags(*a, *b, *c, py as int, minx as int, (maxx - minx + 1) as nat));
        }
        py = py + 1;
    }
    proof {
        assert(frags@ == tri_frags_spec(*a, *b, *c));
    }
    frags
}

} // verus!
