use vstd::prelude::*;
use crate::triangle::{
    bbox_spec, blend, edge1, edge2, face_normal, face_part, fixed, given_part, gram_det,
    intersect_spec, weights_spec, zero3, Ray, Triangle,
};
use crate::vector::{vdot, vscale, vsub, Vector, V3};

verus! {

/// A ray whose direction is orthogonal to the face normal runs parallel to
/// the triangle's plane, and misses it wherever it starts.
pub proof fn lemma_parallel_ray_misses(t: Triangle, r: Ray)
    requires
        vdot(r.Direction@, face_normal(t)) == 0,
    ensures
        intersect_spec(t, r.Origin@, r.Direction@).is_none(),
{
    let (d0, d1, d2) = r.Direction@;
    let (a0, a1, a2) = edge1(t);
    let (b0, b1, b2) = edge2(t);
    lemma_expand(a0, d1, b2, d2, b1);
    lemma_expand(a1, d2, b0, d0, b2);
    lemma_expand(a2, d0, b1, d1, b0);
    lemma_expand(d0, a1, b2, a2, b1);
    lemma_expand(d1, a2, b0, a0, b2);
    lemma_expand(d2, a0, b1, a1, b0);
    lemma_swap(a0, d1, b2);
    lemma_swap(a0, d2, b1);
    lemma_swap(a1, d2, b0);
    lemma_swap(a1, d0, b2);
    lemma_swap(a2, d0, b1);
    lemma_swap(a2, d1, b0);
}

proof fn lemma_expand(x: int, y: int, z: int, u: int, v: int)
    ensures
        x * (y * z - u * v) == x * y * z - x * u * v,
{
    assert(x * (y * z - u * v) == x * y * z - x * u * v) by (nonlinear_arith);
}

proof fn lemma_swap(x: int, y: int, z: int)
    ensures
        x * y * z == y * x * z,
{
    assert(x * y == y * x) by (nonlinear_arith);
}

proof fn lemma_associate(a: int, b: int, c: int)
    ensures
        a * (b * c) == (a * b) * c,
{
    assert(a * (b * c) == (a * b) * c) by (nonlinear_arith);
}

proof fn lemma_distribute3(b: int, p: int, q: int, r: int)
    ensures
        b * (p + q + r) == b * p + b * q + b * r,
{
    assert(b * (p + q + r) == b * p + b * q + b * r) by (nonlinear_arith);
}

proof fn lemma_combination_times(b: int, e: int, c: int, g: int, x: int)
    ensures
        (b * e + c * g) * x == b * (e * x) + c * (g * x),
{
    assert((b * e + c * g) * x == b * (e * x) + c * (g * x)) by (nonlinear_arith);
}

/// From `s * f == b * e + c * g` it follows that `s * (f . x) == b * (e . x) + c * (g . x)`.
proof fn lemma_dot_of_combination(s: int, b: int, c: int, f: V3, e: V3, g: V3, x: V3)
    requires
        s * f.0 == b * e.0 + c * g.0,
        s * f.1 == b * e.1 + c * g.1,
        s * f.2 == b * e.2 + c * g.2,
    ensures
        s * vdot(f, x) == b * vdot(e, x) + c * vdot(g, x),
{
    let (f0, f1, f2) = f;
    let (e0, e1, e2) = e;
    let (g0, g1, g2) = g;
    let (x0, x1, x2) = x;
    lemma_distribute3(s, f0 * x0, f1 * x1, f2 * x2);
    lemma_associate(s, f0, x0);
    lemma_associate(s, f1, x1);
    lemma_associate(s, f2, x2);
    lemma_combination_times(b, e0, c, g0, x0);
    lemma_combination_times(b, e1, c, g1, x1);
    lemma_combination_times(b, e2, c, g2, x2);
    lemma_distribute3(b, e0 * x0, e1 * x1, e2 * x2);
    lemma_distribute3(c, g0 * x0, g1 * x1, g2 * x2);
}

/// From `s * f == a * v1 + b * v2 + c * v3` with `s = a + b + c` it follows
/// that `s * (f - v1) == b * (v2 - v1) + c * (v3 - v1)`, in one coordinate.
proof fn lemma_shift_combination(a: int, b: int, c: int, p: int, v1: int, v2: int, v3: int)
    requires
        (a + b + c) * p == a * v1 + b * v2 + c * v3,
    ensures
        (a + b + c) * (p - v1) == b * (v2 - v1) + c * (v3 - v1),
{
    assert((a + b + c) * (p - v1) == (a + b + c) * p - (a * v1 + b * v1 + c * v1))
        by (nonlinear_arith);
    assert(b * (v2 - v1) + c * (v3 - v1) == b * v2 + c * v3 - b * v1 - c * v1)
        by (nonlinear_arith);
}

/// Weights `(a, b, c)` over `s = a + b + c` give a point `p` of the plane with
/// `s * p = a * V1 + b * V2 + c * V3`. For a triangle that is not degenerate the
/// barycentric weights of `p` are those weights again: `u / den = a / s`, and
/// so on.
pub proof fn lemma_barycentric_round_trip(t: Triangle, p: V3, a: int, b: int, c: int)
    requires
        a >= 0,
        b >= 0,
        c >= 0,
        a + b + c > 0,
        vscale(a + b + c, p) == blend((a, b, c), t.V1@, t.V2@, t.V3@),
        gram_det(t) != 0,
    ensures
        weights_spec(t, p).0 * (a + b + c) == a * gram_det(t),
        weights_spec(t, p).1 * (a + b + c) == b * gram_det(t),
        weights_spec(t, p).2 * (a + b + c) == c * gram_det(t),
{
    let s = a + b + c;
    let e1 = edge1(t);
    let e2 = edge2(t);
    let f = vsub(p, t.V1@);
    let (v1, v2, v3) = (t.V1@, t.V2@, t.V3@);
    lemma_shift_combination(a, b, c, p.0, v1.0, v2.0, v3.0);
    lemma_shift_combination(a, b, c, p.1, v1.1, v2.1, v3.1);
    lemma_shift_combination(a, b, c, p.2, v1.2, v2.2, v3.2);
    lemma_dot_of_combination(s, b, c, f, e1, e2, e1);
    lemma_dot_of_combination(s, b, c, f, e1, e2, e2);
    let d00 = vdot(e1, e1);
    let d01 = vdot(e1, e2);
    let d11 = vdot(e2, e2);
    let d20 = vdot(f, e1);
    let d21 = vdot(f, e2);
    lemma_swap(e2.0, e1.0, 1);
    lemma_swap(e2.1, e1.1, 1);
    lemma_swap(e2.2, e1.2, 1);
    assert(vdot(e2, e1) == d01);
    let g = gram_det(t);
    let v = d11 * d20 - d01 * d21;
    let w = d00 * d21 - d01 * d20;
    let x = s * d20;
    let y = s * d21;
    assert(v * s == d11 * x - d01 * y) by (nonlinear_arith)
        requires
            v == d11 * d20 - d01 * d21,
            x == s * d20,
            y == s * d21,
    ;
    assert(w * s == d00 * y - d01 * x) by (nonlinear_arith)
        requires
            w == d00 * d21 - d01 * d20,
            x == s * d20,
            y == s * d21,
    ;
    assert(d11 * (b * d00 + c * d01) - d01 * (b * d01 + c * d11) == b * (d00 * d11 - d01 * d01))
        by (nonlinear_arith);
    assert(d00 * (b * d01 + c * d11) - d01 * (b * d00 + c * d01) == c * (d00 * d11 - d01 * d01))
        by (nonlinear_arith);
    assert(g * s == a * g + b * g + c * g) by (nonlinear_arith)
        requires
            s == a + b + c,
    ;
    assert((g - v - w) * s == g * s - v * s - w * s) by (nonlinear_arith);
}

/// `v` lies in the box with corners `lo` and `hi`.
pub open spec fn in_box(lo: V3, hi: V3, v: V3) -> bool {
    lo.0 <= v.0 <= hi.0 && lo.1 <= v.1 <= hi.1 && lo.2 <= v.2 <= hi.2
}

/// Each vertex lies in the bounding box, and each face of the box touches a
/// vertex, so no smaller axis-aligned box holds the triangle.
pub proof fn lemma_bounding_box_tight(t: Triangle)
    ensures
        ({
            let (lo, hi) = bbox_spec(t);
            &&& in_box(lo, hi, t.V1@)
            &&& in_box(lo, hi, t.V2@)
            &&& in_box(lo, hi, t.V3@)
            &&& lo.0 == t.V1@.0 || lo.0 == t.V2@.0 || lo.0 == t.V3@.0
            &&& lo.1 == t.V1@.1 || lo.1 == t.V2@.1 || lo.1 == t.V3@.1
            &&& lo.2 == t.V1@.2 || lo.2 == t.V2@.2 || lo.2 == t.V3@.2
            &&& hi.0 == t.V1@.0 || hi.0 == t.V2@.0 || hi.0 == t.V3@.0
            &&& hi.1 == t.V1@.1 || hi.1 == t.V2@.1 || hi.1 == t.V3@.1
            &&& hi.2 == t.V1@.2 || hi.2 == t.V2@.2 || hi.2 == t.V3@.2
        }),
{
}

/// Where the three vertex normals are one given vector `n`, the interpolated
/// normal at any point is `gram_det(t) * n` over `gram_det(t)` with no share of
/// the face normal: `n` itself, for a triangle that is not degenerate.
pub proof fn lemma_normal_averaging(t: Triangle, p: V3, n: Vector)
    requires
        t.N1 == Some(n),
        t.N2 == Some(n),
        t.N3 == Some(n),
    ensures
        blend(weights_spec(t, p), given_part(t.N1), given_part(t.N2), given_part(t.N3))
            == vscale(gram_det(t), n@),
        weights_spec(t, p).0 * face_part(t.N1) + weights_spec(t, p).1 * face_part(t.N2)
            + weights_spec(t, p).2 * face_part(t.N3) == 0,
{
    let k = weights_spec(t, p);
    let g = gram_det(t);
    let m = n@;
    assert(k.0 + k.1 + k.2 == g);
    assert(k.0 * m.0 + k.1 * m.0 + k.2 * m.0 == g * m.0) by (nonlinear_arith)
        requires
            k.0 + k.1 + k.2 == g,
    ;
    assert(k.0 * m.1 + k.1 * m.1 + k.2 * m.1 == g * m.1) by (nonlinear_arith)
        requires
            k.0 + k.1 + k.2 == g,
    ;
    assert(k.0 * m.2 + k.1 * m.2 + k.2 * m.2 == g * m.2) by (nonlinear_arith)
        requires
            k.0 + k.1 + k.2 == g,
    ;
}

/// Where all three vertex normals stand for the face normal, the interpolated
/// normal is the face normal alone, with weight `gram_det(t)` over
/// `gram_det(t)`.
pub proof fn lemma_flat_normal(t: Triangle, p: V3)
    requires
        t.N1.is_none(),
        t.N2.is_none(),
        t.N3.is_none(),
    ensures
        blend(weights_spec(t, p), given_part(t.N1), given_part(t.N2), given_part(t.N3))
            == zero3(),
        weights_spec(t, p).0 * face_part(t.N1) + weights_spec(t, p).1 * face_part(t.N2)
            + weights_spec(t, p).2 * face_part(t.N3) == gram_det(t),
{
}

/// Fixing the normals a second time changes nothing, and a normal that was set
/// is never altered.
pub proof fn lemma_fix_normals_idempotent(t: Triangle)
    ensures
        fixed(fixed(t)) == fixed(t),
        t.N1 != Some(Vector { X: 0, Y: 0, Z: 0 }) ==> fixed(t).N1 == t.N1,
        t.N2 != Some(Vector { X: 0, Y: 0, Z: 0 }) ==> fixed(t).N2 == t.N2,
        t.N3 != Some(Vector { X: 0, Y: 0, Z: 0 }) ==> fixed(t).N3 == t.N3,
{
}

} // verus!
