use vstd::prelude::*;
use crate::vector::{
    vadd, vcross, vdot, vmax, vmin, vscale, vsub, within, Vector, V3, COORD_LIMIT, NORMAL_LIMIT,
    RAY_LIMIT,
};

verus! {

/// The tolerance of the intersection test is `1 / EPS_INV`. It rejects rays
/// parallel to the triangle's plane and hits too close to the ray's origin.
pub const EPS_INV: i128 = 1000000000;

/// A ray: the points `Origin + t * Direction` for `t >= 0`.
#[derive(Clone, Copy, Debug, PartialEq, Eq, Structural)]
pub struct Ray {
    pub Origin: Vector,
    pub Direction: Vector,
}

/// An axis-aligned box given by its two extreme corners.
#[derive(Clone, Copy, Debug, PartialEq, Eq, Structural)]
pub struct BBox {
    pub Min: Vector,
    pub Max: Vector,
}

/// The outcome of a ray test. A hit names the triangle that was struck and
/// lies at distance `Num / Den` along the ray, measured in lengths of the ray's
/// direction; `Den` is positive.
#[derive(Clone, Copy, Debug, PartialEq, Eq, Structural)]
pub enum Hit {
    NoHit,
    Hit { Shape: Triangle, Num: i128, Den: i128 },
}

/// An interpolated shading normal `(X, Y, Z) / Den + (Face / Den) * f`, where
/// `f` is the triangle's unit face normal. `(X, Y, Z)` blends the vertex
/// normals that were given; `Face` is the weight of those that stand for the
/// face normal.
#[derive(Clone, Copy, Debug, PartialEq, Eq, Structural)]
pub struct NormalBlend {
    pub X: i128,
    pub Y: i128,
    pub Z: i128,
    pub Face: i128,
    pub Den: i128,
}

/// Barycentric weights `U / Den`, `V / Den`, `W / Den` of a point with respect
/// to the vertices `V1`, `V2`, `V3`. `Den` is zero exactly for a degenerate
/// triangle, whose weights are then meaningless.
#[derive(Clone, Copy, Debug, PartialEq, Eq, Structural)]
pub struct Weights {
    pub U: i128,
    pub V: i128,
    pub W: i128,
    pub Den: i128,
}

/// A vector with rational coordinates `X / Den`, `Y / Den`, `Z / Den`.
#[derive(Clone, Copy, Debug, PartialEq, Eq, Structural)]
pub struct RVector {
    pub X: i128,
    pub Y: i128,
    pub Z: i128,
    pub Den: i128,
}

/// A triangular surface: three vertices, a normal and a texture coordinate at
/// each vertex, and a handle of the scene's material that shades it.
/// A vertex normal `Some(n)` is a given vector; `Some` of the zero vector is one
/// that is not set yet, and `None` is the triangle's unit face normal, which
/// fixing the normals puts in place of an unset one.
#[derive(Clone, Copy, Debug, PartialEq, Eq, Structural)]
pub struct Triangle {
    pub Material: Option<u64>,
    pub V1: Vector,
    pub V2: Vector,
    pub V3: Vector,
    pub N1: Option<Vector>,
    pub N2: Option<Vector>,
    pub N3: Option<Vector>,
    pub T1: Vector,
    pub T2: Vector,
    pub T3: Vector,
}

type W3 = (i128, i128, i128);

pub open spec fn wv(w: W3) -> V3 {
    (w.0 as int, w.1 as int, w.2 as int)
}

pub open spec fn zero3() -> V3 {
    (0int, 0int, 0int)
}

/// The first edge, from `V1` to `V2`.
pub open spec fn edge1(t: Triangle) -> V3 {
    vsub(t.V2@, t.V1@)
}

/// The second edge, from `V1` to `V3`.
pub open spec fn edge2(t: Triangle) -> V3 {
    vsub(t.V3@, t.V1@)
}

/// The face normal: the cross product of the two edges, of length twice the area.
pub open spec fn face_normal(t: Triangle) -> V3 {
    vcross(edge1(t), edge2(t))
}

/// A vertex normal after fixing: an unset one becomes the unit face normal.
pub open spec fn fixed_normal(n: Option<Vector>) -> Option<Vector> {
    match n {
        Some(v) => if v@ == zero3() {
            None
        } else {
            n
        },
        None => None,
    }
}

/// The triangle with its unset vertex normals replaced by the unit face normal.
pub open spec fn fixed(t: Triangle) -> Triangle {
    Triangle { N1: fixed_normal(t.N1), N2: fixed_normal(t.N2), N3: fixed_normal(t.N3), ..t }
}

/// The part of a vertex normal that is a given vector.
pub open spec fn given_part(n: Option<Vector>) -> V3 {
    match n {
        Some(v) => v@,
        None => zero3(),
    }
}

/// One where a vertex normal stands for the unit face normal, else zero.
pub open spec fn face_part(n: Option<Vector>) -> int {
    match n {
        Some(_) => 0,
        None => 1,
    }
}

/// A given vertex normal lies within `NORMAL_LIMIT`.
pub open spec fn normal_in_range(n: Option<Vector>) -> bool {
    match n {
        Some(v) => within(v@, NORMAL_LIMIT as int),
        None => true,
    }
}

/// The smallest axis-aligned box holding the three vertices, as (min, max).
pub open spec fn bbox_spec(t: Triangle) -> (V3, V3) {
    (vmin(vmin(t.V1@, t.V2@), t.V3@), vmax(vmax(t.V1@, t.V2@), t.V3@))
}

/// `x` with the sign of `det` folded in.
pub open spec fn signed(x: int, det: int) -> int {
    if det < 0 {
        -x
    } else {
        x
    }
}

/// What a `Hit` says: `None` for a miss, `(num, den)` for a hit.
pub open spec fn hit_view(h: Hit) -> Option<(int, int)> {
    match h {
        Hit::NoHit => None,
        Hit::Hit { Num, Den, .. } => Some((Num as int, Den as int)),
    }
}

/// A hit names `t`.
pub open spec fn hit_names(h: Hit, t: Triangle) -> bool {
    match h {
        Hit::NoHit => true,
        Hit::Hit { Shape, .. } => Shape == t,
    }
}

/// The Moller-Trumbore test in exact arithmetic. The sign of the determinant
/// is folded into the numerators so that the hit distance is `num / |det|`.
pub open spec fn intersect_spec(t: Triangle, o: V3, d: V3) -> Option<(int, int)> {
    let e1 = edge1(t);
    let e2 = edge2(t);
    let p = vcross(d, e2);
    let det = vdot(e1, p);
    let a = signed(det, det);
    let tv = vsub(o, t.V1@);
    let un = signed(vdot(tv, p), det);
    let q = vcross(tv, e1);
    let vn = signed(vdot(d, q), det);
    let dn = signed(vdot(e2, q), det);
    if a * EPS_INV < 1 {
        None
    } else if un < 0 || un > a {
        None
    } else if vn < 0 || un + vn > a {
        None
    } else if dn * EPS_INV < a {
        None
    } else {
        Some((dn, a))
    }
}

/// The determinant of the system that gives barycentric weights: the Gram
/// determinant of the two edges.
pub open spec fn gram_det(t: Triangle) -> int {
    let e1 = edge1(t);
    let e2 = edge2(t);
    vdot(e1, e1) * vdot(e2, e2) - vdot(e1, e2) * vdot(e1, e2)
}

/// Barycentric weights of `p` as numerators `(u, v, w)` over `gram_det(t)`.
pub open spec fn weights_spec(t: Triangle, p: V3) -> (int, int, int) {
    let e1 = edge1(t);
    let e2 = edge2(t);
    let f = vsub(p, t.V1@);
    let d00 = vdot(e1, e1);
    let d01 = vdot(e1, e2);
    let d11 = vdot(e2, e2);
    let d20 = vdot(f, e1);
    let d21 = vdot(f, e2);
    let v = d11 * d20 - d01 * d21;
    let w = d00 * d21 - d01 * d20;
    (gram_det(t) - v - w, v, w)
}

/// `u * a + v * b + w * c` for weights `(u, v, w)`.
pub open spec fn blend(k: (int, int, int), a: V3, b: V3, c: V3) -> V3 {
    vadd(vadd(vscale(k.0, a), vscale(k.1, b)), vscale(k.2, c))
}

impl Triangle {
    /// The vertices and texture coordinates lie within `COORD_LIMIT`.
    pub open spec fn in_range(&self) -> bool {
        self.V1.in_range() && self.V2.in_range() && self.V3.in_range() && self.T1.in_range()
            && self.T2.in_range() && self.T3.in_range()
    }

    /// Coordinates within their limits; the vertex normals within `NORMAL_LIMIT`.
    pub open spec fn wf(&self) -> bool {
        &&& self.in_range()
        &&& normal_in_range(self.N1)
        &&& normal_in_range(self.N2)
        &&& normal_in_range(self.N3)
    }
}

impl Ray {
    /// Origin and direction lie within `RAY_LIMIT`.
    pub open spec fn in_range(&self) -> bool {
        within(self.Origin@, RAY_LIMIT as int) && within(self.Direction@, RAY_LIMIT as int)
    }
}

pub proof fn lemma_mul_bound(a: int, b: int, la: int, lb: int)
    requires
        -la <= a <= la,
        -lb <= b <= lb,
    ensures
        -(la * lb) <= a * b <= la * lb,
{
    assert(-(la * lb) <= a * b <= la * lb) by (nonlinear_arith)
        requires
            -la <= a <= la,
            -lb <= b <= lb,
    ;
}

fn widen(a: &Vector) -> (r: W3)
    ensures
        wv(r) == a@,
{
    (a.X as i128, a.Y as i128, a.Z as i128)
}

fn wsub(a: W3, b: W3, Ghost(la): Ghost<int>) -> (r: W3)
    requires
        within(wv(a), la),
        within(wv(b), la),
        la <= 0x1000_0000_0000_0000_0000_0000_0000_0000,
    ensures
        wv(r) == vsub(wv(a), wv(b)),
        within(wv(r), 2 * la),
{
    (a.0 - b.0, a.1 - b.1, a.2 - b.2)
}

fn wcross(a: W3, b: W3, Ghost(la): Ghost<int>, Ghost(lb): Ghost<int>) -> (r: W3)
    requires
        within(wv(a), la),
        within(wv(b), lb),
        la * lb <= 0x1000_0000_0000_0000_0000_0000_0000_0000,
    ensures
        wv(r) == vcross(wv(a), wv(b)),
        within(wv(r), 2 * (la * lb)),
{
    proof {
        lemma_mul_bound(a.0 as int, b.1 as int, la, lb);
        lemma_mul_bound(a.0 as int, b.2 as int, la, lb);
        lemma_mul_bound(a.1 as int, b.0 as int, la, lb);
        lemma_mul_bound(a.1 as int, b.2 as int, la, lb);
        lemma_mul_bound(a.2 as int, b.0 as int, la, lb);
        lemma_mul_bound(a.2 as int, b.1 as int, la, lb);
    }
    (a.1 * b.2 - a.2 * b.1, a.2 * b.0 - a.0 * b.2, a.0 * b.1 - a.1 * b.0)
}

fn wdot(a: W3, b: W3, Ghost(la): Ghost<int>, Ghost(lb): Ghost<int>) -> (r: i128)
    requires
        within(wv(a), la),
        within(wv(b), lb),
        la * lb <= 0x1000_0000_0000_0000_0000_0000_0000_0000,
    ensures
        r == vdot(wv(a), wv(b)),
        -3 * (la * lb) <= r <= 3 * (la * lb),
{
    proof {
        lemma_mul_bound(a.0 as int, b.0 as int, la, lb);
        lemma_mul_bound(a.1 as int, b.1 as int, la, lb);
        lemma_mul_bound(a.2 as int, b.2 as int, la, lb);
        let x = (a.0 as int) * (b.0 as int);
        let y = (a.1 as int) * (b.1 as int);
        let z = (a.2 as int) * (b.2 as int);
        assert(vdot(wv(a), wv(b)) == x + y + z);
        let m = la * lb;
        assert(-m <= x <= m && -m <= y <= m && -m <= z <= m);
        assert(-3 * m <= x + y + z <= 3 * m) by (nonlinear_arith)
            requires
                -m <= x <= m,
                -m <= y <= m,
                -m <= z <= m,
        ;
    }
    a.0 * b.0 + a.1 * b.1 + a.2 * b.2
}

fn wscale(k: i128, a: W3, Ghost(lk): Ghost<int>, Ghost(la): Ghost<int>) -> (r: W3)
    requires
        -lk <= k <= lk,
        within(wv(a), la),
        lk * la <= 0x1000_0000_0000_0000_0000_0000_0000_0000,
    ensures
        wv(r) == vscale(k as int, wv(a)),
        within(wv(r), lk * la),
{
    proof {
        lemma_mul_bound(k as int, a.0 as int, lk, la);
        lemma_mul_bound(k as int, a.1 as int, lk, la);
        lemma_mul_bound(k as int, a.2 as int, lk, la);
    }
    (k * a.0, k * a.1, k * a.2)
}

/// Bound on the magnitude of barycentric numerators and their denominator.
pub open spec fn weight_bound() -> int {
    0x8_0000_0000_0000_0000_0000
}

/// `U * a + V * b + W * c` for vectors within `2^40`.
fn blend_exec(k: &Weights, a: &Vector, b: &Vector, c: &Vector) -> (r: W3)
    requires
        -weight_bound() <= k.U <= weight_bound(),
        -weight_bound() <= k.V <= weight_bound(),
        -weight_bound() <= k.W <= weight_bound(),
        within(a@, 0x100_0000_0000),
        within(b@, 0x100_0000_0000),
        within(c@, 0x100_0000_0000),
    ensures
        wv(r) == blend((k.U as int, k.V as int, k.W as int), a@, b@, c@),
{
    let lk = Ghost(weight_bound());
    let la = Ghost(0x100_0000_0000int);
    let x = wscale(k.U, widen(a), lk, la);
    let y = wscale(k.V, widen(b), lk, la);
    let z = wscale(k.W, widen(c), lk, la);
    (x.0 + y.0 + z.0, x.1 + y.1 + z.1, x.2 + y.2 + z.2)
}

/// The cross product of the triangle's two edges.
fn face_normal_exec(t: &Triangle) -> (r: W3)
    requires
        t.V1.in_range(),
        t.V2.in_range(),
        t.V3.in_range(),
    ensures
        wv(r) == face_normal(*t),
        within(wv(r), 0x8_0000_0000),
{
    let l = Ghost(COORD_LIMIT as int);
    let e1 = wsub(widen(&t.V2), widen(&t.V1), l);
    let e2 = wsub(widen(&t.V3), widen(&t.V1), l);
    wcross(e1, e2, Ghost(0x2_0000), Ghost(0x2_0000))
}

fn fix_one(n: Option<Vector>) -> (r: Option<Vector>)
    ensures
        r == fixed_normal(n),
{
    match n {
        Some(v) => if v.X == 0 && v.Y == 0 && v.Z == 0 {
            None
        } else {
            n
        },
        None => None,
    }
}

/// Builds a triangle from its vertices, texture coordinates and material;
/// its vertex normals are all the unit face normal.
pub fn NewTriangle(v1: Vector, v2: Vector, v3: Vector, t1: Vector, t2: Vector, t3: Vector, material: u64) -> (r: Triangle)
    requires
        v1.in_range(),
        v2.in_range(),
        v3.in_range(),
        t1.in_range(),
        t2.in_range(),
        t3.in_range(),
    ensures
        r.wf(),
        r.V1 == v1 && r.V2 == v2 && r.V3 == v3,
        r.T1 == t1 && r.T2 == t2 && r.T3 == t3,
        r.Material == Some(material),
        r.N1.is_none() && r.N2.is_none() && r.N3.is_none(),
{
    let mut t = Triangle::Default();
    t.V1 = v1;
    t.V2 = v2;
    t.V3 = v3;
    t.T1 = t1;
    t.T2 = t2;
    t.T3 = t3;
    t.Material = Some(material);
    t.FixNormals();
    t
}

impl Triangle {
    /// A triangle with every vector zero and no material.
    pub fn Default() -> (r: Triangle)
        ensures
            r.Material.is_none(),
            r.V1@ == zero3() && r.V2@ == zero3() && r.V3@ == zero3(),
            r.N1 == Some(Vector { X: 0, Y: 0, Z: 0 }),
            r.N2 == r.N1 && r.N3 == r.N1,
            r.T1@ == zero3() && r.T2@ == zero3() && r.T3@ == zero3(),
    {
        Triangle {
            Material: None,
            V1: Vector::Default(),
            V2: Vector::Default(),
            V3: Vector::Default(),
            N1: Some(Vector::Default()),
            N2: Some(Vector::Default()),
            N3: Some(Vector::Default()),
            T1: Vector::Default(),
            T2: Vector::Default(),
            T3: Vector::Default(),
        }
    }

    pub fn Vertices(&self) -> (r: (Vector, Vector, Vector))
        ensures
            r == (self.V1, self.V2, self.V3),
    {
        (self.V1, self.V2, self.V3)
    }

    /// The face normal, the cross product of the edges `V2 - V1` and `V3 - V1`,
    /// not normalised: its direction is the triangle's orientation and its
    /// length twice the area.
    pub fn FaceNormal(&self) -> (r: Vector)
        requires
            self.V1.in_range(),
            self.V2.in_range(),
            self.V3.in_range(),
        ensures
            r@ == face_normal(*self),
    {
        let n = face_normal_exec(self);
        Vector { X: n.0 as i64, Y: n.1 as i64, Z: n.2 as i64 }
    }

    /// Replaces each unset (zero) vertex normal by the unit face normal and
    /// leaves the others as they are.
    pub fn FixNormals(&mut self)
        ensures
            *final(self) == fixed(*old(self)),
    {
        self.N1 = fix_one(self.N1);
        self.N2 = fix_one(self.N2);
        self.N3 = fix_one(self.N3);
    }

    /// Nothing to prepare: a triangle needs no precomputation.
    pub fn Compile(&self) {
    }

    /// The tightest axis-aligned box holding the three vertices.
    pub fn BoundingBox(&self) -> (r: BBox)
        ensures
            (r.Min@, r.Max@) == bbox_spec(*self),
    {
        let min = self.V1.Min(self.V2).Min(self.V3);
        let max = self.V1.Max(self.V2).Max(self.V3);
        BBox { Min: min, Max: max }
    }

    /// Intersects a ray with the triangle. Rays parallel to its plane miss, and
    /// so do hits at a distance below the tolerance; there is no upper bound.
    pub fn Intersect(&self, r: &Ray) -> (h: Hit)
        requires
            within(self.V1@, RAY_LIMIT as int),
            within(self.V2@, RAY_LIMIT as int),
            within(self.V3@, RAY_LIMIT as int),
            r.in_range(),
        ensures
            hit_view(h) == intersect_spec(*self, r.Origin@, r.Direction@),
            hit_names(h, *self),
    {
        let l = Ghost(RAY_LIMIT as int);
        let v1 = widen(&self.V1);
        let e1 = wsub(widen(&self.V2), v1, l);
        let e2 = wsub(widen(&self.V3), v1, l);
        let d = widen(&r.Direction);
        let p = wcross(d, e2, Ghost(0x4000_0000), Ghost(0x8000_0000));
        let det = wdot(e1, p, Ghost(0x8000_0000), Ghost(0x4000_0000_0000_0000));
        if det == 0 {
            return Hit::NoHit;
        }
        let a = if det < 0 { -det } else { det };
        let tv = wsub(widen(&r.Origin), v1, l);
        let un0 = wdot(tv, p, Ghost(0x8000_0000), Ghost(0x4000_0000_0000_0000));
        let un = if det < 0 { -un0 } else { un0 };
        if un < 0 || un > a {
            return Hit::NoHit;
        }
        let q = wcross(tv, e1, Ghost(0x8000_0000), Ghost(0x8000_0000));
        let vn0 = wdot(d, q, Ghost(0x4000_0000), Ghost(0x8000_0000_0000_0000));
        let vn = if det < 0 { -vn0 } else { vn0 };
        if vn < 0 || un + vn > a {
            return Hit::NoHit;
        }
        let dn0 = wdot(e2, q, Ghost(0x8000_0000), Ghost(0x8000_0000_0000_0000));
        let dn = if det < 0 { -dn0 } else { dn0 };
        if dn * EPS_INV < a {
            return Hit::NoHit;
        }
        Hit::Hit { Shape: *self, Num: dn, Den: a }
    }

    /// Barycentric weights of `p`, a point in the triangle's plane, found by
    /// solving the two-by-two system over the edges.
    pub fn Barycentric(&self, p: Vector) -> (r: Weights)
        requires
            self.V1.in_range(),
            self.V2.in_range(),
            self.V3.in_range(),
            p.in_range(),
        ensures
            (r.U as int, r.V as int, r.W as int) == weights_spec(*self, p@),
            r.Den == gram_det(*self),
            -weight_bound() <= r.U <= weight_bound(),
            -weight_bound() <= r.V <= weight_bound(),
            -weight_bound() <= r.W <= weight_bound(),
    {
        let l = Ghost(COORD_LIMIT as int);
        let e = Ghost(0x2_0000int);
        let o = widen(&self.V1);
        let v0 = wsub(widen(&self.V2), o, l);
        let v1 = wsub(widen(&self.V3), o, l);
        let v2 = wsub(widen(&p), o, l);
        let d00 = wdot(v0, v0, e, e);
        let d01 = wdot(v0, v1, e, e);
        let d11 = wdot(v1, v1, e, e);
        let d20 = wdot(v2, v0, e, e);
        let d21 = wdot(v2, v1, e, e);
        proof {
            let m = 0xC_0000_0000int;
            lemma_mul_bound(d00 as int, d11 as int, m, m);
            lemma_mul_bound(d01 as int, d01 as int, m, m);
            lemma_mul_bound(d11 as int, d20 as int, m, m);
            lemma_mul_bound(d01 as int, d21 as int, m, m);
            lemma_mul_bound(d00 as int, d21 as int, m, m);
            lemma_mul_bound(d01 as int, d20 as int, m, m);
        }
        let d = d00 * d11 - d01 * d01;
        let v = d11 * d20 - d01 * d21;
        let w = d00 * d21 - d01 * d20;
        let u = d - v - w;
        Weights { U: u, V: v, W: w, Den: d }
    }

    /// Texture coordinates at `p`, interpolated from the vertices' by the
    /// barycentric weights; the third coordinate is zero.
    pub fn UV(&self, p: Vector) -> (r: RVector)
        requires
            self.in_range(),
            p.in_range(),
        ensures
            r.X == blend(weights_spec(*self, p@), self.T1@, self.T2@, self.T3@).0,
            r.Y == blend(weights_spec(*self, p@), self.T1@, self.T2@, self.T3@).1,
            r.Z == 0,
            r.Den == gram_det(*self),
    {
        let k = self.Barycentric(p);
        let n = blend_exec(&k, &self.T1, &self.T2, &self.T3);
        RVector { X: n.0, Y: n.1, Z: 0, Den: k.Den }
    }

    /// The vertex normals interpolated at `p` by the barycentric weights, not
    /// normalised: the smooth-shading normal before texture perturbation. The
    /// vertex normals that stand for the unit face normal are gathered in
    /// `Face`.
    pub fn InterpolatedNormal(&self, p: Vector) -> (r: NormalBlend)
        requires
            self.wf(),
            p.in_range(),
        ensures
            (r.X as int, r.Y as int, r.Z as int) == blend(
                weights_spec(*self, p@),
                given_part(self.N1),
                given_part(self.N2),
                given_part(self.N3),
            ),
            r.Face == weights_spec(*self, p@).0 * face_part(self.N1) + weights_spec(*self, p@).1
                * face_part(self.N2) + weights_spec(*self, p@).2 * face_part(self.N3),
            r.Den == gram_det(*self),
    {
        let k = self.Barycentric(p);
        let zero = Vector::Default();
        let (a, fa) = match self.N1 {
            Some(n) => (n, 0i128),
            None => (zero, k.U),
        };
        let (b, fb) = match self.N2 {
            Some(n) => (n, 0i128),
            None => (zero, k.V),
        };
        let (c, fc) = match self.N3 {
            Some(n) => (n, 0i128),
            None => (zero, k.W),
        };
        let n = blend_exec(&k, &a, &b, &c);
        NormalBlend { X: n.0, Y: n.1, Z: n.2, Face: fa + fb + fc, Den: k.Den }
    }

    /// Tangent and bitangent directions, not normalised, along which the
    /// texture coordinates U and V grow over the triangle.
    pub fn TangentBasis(&self) -> (r: (Vector, Vector))
        requires
            self.in_range(),
        ensures
            r.0@ == vsub(
                vscale(vsub(self.T3@, self.T1@).1, edge1(*self)),
                vscale(vsub(self.T2@, self.T1@).1, edge2(*self)),
            ),
            r.1@ == vsub(
                vscale(vsub(self.T2@, self.T1@).0, edge2(*self)),
                vscale(vsub(self.T3@, self.T1@).0, edge1(*self)),
            ),
    {
        let l = Ghost(COORD_LIMIT as int);
        let e = Ghost(0x2_0000int);
        let m = Ghost(0x4_0000_0000int);
        let o = widen(&self.V1);
        let dv1 = wsub(widen(&self.V2), o, l);
        let dv2 = wsub(widen(&self.V3), o, l);
        let t1 = widen(&self.T1);
        let dt1 = wsub(widen(&self.T2), t1, l);
        let dt2 = wsub(widen(&self.T3), t1, l);
        let a = wscale(dt2.1, dv1, e, e);
        let b = wscale(dt1.1, dv2, e, e);
        let t = wsub(a, b, m);
        let c = wscale(dt1.0, dv2, e, e);
        let d = wscale(dt2.0, dv1, e, e);
        let bt = wsub(c, d, m);
        (
            Vector { X: t.0 as i64, Y: t.1 as i64, Z: t.2 as i64 },
            Vector { X: bt.0 as i64, Y: bt.1 as i64, Z: bt.2 as i64 },
        )
    }

    /// The material handle; the point plays no part.
    pub fn MaterialAt(&self, p: Vector) -> (r: u64)
        requires
            self.Material.is_some(),
        ensures
            self.Material == Some(r),
    {
        self.Material.unwrap()
    }

    /// The kind of shape, for callers that tell shapes apart.
    pub fn GetType(&self) -> (r: &'static str)
        ensures
            r@ == "Triangle"@,
    {
        "Triangle"
    }
}

} // verus!
