use triangle::triangle::{BBox, Hit, NormalBlend, Ray, Weights};
use triangle::{NewTriangle, Triangle, Vector};

fn v(x: i64, y: i64, z: i64) -> Vector {
    Vector::New(x, y, z)
}

fn unit_right(scale: i64) -> Triangle {
    NewTriangle(v(0, 0, 0), v(scale, 0, 0), v(0, scale, 0), v(0, 0, 0), v(1, 0, 0), v(0, 1, 0), 7)
}

fn ray(o: Vector, d: Vector) -> Ray {
    Ray { Origin: o, Direction: d }
}

#[test]
fn intersect_hits_at_distance_one() {
    let t = unit_right(4);
    let h = t.Intersect(&ray(v(1, 1, 4), v(0, 0, -4)));
    assert_eq!(h, Hit::Hit { Shape: t, Num: 64, Den: 64 });
    if let Hit::Hit { Num, Den, .. } = h {
        assert_eq!(Num as f64 / Den as f64, 1.0);
    }
}

#[test]
fn intersect_distance_is_a_ratio() {
    let t = unit_right(4);
    let h = t.Intersect(&ray(v(1, 1, 6), v(0, 0, -4)));
    match h {
        Hit::Hit { Num, Den, .. } => assert_eq!(Num * 2, Den * 3),
        Hit::NoHit => panic!("expected a hit"),
    }
}

#[test]
fn intersect_misses_outside_edges() {
    let t = unit_right(4);
    assert_eq!(t.Intersect(&ray(v(8, 8, 4), v(0, 0, -4))), Hit::NoHit);
    assert_eq!(t.Intersect(&ray(v(-1, 1, 4), v(0, 0, -4))), Hit::NoHit);
    assert_eq!(t.Intersect(&ray(v(1, -1, 4), v(0, 0, -4))), Hit::NoHit);
}

#[test]
fn intersect_rejects_parallel_rays() {
    let t = unit_right(4);
    for o in [v(0, 0, 0), v(1, 1, 0), v(-5, 2, 0), v(1, 1, 3)] {
        assert_eq!(t.Intersect(&ray(o, v(4, -4, 0))), Hit::NoHit);
        assert_eq!(t.Intersect(&ray(o, v(1, 0, 0))), Hit::NoHit);
    }
}

#[test]
fn intersect_rejects_hits_behind_origin() {
    let t = unit_right(4);
    assert_eq!(t.Intersect(&ray(v(1, 1, 4), v(0, 0, 4))), Hit::NoHit);
    assert_eq!(t.Intersect(&ray(v(1, 1, 0), v(0, 0, -4))), Hit::NoHit);
}

#[test]
fn intersect_from_below_keeps_distance_positive() {
    let t = unit_right(4);
    let h = t.Intersect(&ray(v(1, 1, -8), v(0, 0, 2)));
    match h {
        Hit::Hit { Num, Den, .. } => {
            assert!(Den > 0);
            assert_eq!(Num, Den * 4);
        }
        Hit::NoHit => panic!("expected a hit"),
    }
}

#[test]
fn intersect_degenerate_triangle_misses() {
    let t = NewTriangle(v(0, 0, 0), v(1, 1, 1), v(2, 2, 2), v(0, 0, 0), v(0, 0, 0), v(0, 0, 0), 0);
    assert_eq!(t.Intersect(&ray(v(1, 0, 5), v(0, 0, -1))), Hit::NoHit);
}

#[test]
fn barycentric_round_trip() {
    let t = unit_right(4);
    // (1 * V1 + 2 * V2 + 1 * V3) / 4
    let w = t.Barycentric(v(2, 1, 0));
    assert_eq!(w.U * 4, w.Den);
    assert_eq!(w.V * 4, 2 * w.Den);
    assert_eq!(w.W * 4, w.Den);
    assert_eq!(w, Weights { U: 64, V: 128, W: 64, Den: 256 });
    let f = |x: i128| x as f64 / w.Den as f64;
    assert!((f(w.U) - 0.25).abs() < 1e-9);
    assert!((f(w.V) - 0.5).abs() < 1e-9);
    assert!((f(w.W) - 0.25).abs() < 1e-9);
}

#[test]
fn barycentric_at_vertices() {
    let t = NewTriangle(v(1, 2, 3), v(7, -1, 2), v(0, 5, -4), v(0, 0, 0), v(0, 0, 0), v(0, 0, 0), 0);
    let a = t.Barycentric(v(1, 2, 3));
    assert_eq!((a.U, a.V, a.W), (a.Den, 0, 0));
    let b = t.Barycentric(v(7, -1, 2));
    assert_eq!((b.U, b.V, b.W), (0, b.Den, 0));
    let c = t.Barycentric(v(0, 5, -4));
    assert_eq!((c.U, c.V, c.W), (0, 0, c.Den));
    assert!(a.Den > 0);
}

#[test]
fn barycentric_degenerate_has_zero_denominator() {
    let t = NewTriangle(v(0, 0, 0), v(1, 1, 1), v(2, 2, 2), v(0, 0, 0), v(0, 0, 0), v(0, 0, 0), 0);
    assert_eq!(t.Barycentric(v(1, 1, 1)).Den, 0);
}

#[test]
fn bounding_box_is_tight() {
    let t = NewTriangle(v(1, -2, 3), v(-4, 5, 0), v(2, 2, -7), v(0, 0, 0), v(0, 0, 0), v(0, 0, 0), 0);
    let b = t.BoundingBox();
    assert_eq!(b, BBox { Min: v(-4, -2, -7), Max: v(2, 5, 3) });
    let (a, c, d) = t.Vertices();
    for p in [a, c, d] {
        assert!(b.Min.X <= p.X && p.X <= b.Max.X);
        assert!(b.Min.Y <= p.Y && p.Y <= b.Max.Y);
        assert!(b.Min.Z <= p.Z && p.Z <= b.Max.Z);
    }
}

#[test]
fn bounding_box_flat_triangle() {
    let b = unit_right(4).BoundingBox();
    assert_eq!(b, BBox { Min: v(0, 0, 0), Max: v(4, 4, 0) });
}

#[test]
fn normal_averaging_with_equal_normals() {
    let mut t = unit_right(4);
    t.N1 = Some(v(0, 0, 1));
    t.N2 = Some(v(0, 0, 1));
    t.N3 = Some(v(0, 0, 1));
    for p in [v(1, 1, 0), v(2, 1, 0), v(0, 3, 0)] {
        let n = t.InterpolatedNormal(p);
        assert!(n.Den > 0);
        assert_eq!((n.X, n.Y, n.Z, n.Face), (0, 0, n.Den, 0));
    }
}

#[test]
fn interpolated_normal_blends_vertex_normals() {
    let mut t = unit_right(4);
    t.N1 = Some(v(0, 0, 2));
    t.N2 = Some(v(2, 0, 0));
    t.N3 = Some(v(0, 2, 0));
    let n = t.InterpolatedNormal(v(2, 1, 0));
    assert_eq!(n, NormalBlend { X: 256, Y: 128, Z: 128, Face: 0, Den: 256 });
}

#[test]
fn interpolated_normal_mixes_given_and_face_normals() {
    let mut t = unit_right(4);
    t.N1 = Some(v(1, 0, 0));
    let n = t.InterpolatedNormal(v(2, 1, 0));
    assert_eq!(n, NormalBlend { X: 64, Y: 0, Z: 0, Face: 192, Den: 256 });
}

#[test]
fn flat_triangle_uses_face_normal_only() {
    let t = unit_right(4);
    let n = t.InterpolatedNormal(v(1, 1, 0));
    assert_eq!((n.X, n.Y, n.Z), (0, 0, 0));
    assert_eq!(n.Face, n.Den);
}

#[test]
fn fix_normals_is_idempotent() {
    let mut t = Triangle::Default();
    t.V2 = v(2, 0, 0);
    t.V3 = v(0, 3, 0);
    t.N2 = Some(v(1, 1, 1));
    t.FixNormals();
    let once = t;
    t.FixNormals();
    assert_eq!(t, once);
    assert_eq!(t.N1, None);
    assert_eq!(t.N2, Some(v(1, 1, 1)));
    assert_eq!(t.N3, None);
}

#[test]
fn new_triangle_sets_face_normals() {
    let t = unit_right(4);
    assert_eq!(t.N1, None);
    assert_eq!(t.N2, None);
    assert_eq!(t.N3, None);
    assert_eq!(t.FaceNormal(), v(0, 0, 16));
    assert_eq!(t.Material, Some(7));
    assert_eq!(t.T2, v(1, 0, 0));
}

#[test]
fn area_of_unit_right_triangle() {
    let n = unit_right(1).FaceNormal();
    assert_eq!(n, v(0, 0, 1));
    let len = ((n.X * n.X + n.Y * n.Y + n.Z * n.Z) as f64).sqrt();
    assert_eq!(len / 2.0, 0.5);
}

#[test]
fn normal_follows_orientation() {
    let t = NewTriangle(v(0, 0, 0), v(0, 1, 0), v(1, 0, 0), v(0, 0, 0), v(0, 0, 0), v(0, 0, 0), 0);
    assert_eq!(t.FaceNormal(), v(0, 0, -1));
}

#[test]
fn uv_interpolates_texture_coordinates() {
    let t = NewTriangle(v(0, 0, 0), v(4, 0, 0), v(0, 4, 0), v(0, 0, 5), v(8, 0, 5), v(0, 8, 5), 1);
    let uv = t.UV(v(1, 2, 0));
    assert_eq!(uv.Z, 0);
    assert_eq!(uv.X, 2 * uv.Den);
    assert_eq!(uv.Y, 4 * uv.Den);
}

#[test]
fn tangent_basis_follows_texture_axes() {
    let t = NewTriangle(v(0, 0, 0), v(2, 0, 0), v(0, 2, 0), v(0, 0, 0), v(1, 0, 0), v(0, 1, 0), 0);
    let (tan, bit) = t.TangentBasis();
    assert_eq!(tan, v(2, 0, 0));
    assert_eq!(bit, v(0, 2, 0));
}

#[test]
fn material_and_type() {
    let t = unit_right(1);
    assert_eq!(t.MaterialAt(v(5, 5, 5)), 7);
    assert_eq!(t.GetType(), "Triangle");
}

#[test]
fn default_is_all_zero() {
    let t = Triangle::Default();
    assert_eq!(t.Material, None);
    assert_eq!(t.Vertices(), (v(0, 0, 0), v(0, 0, 0), v(0, 0, 0)));
    assert_eq!(t.N1, Some(Vector::Default()));
    assert_eq!(t.N3, Some(Vector::Default()));
    assert_eq!(t.T3, Vector::Default());
}

#[test]
fn vector_min_max() {
    let a = v(1, -5, 3);
    let b = v(-2, 4, 3);
    assert_eq!(a.Min(b), v(-2, -5, 3));
    assert_eq!(a.Max(b), v(1, 4, 3));
}

#[test]
fn intersect_has_no_far_clipping() {
    let t = unit_right(4);
    let h = t.Intersect(&ray(v(1, 1, 4_000_000), v(0, 0, -4)));
    match h {
        Hit::Hit { Shape, Num, Den } => {
            assert_eq!(Shape, t);
            assert_eq!(Num, Den * 1_000_000);
        }
        Hit::NoHit => panic!("expected a hit"),
    }
}

#[test]
fn intersect_large_coordinates() {
    let l = 1_073_741_824;
    let t = NewTriangle(v(0, 0, 0), v(4, 0, 0), v(0, 4, 0), v(0, 0, 0), v(0, 0, 0), v(0, 0, 0), 0);
    let h = t.Intersect(&ray(v(1, 1, l), v(0, 0, -l)));
    assert!(matches!(h, Hit::Hit { Num, Den, .. } if Num == Den));
}

#[test]
fn compile_changes_nothing() {
    let t = unit_right(4);
    t.Compile();
    assert_eq!(t, unit_right(4));
}
