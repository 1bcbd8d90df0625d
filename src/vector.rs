use vstd::prelude::*;

verus! {

/// Largest magnitude of a position, texture coordinate or query point.
/// Coordinates are exact integers in the scene's unit; the bound keeps every
/// product that the triangle computes inside `i128`.
pub const COORD_LIMIT: i64 = 65536;

/// Largest magnitude of a coordinate in a ray test, which computes fewer
/// products than interpolation and so admits a wider range.
pub const RAY_LIMIT: i64 = 1073741824;

/// Largest magnitude of a given vertex normal coordinate.
pub const NORMAL_LIMIT: i64 = 68719476736;

/// A vector with three exact integer coordinates.
#[derive(Clone, Copy, Debug, PartialEq, Eq, Structural)]
pub struct Vector {
    pub X: i64,
    pub Y: i64,
    pub Z: i64,
}

/// A triple of mathematical integers.
pub type V3 = (int, int, int);

impl View for Vector {
    type V = V3;

    open spec fn view(&self) -> V3 {
        (self.X as int, self.Y as int, self.Z as int)
    }
}

pub open spec fn vadd(a: V3, b: V3) -> V3 {
    (a.0 + b.0, a.1 + b.1, a.2 + b.2)
}

pub open spec fn vsub(a: V3, b: V3) -> V3 {
    (a.0 - b.0, a.1 - b.1, a.2 - b.2)
}

pub open spec fn vscale(k: int, a: V3) -> V3 {
    (k * a.0, k * a.1, k * a.2)
}

pub open spec fn vdot(a: V3, b: V3) -> int {
    a.0 * b.0 + a.1 * b.1 + a.2 * b.2
}

pub open spec fn vcross(a: V3, b: V3) -> V3 {
    (a.1 * b.2 - a.2 * b.1, a.2 * b.0 - a.0 * b.2, a.0 * b.1 - a.1 * b.0)
}

pub open spec fn vmin(a: V3, b: V3) -> V3 {
    (
        if a.0 <= b.0 { a.0 } else { b.0 },
        if a.1 <= b.1 { a.1 } else { b.1 },
        if a.2 <= b.2 { a.2 } else { b.2 },
    )
}

pub open spec fn vmax(a: V3, b: V3) -> V3 {
    (
        if a.0 >= b.0 { a.0 } else { b.0 },
        if a.1 >= b.1 { a.1 } else { b.1 },
        if a.2 >= b.2 { a.2 } else { b.2 },
    )
}

pub open spec fn within(a: V3, limit: int) -> bool {
    -limit <= a.0 <= limit && -limit <= a.1 <= limit && -limit <= a.2 <= limit
}

impl Vector {
    /// Every coordinate lies within `COORD_LIMIT`.
    pub open spec fn in_range(&self) -> bool {
        within(self@, COORD_LIMIT as int)
    }

    /// The zero vector.
    pub fn Default() -> (r: Vector)
        ensures
            r@ == (0int, 0int, 0int),
    {
        Vector { X: 0, Y: 0, Z: 0 }
    }

    pub fn New(x: i64, y: i64, z: i64) -> (r: Vector)
        ensures
            r@ == (x as int, y as int, z as int),
    {
        Vector { X: x, Y: y, Z: z }
    }

    /// Component-wise minimum.
    pub fn Min(&self, b: Vector) -> (r: Vector)
        ensures
            r@ == vmin(self@, b@),
    {
        Vector {
            X: if self.X <= b.X { self.X } else { b.X },
            Y: if self.Y <= b.Y { self.Y } else { b.Y },
            Z: if self.Z <= b.Z { self.Z } else { b.Z },
        }
    }

    /// Component-wise maximum.
    pub fn Max(&self, b: Vector) -> (r: Vector)
        ensures
            r@ == vmax(self@, b@),
    {
        Vector {
            X: if self.X >= b.X { self.X } else { b.X },
            Y: if self.Y >= b.Y { self.Y } else { b.Y },
            Z: if self.Z >= b.Z { self.Z } else { b.Z },
        }
    }
}

} // verus!
