//! Grid positions. The editor snaps every placed point to the integer grid,
//! so all wall geometry lives on integer coordinates.

use vstd::prelude::*;

verus! {

/// The largest coordinate magnitude the world uses. Keeping positions inside
/// this box makes every sum and squared distance below fit comfortably in
/// `i64`.
pub const COORD_LIMIT: i64 = 1_000_000;

/// A position or direction on the integer grid.
#[derive(PartialEq, Eq, Structural, Clone, Copy, Debug)]
pub struct Vec3i {
    pub x: i64,
    pub y: i64,
    pub z: i64,
}

impl Vec3i {
    /// All three coordinates lie inside the world box.
    pub open spec fn in_bounds(self) -> bool {
        &&& -COORD_LIMIT <= self.x <= COORD_LIMIT
        &&& -COORD_LIMIT <= self.y <= COORD_LIMIT
        &&& -COORD_LIMIT <= self.z <= COORD_LIMIT
    }

    pub open spec fn add_spec(a: Vec3i, b: Vec3i) -> Vec3i {
        Vec3i { x: (a.x + b.x) as i64, y: (a.y + b.y) as i64, z: (a.z + b.z) as i64 }
    }

    pub open spec fn sub_spec(a: Vec3i, b: Vec3i) -> Vec3i {
        Vec3i { x: (a.x - b.x) as i64, y: (a.y - b.y) as i64, z: (a.z - b.z) as i64 }
    }

    /// The squared euclidean distance between two in-bounds positions.
    pub open spec fn dist_sq_spec(a: Vec3i, b: Vec3i) -> int {
        (a.x - b.x) * (a.x - b.x) + (a.y - b.y) * (a.y - b.y) + (a.z - b.z) * (a.z - b.z)
    }

    pub fn new(x: i64, y: i64, z: i64) -> (r: Vec3i)
        ensures
            r == (Vec3i { x, y, z }),
    {
        Vec3i { x, y, z }
    }

    pub fn zero() -> (r: Vec3i)
        ensures
            r == (Vec3i { x: 0, y: 0, z: 0 }),
            r.in_bounds(),
    {
        Vec3i { x: 0, y: 0, z: 0 }
    }

    /// The unit vector along the locked axis; walls are extruded by one unit
    /// of it on each side.
    pub fn unit_z() -> (r: Vec3i)
        ensures
            r == (Vec3i { x: 0, y: 0, z: 1 }),
            r.in_bounds(),
    {
        Vec3i { x: 0, y: 0, z: 1 }
    }

    pub fn add(self, other: Vec3i) -> (r: Vec3i)
        requires
            self.in_bounds(),
            other.in_bounds(),
        ensures
            r == Self::add_spec(self, other),
            r.x == self.x + other.x,
            r.y == self.y + other.y,
            r.z == self.z + other.z,
    {
        Vec3i { x: self.x + other.x, y: self.y + other.y, z: self.z + other.z }
    }

    pub fn sub(self, other: Vec3i) -> (r: Vec3i)
        requires
            self.in_bounds(),
            other.in_bounds(),
        ensures
            r == Self::sub_spec(self, other),
            r.x == self.x - other.x,
            r.y == self.y - other.y,
            r.z == self.z - other.z,
    {
        Vec3i { x: self.x - other.x, y: self.y - other.y, z: self.z - other.z }
    }

    /// The squared distance to another position. Working with squares keeps
    /// proximity tests exact; nothing here ever takes a square root.
    pub fn dist_sq(self, other: Vec3i) -> (r: i64)
        requires
            self.in_bounds(),
            other.in_bounds(),
        ensures
            r == Self::dist_sq_spec(self, other),
            r >= 0,
    {
        let dx = self.x - other.x;
        let dy = self.y - other.y;
        let dz = self.z - other.z;
        proof {
            lemma_square_bound(dx as int, 2 * COORD_LIMIT as int);
            lemma_square_bound(dy as int, 2 * COORD_LIMIT as int);
            lemma_square_bound(dz as int, 2 * COORD_LIMIT as int);
        }
        dx * dx + dy * dy + dz * dz
    }
}

/// For `|v| <= m`, the square `v * v` stays within `[0, m * m]`.
pub proof fn lemma_square_bound(v: int, m: int) by (nonlinear_arith)
    requires
        -m <= v <= m,
    ensures
        0 <= v * v <= m * m,
{
}

} // verus!
