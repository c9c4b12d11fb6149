//! Exact fixed-point vectors, quaternions and matrices.
//!
//! World coordinates are carried as two's-complement integers scaled by
//! [`FP_ONE`]; matrix entries are scaled by [`FP_ONE_SQ`] (the scale of a
//! product of two unit-scale values), so that building a transform needs no
//! rounding at all. The unverified GPU shell divides by these scales when it
//! converts to floating point.

use vstd::prelude::*;

verus! {

/// Number of raw units in one world unit.
pub const FP_ONE: i64 = 65536;

/// Scale of a matrix entry: the product of two `FP_ONE`-scaled values.
pub const FP_ONE_SQ: i64 = 65536 * 65536;

/// Largest magnitude allowed for a world coordinate, chosen so that
/// `coord * FP_ONE` and sums of a few such products stay inside `i64`.
pub const COORD_LIMIT: i64 = 0x4000_0000_0000;

/// A 2D vector of `FP_ONE`-scaled coordinates.
#[derive(Clone, Copy, Debug, PartialEq, Eq, Structural)]
pub struct Vec2 {
    pub x: i64,
    pub y: i64,
}

/// A 3D vector of `FP_ONE`-scaled coordinates.
#[derive(Clone, Copy, Debug, PartialEq, Eq, Structural)]
pub struct Vec3 {
    pub x: i64,
    pub y: i64,
    pub z: i64,
}

/// A 4D vector; the scale of its entries depends on where it is used.
#[derive(Clone, Copy, Debug, PartialEq, Eq, Structural)]
pub struct Vec4 {
    pub x: i64,
    pub y: i64,
    pub z: i64,
    pub w: i64,
}

/// A rotation quaternion with `FP_ONE`-scaled components.
#[derive(Clone, Copy, Debug, PartialEq, Eq, Structural)]
pub struct Quat {
    pub x: i64,
    pub y: i64,
    pub z: i64,
    pub w: i64,
}

/// A column-major 4x4 matrix with `FP_ONE_SQ`-scaled entries.
#[derive(Clone, Copy, Debug, PartialEq, Eq, Structural)]
pub struct Mat4 {
    pub c0: Vec4,
    pub c1: Vec4,
    pub c2: Vec4,
    pub c3: Vec4,
}

pub open spec fn vec2_in_bounds(v: Vec2) -> bool {
    &&& -COORD_LIMIT <= v.x <= COORD_LIMIT
    &&& -COORD_LIMIT <= v.y <= COORD_LIMIT
}

/// A well-formed rotation has every component in `[-1, 1]`, i.e. within
/// `FP_ONE` raw units; every component of a unit quaternion satisfies this.
pub open spec fn quat_in_bounds(q: Quat) -> bool {
    &&& -FP_ONE <= q.x <= FP_ONE
    &&& -FP_ONE <= q.y <= FP_ONE
    &&& -FP_ONE <= q.z <= FP_ONE
    &&& -FP_ONE <= q.w <= FP_ONE
}

impl Quat {
    /// The identity rotation.
    pub fn identity() -> (q: Quat)
        ensures
            q == (Quat { x: 0, y: 0, z: 0, w: FP_ONE }),
            quat_in_bounds(q),
    {
        Quat { x: 0, y: 0, z: 0, w: FP_ONE }
    }
}

/// The identity matrix at `FP_ONE_SQ` scale.
pub open spec fn mat4_identity() -> Mat4 {
    Mat4 {
        c0: Vec4 { x: FP_ONE_SQ, y: 0, z: 0, w: 0 },
        c1: Vec4 { x: 0, y: FP_ONE_SQ, z: 0, w: 0 },
        c2: Vec4 { x: 0, y: 0, z: FP_ONE_SQ, w: 0 },
        c3: Vec4 { x: 0, y: 0, z: 0, w: FP_ONE_SQ },
    }
}

impl Mat4 {
    /// The identity transform.
    pub fn identity() -> (m: Mat4)
        ensures
            m == mat4_identity(),
    {
        Mat4 {
            c0: Vec4 { x: FP_ONE_SQ, y: 0, z: 0, w: 0 },
            c1: Vec4 { x: 0, y: FP_ONE_SQ, z: 0, w: 0 },
            c2: Vec4 { x: 0, y: 0, z: FP_ONE_SQ, w: 0 },
            c3: Vec4 { x: 0, y: 0, z: 0, w: FP_ONE_SQ },
        }
    }
}

/// `m` is the rotation matrix of the quaternion `q`, at `FP_ONE_SQ` scale.
///
/// The entries follow the standard quaternion-to-matrix formula: with
/// components `x, y, z, w` at unit scale, column 0 is
/// `(1 - 2(y^2 + z^2), 2(xy + wz), 2(xz - wy), 0)` and so on; here every
/// unit-scale product of two components is an exact `FP_ONE_SQ`-scaled
/// integer.
pub open spec fn is_rotation_matrix(m: Mat4, q: Quat) -> bool {
    &&& m.c0.x == FP_ONE_SQ - 2 * (q.y * q.y + q.z * q.z)
    &&& m.c0.y == 2 * (q.x * q.y + q.w * q.z)
    &&& m.c0.z == 2 * (q.x * q.z - q.w * q.y)
    &&& m.c0.w == 0
    &&& m.c1.x == 2 * (q.x * q.y - q.w * q.z)
    &&& m.c1.y == FP_ONE_SQ - 2 * (q.x * q.x + q.z * q.z)
    &&& m.c1.z == 2 * (q.y * q.z + q.w * q.x)
    &&& m.c1.w == 0
    &&& m.c2.x == 2 * (q.x * q.z + q.w * q.y)
    &&& m.c2.y == 2 * (q.y * q.z - q.w * q.x)
    &&& m.c2.z == FP_ONE_SQ - 2 * (q.x * q.x + q.y * q.y)
    &&& m.c2.w == 0
    &&& m.c3.x == 0
    &&& m.c3.y == 0
    &&& m.c3.z == 0
    &&& m.c3.w == FP_ONE_SQ
}

/// `m` is the translation matrix moving the origin to `(t.x, t.y, 0)`.
pub open spec fn is_translation_matrix(m: Mat4, t: Vec2) -> bool {
    &&& m.c0 == (Vec4 { x: FP_ONE_SQ, y: 0, z: 0, w: 0 })
    &&& m.c1 == (Vec4 { x: 0, y: FP_ONE_SQ, z: 0, w: 0 })
    &&& m.c2 == (Vec4 { x: 0, y: 0, z: FP_ONE_SQ, w: 0 })
    &&& m.c3.x == t.x * FP_ONE
    &&& m.c3.y == t.y * FP_ONE
    &&& m.c3.z == 0
    &&& m.c3.w == FP_ONE_SQ
}

/// `m` places an entity in the world: it is exactly
/// `translation(t.x, t.y, 0) * rotation_matrix(q)`
/// (see [`lemma_entity_transform_is_product`]).
pub open spec fn is_entity_transform(m: Mat4, t: Vec2, q: Quat) -> bool {
    &&& m.c0.x == FP_ONE_SQ - 2 * (q.y * q.y + q.z * q.z)
    &&& m.c0.y == 2 * (q.x * q.y + q.w * q.z)
    &&& m.c0.z == 2 * (q.x * q.z - q.w * q.y)
    &&& m.c0.w == 0
    &&& m.c1.x == 2 * (q.x * q.y - q.w * q.z)
    &&& m.c1.y == FP_ONE_SQ - 2 * (q.x * q.x + q.z * q.z)
    &&& m.c1.z == 2 * (q.y * q.z + q.w * q.x)
    &&& m.c1.w == 0
    &&& m.c2.x == 2 * (q.x * q.z + q.w * q.y)
    &&& m.c2.y == 2 * (q.y * q.z - q.w * q.x)
    &&& m.c2.z == FP_ONE_SQ - 2 * (q.x * q.x + q.y * q.y)
    &&& m.c2.w == 0
    &&& m.c3.x == t.x * FP_ONE
    &&& m.c3.y == t.y * FP_ONE
    &&& m.c3.z == 0
    &&& m.c3.w == FP_ONE_SQ
}

/// Multiply two `FP_ONE`-bounded raw values. The product is a value at
/// `FP_ONE_SQ` scale and cannot overflow.
fn mul_unit(a: i64, b: i64) -> (r: i64)
    requires
        -FP_ONE <= a <= FP_ONE,
        -FP_ONE <= b <= FP_ONE,
    ensures
        r == a * b,
        -FP_ONE_SQ <= r <= FP_ONE_SQ,
{
    proof {
        assert(-(65536i64 * 65536) <= a * b <= 65536i64 * 65536) by (nonlinear_arith)
            requires
                -65536 <= a <= 65536,
                -65536 <= b <= 65536,
        ;
    }
    a * b
}

/// Build the world transform of an entity standing at `t` with rotation `q`:
/// exactly `translation(t.x, t.y, 0) * rotation_matrix(q)`, computed without
/// any rounding.
pub fn entity_transform(t: Vec2, q: Quat) -> (m: Mat4)
    requires
        vec2_in_bounds(t),
        quat_in_bounds(q),
    ensures
        is_entity_transform(m, t, q),
{
    let xx: i64 = mul_unit(q.x, q.x);
    let yy: i64 = mul_unit(q.y, q.y);
    let zz: i64 = mul_unit(q.z, q.z);
    let xy: i64 = mul_unit(q.x, q.y);
    let xz: i64 = mul_unit(q.x, q.z);
    let yz: i64 = mul_unit(q.y, q.z);
    let wx: i64 = mul_unit(q.w, q.x);
    let wy: i64 = mul_unit(q.w, q.y);
    let wz: i64 = mul_unit(q.w, q.z);
    proof {
        assert(-(0x4000_0000_0000i64 * 65536) <= t.x * FP_ONE <= 0x4000_0000_0000i64 * 65536)
            by (nonlinear_arith)
            requires
                -0x4000_0000_0000i64 <= t.x <= 0x4000_0000_0000i64,
        ;
        assert(-(0x4000_0000_0000i64 * 65536) <= t.y * FP_ONE <= 0x4000_0000_0000i64 * 65536)
            by (nonlinear_arith)
            requires
                -0x4000_0000_0000i64 <= t.y <= 0x4000_0000_0000i64,
        ;
    }
    let tx: i64 = t.x * FP_ONE;
    let ty: i64 = t.y * FP_ONE;
    Mat4 {
        c0: Vec4 { x: FP_ONE_SQ - 2 * (yy + zz), y: 2 * (xy + wz), z: 2 * (xz - wy), w: 0 },
        c1: Vec4 { x: 2 * (xy - wz), y: FP_ONE_SQ - 2 * (xx + zz), z: 2 * (yz + wx), w: 0 },
        c2: Vec4 { x: 2 * (xz + wy), y: 2 * (yz - wx), z: FP_ONE_SQ - 2 * (xx + yy), w: 0 },
        c3: Vec4 { x: tx, y: ty, z: 0, w: FP_ONE_SQ },
    }
}

/// Row `x` of the product `a * v` for a column vector `v`, descaled by
/// `FP_ONE_SQ` as every entry-by-entry fixed-point product must be.
pub open spec fn apply_row_x(a: Mat4, v: Vec4) -> int {
    (a.c0.x * v.x + a.c1.x * v.y + a.c2.x * v.z + a.c3.x * v.w) / (FP_ONE_SQ as int)
}

pub open spec fn apply_row_y(a: Mat4, v: Vec4) -> int {
    (a.c0.y * v.x + a.c1.y * v.y + a.c2.y * v.z + a.c3.y * v.w) / (FP_ONE_SQ as int)
}

pub open spec fn apply_row_z(a: Mat4, v: Vec4) -> int {
    (a.c0.z * v.x + a.c1.z * v.y + a.c2.z * v.z + a.c3.z * v.w) / (FP_ONE_SQ as int)
}

pub open spec fn apply_row_w(a: Mat4, v: Vec4) -> int {
    (a.c0.w * v.x + a.c1.w * v.y + a.c2.w * v.z + a.c3.w * v.w) / (FP_ONE_SQ as int)
}

/// Column `c` of `m` equals the matrix `a` applied to the column vector `v`.
pub open spec fn column_is_product(c: Vec4, a: Mat4, v: Vec4) -> bool {
    &&& c.x == apply_row_x(a, v)
    &&& c.y == apply_row_y(a, v)
    &&& c.z == apply_row_z(a, v)
    &&& c.w == apply_row_w(a, v)
}

/// An entity transform really is the matrix product of its translation and
/// its rotation: every column of `m` is `mt` applied to the matching column
/// of `mr`.
pub proof fn lemma_entity_transform_is_product(m: Mat4, mt: Mat4, mr: Mat4, t: Vec2, q: Quat)
    requires
        is_entity_transform(m, t, q),
        is_translation_matrix(mt, t),
        is_rotation_matrix(mr, q),
    ensures
        column_is_product(m.c0, mt, mr.c0),
        column_is_product(m.c1, mt, mr.c1),
        column_is_product(m.c2, mt, mr.c2),
        column_is_product(m.c3, mt, mr.c3),
{
    let s = FP_ONE_SQ as int;
    assert forall|v: Vec4| v.w == 0 implies #[trigger] apply_row_x(mt, v) == v.x
        && apply_row_y(mt, v) == v.y && apply_row_z(mt, v) == v.z && apply_row_w(mt, v) == 0 by {
        assert(s * v.x == v.x * s) by (nonlinear_arith);
        assert(s * v.y == v.y * s) by (nonlinear_arith);
        assert(s * v.z == v.z * s) by (nonlinear_arith);
        lemma_multiple_div(v.x as int, s);
        lemma_multiple_div(v.y as int, s);
        lemma_multiple_div(v.z as int, s);
        lemma_multiple_div(0, s);
    }
    assert(apply_row_x(mt, mr.c3) == t.x * FP_ONE && apply_row_y(mt, mr.c3) == t.y * FP_ONE
        && apply_row_z(mt, mr.c3) == 0 && apply_row_w(mt, mr.c3) == FP_ONE_SQ) by {
        assert((t.x * FP_ONE) * s == s * (t.x * FP_ONE)) by (nonlinear_arith);
        assert((t.y * FP_ONE) * s == s * (t.y * FP_ONE)) by (nonlinear_arith);
        lemma_multiple_div(t.x * FP_ONE, s);
        lemma_multiple_div(t.y * FP_ONE, s);
        lemma_multiple_div(0, s);
        lemma_multiple_div(FP_ONE_SQ as int, s);
    }
}

/// For positive `d`, `(d * a) / d == a` under Euclidean division.
proof fn lemma_multiple_div(a: int, d: int)
    requires
        0 < d,
    ensures
        (d * a) / d == a,
{
    vstd::arithmetic::div_mod::lemma_div_multiples_vanish(a, d);
}

} // verus!
