//! The orthographic camera: its view-projection matrix is rebuilt from the
//! camera state each frame and pushed to a uniform consumed by every draw
//! call.
//!
//! The camera looks down the negative `z` axis from `position` toward
//! `(position.x, position.y, 0)`. The projection is a symmetric
//! orthographic box of half-height `scale` and half-width
//! `scale * aspect`, composed with the depth remap that takes `z` from
//! `[-1, 1]` to `[0, 1]`. Every entry is computed in fixed point; each
//! division is a single truncating division of nonnegative magnitudes.

use vstd::prelude::*;

use crate::math::{Mat4, Vec3, Vec4, COORD_LIMIT, FP_ONE, FP_ONE_SQ};

verus! {

/// `FP_ONE` to the fourth power: the scale of a product of two
/// `FP_ONE_SQ`-scaled values.
pub const FP_ONE_P4: u128 = 65536 * 65536 * 65536 * 65536;

/// The smallest allowed `scale` and `aspect`: one sixteenth of a unit.
pub const MIN_ZOOM: i64 = 4096;

/// The largest eye coordinate the projection arithmetic supports.
pub const CAM_POS_LIMIT: i64 = 0x40_0000_0000;

/// An orthographic camera. All fields are at `FP_ONE` scale.
#[derive(Clone, Copy, Debug, PartialEq, Eq, Structural)]
pub struct Camera {
    pub aspect: i64,
    pub position: Vec3,
    pub scale: i64,
    pub znear: i64,
    pub zfar: i64,
}

/// The camera parameters the projection arithmetic is defined for: a
/// view box that is not degenerately thin, a far plane at least twice the
/// near plane away, and the eye within the depth range.
pub open spec fn camera_in_bounds(c: Camera) -> bool {
    &&& MIN_ZOOM <= c.aspect <= COORD_LIMIT
    &&& MIN_ZOOM <= c.scale <= COORD_LIMIT
    &&& 0 <= c.znear
    &&& 2 * c.znear + 1 <= c.zfar <= COORD_LIMIT
    &&& -CAM_POS_LIMIT <= c.position.x <= CAM_POS_LIMIT
    &&& -CAM_POS_LIMIT <= c.position.y <= CAM_POS_LIMIT
    &&& -c.zfar <= c.position.z <= c.zfar
}

/// `(a * b) / d` where `a > 0` and `d > 0`, truncating toward zero: the
/// sign of `b` is taken out before the (Euclidean) division.
pub open spec fn mul_div_trunc(a: int, b: int, d: int) -> int {
    if b >= 0 {
        (a * b) / d
    } else {
        -((a * (-b)) / d)
    }
}

/// The diagonal `x` entry: `1 / (scale * aspect)` at `FP_ONE_SQ` scale.
pub open spec fn spec_proj_x(c: Camera) -> int {
    (FP_ONE_P4 as int) / (c.scale * c.aspect)
}

/// The diagonal `y` entry: `1 / scale` at `FP_ONE_SQ` scale.
pub open spec fn spec_proj_y(c: Camera) -> int {
    (FP_ONE_SQ * FP_ONE) / (c.scale as int)
}

/// The diagonal `z` entry: `-1 / (zfar - znear)` at `FP_ONE_SQ` scale,
/// already remapped to the `[0, 1]` depth range.
pub open spec fn spec_proj_z(c: Camera) -> int {
    -((FP_ONE_SQ * FP_ONE) / (c.zfar - c.znear))
}

/// The translation column of the view-projection matrix.
pub open spec fn spec_proj_tx(c: Camera) -> int {
    mul_div_trunc(spec_proj_x(c), -(c.position.x as int), FP_ONE as int)
}

pub open spec fn spec_proj_ty(c: Camera) -> int {
    mul_div_trunc(spec_proj_y(c), -(c.position.y as int), FP_ONE as int)
}

pub open spec fn spec_proj_tz(c: Camera) -> int {
    mul_div_trunc(FP_ONE_SQ as int, c.position.z as int, c.zfar - c.znear) - (FP_ONE_SQ * (c.zfar
        + c.znear)) / (2 * (c.zfar - c.znear)) + FP_ONE_SQ / 2
}

/// The whole view-projection matrix of the camera.
pub open spec fn spec_view_projection(c: Camera) -> Mat4 {
    Mat4 {
        c0: Vec4 { x: spec_proj_x(c) as i64, y: 0, z: 0, w: 0 },
        c1: Vec4 { x: 0, y: spec_proj_y(c) as i64, z: 0, w: 0 },
        c2: Vec4 { x: 0, y: 0, z: spec_proj_z(c) as i64, w: 0 },
        c3: Vec4 {
            x: spec_proj_tx(c) as i64,
            y: spec_proj_ty(c) as i64,
            z: spec_proj_tz(c) as i64,
            w: FP_ONE_SQ,
        },
    }
}

/// Divide `FP_ONE_P4` by the positive product `a * b`.
fn div_p4_by_product(a: i64, b: i64) -> (r: i64)
    requires
        MIN_ZOOM <= a <= COORD_LIMIT,
        MIN_ZOOM <= b <= COORD_LIMIT,
    ensures
        r == (FP_ONE_P4 as int) / (a * b),
        0 <= r <= FP_ONE_SQ * 256,
{
    proof {
        assert((4096 as int) * 4096 <= (a as int) * (b as int) <= (0x4000_0000_0000 as int)
            * 0x4000_0000_0000) by (nonlinear_arith)
            requires
                4096 <= a <= 0x4000_0000_0000,
                4096 <= b <= 0x4000_0000_0000,
        ;
        assert((a as u128) * (b as u128) == (a as int) * (b as int)) by (nonlinear_arith)
            requires
                0 <= a,
                0 <= b,
        ;
    }
    let prod: u128 = (a as u128) * (b as u128);
    let q: u128 = FP_ONE_P4 / prod;
    proof {
        vstd::arithmetic::div_mod::lemma_div_is_ordered_by_denominator(
            FP_ONE_P4 as int,
            (4096 as int) * 4096,
            prod as int,
        );
        assert(FP_ONE_P4 as int == ((4096 as int) * 4096) * (FP_ONE_SQ * 256));
        vstd::arithmetic::div_mod::lemma_div_multiples_vanish(
            FP_ONE_SQ * 256,
            (4096 as int) * 4096,
        );
        vstd::arithmetic::div_mod::lemma_div_pos_is_pos(FP_ONE_P4 as int, prod as int);
    }
    q as i64
}

/// Multiply the nonnegative `a` by the signed `b`, then divide by the
/// positive `d`, truncating toward zero. `b_limit` bounds the magnitude of
/// `b` and `mag_bound` the magnitude of the result.
fn mul_div_signed(a: i64, b: i64, d: i64, Ghost(b_limit): Ghost<int>, Ghost(mag_bound): Ghost<
    int,
>) -> (r: i64)
    requires
        0 <= a,
        0 < d,
        0 <= mag_bound <= 0x4000_0000_0000_0000,
        0 <= b_limit,
        -b_limit <= b <= b_limit,
        -0x7fff_ffff_ffff_ffff <= b,
        a * b_limit <= mag_bound * d,
    ensures
        r == mul_div_trunc(a as int, b as int, d as int),
        -mag_bound <= r <= mag_bound,
{
    let mag: u128 = if b >= 0 {
        (b as u128)
    } else {
        ((-b) as u128)
    };
    proof {
        assert((a as u128) * mag == (a as int) * (if b >= 0 { b as int } else { -(b as int) }))
            by (nonlinear_arith)
            requires
                0 <= a,
                mag == (if b >= 0 { b as int } else { -(b as int) }),
        ;
        assert((a as int) * (mag as int) <= (0x7fff_ffff_ffff_ffff as int)
            * 0x8000_0000_0000_0000) by (nonlinear_arith)
            requires
                0 <= a <= 0x7fff_ffff_ffff_ffff,
                0 <= mag <= 0x8000_0000_0000_0000,
        ;
    }
    let num: u128 = (a as u128) * mag;
    let q: u128 = num / (d as u128);
    proof {
        let bm: int = if b >= 0 { b as int } else { -(b as int) };
        assert(a * bm <= a * b_limit) by (nonlinear_arith)
            requires
                0 <= a,
                0 <= bm <= b_limit,
        ;
        assert(mag_bound * (d as int) == (d as int) * mag_bound) by (nonlinear_arith);
        vstd::arithmetic::div_mod::lemma_div_is_ordered(a * bm, mag_bound * (d as int), d as int);
        vstd::arithmetic::div_mod::lemma_div_multiples_vanish(mag_bound, d as int);
        vstd::arithmetic::div_mod::lemma_div_pos_is_pos(a * bm, d as int);
    }
    if b >= 0 {
        q as i64
    } else {
        -(q as i64)
    }
}

impl Camera {
    /// The view-projection matrix of this camera, at `FP_ONE_SQ` scale.
    pub fn build_view_projection_matrix(&self) -> (m: Mat4)
        requires
            camera_in_bounds(*self),
        ensures
            m == spec_view_projection(*self),
    {
        let px: i64 = div_p4_by_product(self.scale, self.aspect);
        let depth: i64 = self.zfar - self.znear;
        let s3: i64 = FP_ONE_SQ * FP_ONE;
        proof {
            vstd::arithmetic::div_mod::lemma_div_pos_is_pos(s3 as int, self.scale as int);
            vstd::arithmetic::div_mod::lemma_div_nonincreasing(s3 as int, self.scale as int);
            vstd::arithmetic::div_mod::lemma_div_pos_is_pos(s3 as int, depth as int);
            vstd::arithmetic::div_mod::lemma_div_nonincreasing(s3 as int, depth as int);
        }
        let py: i64 = ((s3 as u128) / (self.scale as u128)) as i64;
        let pz_mag: i64 = ((s3 as u128) / (depth as u128)) as i64;
        proof {
            assert(px * CAM_POS_LIMIT <= (0x4000_0000_0000_0000 as int) * FP_ONE)
                by (nonlinear_arith)
                requires
                    0 <= px <= FP_ONE_SQ * 256,
                    CAM_POS_LIMIT == 0x40_0000_0000,
                    FP_ONE == 65536,
                    FP_ONE_SQ == 0x1_0000_0000,
            ;
        }
        let tx: i64 = mul_div_signed(
            px,
            -self.position.x,
            FP_ONE,
            Ghost(CAM_POS_LIMIT as int),
            Ghost(0x4000_0000_0000_0000 as int),
        );
        proof {
            vstd::arithmetic::div_mod::lemma_div_is_ordered_by_denominator(
                s3 as int,
                4096,
                self.scale as int,
            );
            assert(s3 as int / 4096 == 0x10_0000_0000);
            assert(py * CAM_POS_LIMIT <= (0x4000_0000_0000_0000 as int) * FP_ONE)
                by (nonlinear_arith)
                requires
                    0 <= py <= 0x10_0000_0000,
                    CAM_POS_LIMIT == 0x40_0000_0000,
                    FP_ONE == 65536,
            ;
        }
        let ty: i64 = mul_div_signed(
            py,
            -self.position.y,
            FP_ONE,
            Ghost(CAM_POS_LIMIT as int),
            Ghost(0x4000_0000_0000_0000 as int),
        );
        proof {
            lemma_tz_bounds(*self);
        }
        let tz1: i64 = mul_div_signed(
            FP_ONE_SQ,
            self.position.z,
            depth,
            Ghost(self.zfar as int),
            Ghost(2 * FP_ONE_SQ as int),
        );
        proof {
            assert((FP_ONE_SQ as u128) * ((self.zfar + self.znear) as u128) == FP_ONE_SQ * (
            self.zfar + self.znear)) by (nonlinear_arith)
                requires
                    0 <= self.zfar + self.znear,
            ;
        }
        let half_sum: u128 = (FP_ONE_SQ as u128) * ((self.zfar + self.znear) as u128);
        let tz2: i64 = {
            let q: u128 = half_sum / ((2 * depth) as u128);
            proof {
                assert(FP_ONE_SQ * (self.zfar + self.znear) <= (2 * FP_ONE_SQ as int) * (2 * (
                self.zfar - self.znear))) by (nonlinear_arith)
                    requires
                        0 <= self.znear,
                        2 * self.znear + 1 <= self.zfar,
                ;
                assert((2 * FP_ONE_SQ as int) * (2 * (self.zfar - self.znear) as int) == (2 * (
                self.zfar - self.znear) as int) * (2 * FP_ONE_SQ as int)) by (nonlinear_arith);
                vstd::arithmetic::div_mod::lemma_div_is_ordered(
                    FP_ONE_SQ * (self.zfar + self.znear),
                    (2 * FP_ONE_SQ as int) * (2 * (self.zfar - self.znear)),
                    2 * (self.zfar - self.znear),
                );
                vstd::arithmetic::div_mod::lemma_div_multiples_vanish(
                    2 * FP_ONE_SQ as int,
                    2 * (self.zfar - self.znear),
                );
                vstd::arithmetic::div_mod::lemma_div_pos_is_pos(
                    FP_ONE_SQ * (self.zfar + self.znear),
                    2 * (self.zfar - self.znear),
                );
            }
            q as i64
        };
        let half_one: i64 = 2147483648;
        proof {
            assert(half_one == FP_ONE_SQ / 2);
        }
        let tz: i64 = tz1 - tz2 + half_one;
        Mat4 {
            c0: Vec4 { x: px, y: 0, z: 0, w: 0 },
            c1: Vec4 { x: 0, y: py, z: 0, w: 0 },
            c2: Vec4 { x: 0, y: 0, z: -pz_mag, w: 0 },
            c3: Vec4 { x: tx, y: ty, z: tz, w: FP_ONE_SQ },
        }
    }

    /// Recompute the aspect ratio from the output size in pixels.
    pub fn resize(&mut self, width: u32, height: u32)
        requires
            width > 0,
            height > 0,
        ensures
            final(self).aspect == (width * FP_ONE) / (height as int),
            final(self).position == old(self).position,
            final(self).scale == old(self).scale,
            final(self).znear == old(self).znear,
            final(self).zfar == old(self).zfar,
    {
        let w: u64 = (width as u64) * 65536;
        proof {
            assert(w == width * FP_ONE);
            vstd::arithmetic::div_mod::lemma_div_pos_is_pos(w as int, height as int);
            vstd::arithmetic::div_mod::lemma_div_nonincreasing(w as int, height as int);
            assert(0 <= (w as int) / (height as int) <= w);
        }
        self.aspect = (w / (height as u64)) as i64;
    }
}

/// With the eye inside the depth range and the far plane at least twice
/// the near plane, the depth translation magnitude stays below two.
proof fn lemma_tz_bounds(c: Camera)
    requires
        camera_in_bounds(c),
    ensures
        FP_ONE_SQ * c.zfar <= (2 * FP_ONE_SQ as int) * (c.zfar - c.znear),
{
    assert(FP_ONE_SQ * c.zfar <= (2 * FP_ONE_SQ) * (c.zfar - c.znear)) by (nonlinear_arith)
        requires
            0 <= c.znear,
            2 * c.znear + 1 <= c.zfar,
    ;
}

/// The uniform holding the camera matrix as it stands on the GPU;
/// overwritten whole every frame.
#[derive(Clone, Copy, Debug, PartialEq, Eq, Structural)]
pub struct CameraUniform {
    pub view_proj: Mat4,
}

impl CameraUniform {
    /// A fresh uniform holding the identity matrix.
    pub fn new() -> (u: CameraUniform)
        ensures
            u.view_proj == crate::math::mat4_identity(),
    {
        CameraUniform { view_proj: Mat4::identity() }
    }

    /// Overwrite the uniform with the camera's current view-projection.
    pub fn update_view_proj(&mut self, camera: &Camera)
        requires
            camera_in_bounds(*camera),
        ensures
            final(self).view_proj == spec_view_projection(*camera),
    {
        self.view_proj = camera.build_view_projection_matrix();
    }
}

/// Keeps the camera centered on a followed target.
pub struct CameraController {}

impl CameraController {
    /// Move the camera over the target, leaving its height unchanged.
    pub fn update_camera(&self, camera: &mut Camera, target: Vec3)
        ensures
            final(camera).position.x == target.x,
            final(camera).position.y == target.y,
            final(camera).position.z == old(camera).position.z,
            final(camera).aspect == old(camera).aspect,
            final(camera).scale == old(camera).scale,
            final(camera).znear == old(camera).znear,
            final(camera).zfar == old(camera).zfar,
    {
        camera.position.x = target.x;
        camera.position.y = target.y;
    }
}

} // verus!
