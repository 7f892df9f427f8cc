//! The mathematical model of the camera: spec functions over unbounded
//! integers that say exactly what every executable operation computes.
//! A camera state is a zoom offset along the view axis, a unit-range
//! quaternion, a pan (focus) translation, a zoom speed, and the reciprocals
//! of the screen dimensions; the view matrix and its closed-form inverse are
//! derived from those by `spec_view` and `spec_inv`.

use crate::fixed::{clamp_one, fdiv, fmul, lemma_fmul_abs_le, sqrt_floor, FX_LIMIT, FX_ONE};
use crate::types::{Mat4G, QuatG, Vec2G, Vec3G};
use vstd::arithmetic::div_mod::lemma_div_multiples_vanish;
use vstd::prelude::*;

verus! {

/// Abstract camera state. `zoom_z` is the dolly offset along the camera's
/// local z axis (negative: behind the focus); `pan` is the accumulated
/// focus translation (the negated focus point); `inv_w` and `inv_h` are the
/// fixed-point reciprocals of the screen width and height.
pub struct CamG {
    pub q: QuatG,
    pub zoom_z: int,
    pub pan: Vec3G,
    pub speed: int,
    pub inv_w: int,
    pub inv_h: int,
}

/// Integer absolute value.
pub open spec fn iabs(a: int) -> int {
    if a >= 0 {
        a
    } else {
        -a
    }
}

/// The identity rotation.
pub open spec fn quat_identity() -> QuatG {
    QuatG { x: 0, y: 0, z: 0, w: FX_ONE as int }
}

/// Squared quaternion norm, unscaled.
pub open spec fn qnorm2(q: QuatG) -> int {
    q.x * q.x + q.y * q.y + q.z * q.z + q.w * q.w
}

/// Every component within one fixed-point unit.
pub open spec fn quat_unit_range(q: QuatG) -> bool {
    &&& -(FX_ONE as int) <= q.x <= FX_ONE as int
    &&& -(FX_ONE as int) <= q.y <= FX_ONE as int
    &&& -(FX_ONE as int) <= q.z <= FX_ONE as int
    &&& -(FX_ONE as int) <= q.w <= FX_ONE as int
}

/// Ghost 3x3 matrix, row major.
pub struct Rot3G {
    pub r00: int,
    pub r01: int,
    pub r02: int,
    pub r10: int,
    pub r11: int,
    pub r12: int,
    pub r20: int,
    pub r21: int,
    pub r22: int,
}

/// The exact (unscaled, undivided) rotation matrix of a quaternion: for a
/// unit quaternion the true rotation matrix is this one divided by the
/// squared norm.
pub open spec fn rot_exact(q: QuatG) -> Rot3G {
    Rot3G {
        r00: q.w * q.w + q.x * q.x - q.y * q.y - q.z * q.z,
        r01: 2 * (q.x * q.y - q.w * q.z),
        r02: 2 * (q.x * q.z + q.w * q.y),
        r10: 2 * (q.x * q.y + q.w * q.z),
        r11: q.w * q.w - q.x * q.x + q.y * q.y - q.z * q.z,
        r12: 2 * (q.y * q.z - q.w * q.x),
        r20: 2 * (q.x * q.z - q.w * q.y),
        r21: 2 * (q.y * q.z + q.w * q.x),
        r22: q.w * q.w - q.x * q.x - q.y * q.y + q.z * q.z,
    }
}

/// The fixed-point rotation matrix actually stored: each quadratic term is a
/// rounded fixed-point product.
pub open spec fn rot_fx(q: QuatG) -> Rot3G {
    Rot3G {
        r00: fmul(q.w, q.w) + fmul(q.x, q.x) - fmul(q.y, q.y) - fmul(q.z, q.z),
        r01: 2 * (fmul(q.x, q.y) - fmul(q.w, q.z)),
        r02: 2 * (fmul(q.x, q.z) + fmul(q.w, q.y)),
        r10: 2 * (fmul(q.x, q.y) + fmul(q.w, q.z)),
        r11: fmul(q.w, q.w) - fmul(q.x, q.x) + fmul(q.y, q.y) - fmul(q.z, q.z),
        r12: 2 * (fmul(q.y, q.z) - fmul(q.w, q.x)),
        r20: 2 * (fmul(q.x, q.z) - fmul(q.w, q.y)),
        r21: 2 * (fmul(q.y, q.z) + fmul(q.w, q.x)),
        r22: fmul(q.w, q.w) - fmul(q.x, q.x) - fmul(q.y, q.y) + fmul(q.z, q.z),
    }
}

/// The view matrix: zoom translation, times the rotation, times the pan
/// translation.
pub open spec fn spec_view(c: CamG) -> Mat4G {
    let r = rot_fx(c.q);
    Mat4G {
        m00: r.r00,
        m01: r.r01,
        m02: r.r02,
        m03: fmul(r.r00, c.pan.x) + fmul(r.r01, c.pan.y) + fmul(r.r02, c.pan.z),
        m10: r.r10,
        m11: r.r11,
        m12: r.r12,
        m13: fmul(r.r10, c.pan.x) + fmul(r.r11, c.pan.y) + fmul(r.r12, c.pan.z),
        m20: r.r20,
        m21: r.r21,
        m22: r.r22,
        m23: fmul(r.r20, c.pan.x) + fmul(r.r21, c.pan.y) + fmul(r.r22, c.pan.z) + c.zoom_z,
        m30: 0,
        m31: 0,
        m32: 0,
        m33: FX_ONE as int,
    }
}

/// The closed-form inverse view matrix: undo the pan, apply the transposed
/// rotation, undo the zoom.
pub open spec fn spec_inv(c: CamG) -> Mat4G {
    let r = rot_fx(c.q);
    Mat4G {
        m00: r.r00,
        m01: r.r10,
        m02: r.r20,
        m03: -c.pan.x - fmul(r.r20, c.zoom_z),
        m10: r.r01,
        m11: r.r11,
        m12: r.r21,
        m13: -c.pan.y - fmul(r.r21, c.zoom_z),
        m20: r.r02,
        m21: r.r12,
        m22: r.r22,
        m23: -c.pan.z - fmul(r.r22, c.zoom_z),
        m30: 0,
        m31: 0,
        m32: 0,
        m33: FX_ONE as int,
    }
}

/// Quaternion product, each component clamped into the unit range so that a
/// composed orientation stays a unit-range quaternion.
pub open spec fn rotor_mul_g(a: QuatG, b: QuatG) -> QuatG {
    QuatG {
        x: clamp_one(fmul(a.w, b.x) + fmul(a.x, b.w) + fmul(a.y, b.z) - fmul(a.z, b.y)),
        y: clamp_one(fmul(a.w, b.y) - fmul(a.x, b.z) + fmul(a.y, b.w) + fmul(a.z, b.x)),
        z: clamp_one(fmul(a.w, b.z) + fmul(a.x, b.y) - fmul(a.y, b.x) + fmul(a.z, b.w)),
        w: clamp_one(fmul(a.w, b.w) - fmul(a.x, b.x) - fmul(a.y, b.y) - fmul(a.z, b.z)),
    }
}

/// Horizontal pixel coordinate to normalized device coordinate in
/// `[-FX_ONE, FX_ONE]`.
pub open spec fn ndc_x(px: int, inv_w: int) -> int {
    clamp_one(fmul(2 * px, inv_w) - FX_ONE as int)
}

/// Vertical pixel coordinate to normalized device coordinate; the screen y
/// axis points down, so the sign flips.
pub open spec fn ndc_y(py: int, inv_h: int) -> int {
    clamp_one(FX_ONE as int - fmul(2 * py, inv_h))
}

/// Squared distance of a normalized point from the screen center.
pub open spec fn arcball_dist(x: int, y: int) -> int {
    fmul(x, x) + fmul(y, y)
}

/// Arcball mapping, inside branch: lift the point onto the unit sphere.
pub open spec fn arcball_inside(x: int, y: int) -> QuatG {
    QuatG {
        x,
        y,
        z: sqrt_floor((FX_ONE as int - arcball_dist(x, y)) * (FX_ONE as int)),
        w: 0,
    }
}

/// Arcball mapping, outside branch: project the point onto the sphere's
/// equator.
pub open spec fn arcball_outside(x: int, y: int) -> QuatG {
    let m = sqrt_floor(arcball_dist(x, y) * (FX_ONE as int));
    QuatG { x: fdiv(x, m), y: fdiv(y, m), z: 0, w: 0 }
}

/// Shoemake's screen-to-sphere mapping: a point in the unit disk lifts onto
/// the front hemisphere, one outside it lands on the equator. The resulting
/// pure-vector quaternion is the incremental rotation generator.
pub open spec fn spec_arcball(x: int, y: int) -> QuatG {
    if arcball_dist(x, y) <= FX_ONE as int {
        arcball_inside(x, y)
    } else {
        arcball_outside(x, y)
    }
}

/// A fresh camera: dolly one unit back, identity rotation, focus moved to
/// the origin.
pub open spec fn spec_create(center: Vec3G, speed: int, w: int, h: int) -> CamG {
    CamG {
        q: quat_identity(),
        zoom_z: -(FX_ONE as int),
        pan: Vec3G { x: -center.x, y: -center.y, z: -center.z },
        speed,
        inv_w: fdiv(FX_ONE as int, w),
        inv_h: fdiv(FX_ONE as int, h),
    }
}

/// A drag from `prev` to `cur`: both points map onto the arcball, and their
/// product composes onto the existing orientation from the left (rotations
/// accumulate in world space).
pub open spec fn spec_rotate(c: CamG, prev: Vec2G, cur: Vec2G) -> CamG {
    let pb = spec_arcball(ndc_x(prev.x, c.inv_w), ndc_y(prev.y, c.inv_h));
    let cb = spec_arcball(ndc_x(cur.x, c.inv_w), ndc_y(cur.y, c.inv_h));
    CamG { q: rotor_mul_g(rotor_mul_g(cb, pb), c.q), ..c }
}

/// How far one zoom call moves the camera along its local z axis.
pub open spec fn spec_zoom_delta(c: CamG, amount: int, elapsed: int) -> int {
    fmul(fmul(amount, c.speed), elapsed)
}

/// Dolly along the view axis; positive amounts move the camera toward the
/// focus.
pub open spec fn spec_zoom(c: CamG, amount: int, elapsed: int) -> CamG {
    CamG { zoom_z: c.zoom_z + spec_zoom_delta(c, amount, elapsed), ..c }
}

/// First stage of a pan: the screen delta scaled by the reciprocal screen
/// dimensions (the y axis flips).
pub open spec fn spec_pan_d1(c: CamG, d: Vec2G) -> Vec2G {
    Vec2G { x: fmul(d.x, c.inv_w), y: fmul(-d.y, c.inv_h) }
}

/// Second stage: scaled by the current zoom distance, so panning far from
/// the focus moves it further in world units.
pub open spec fn spec_pan_d2(c: CamG, d: Vec2G) -> Vec2G {
    let d1 = spec_pan_d1(c, d);
    Vec2G { x: fmul(d1.x, iabs(c.zoom_z)), y: fmul(d1.y, iabs(c.zoom_z)) }
}

/// The world-space motion of a pan: the camera-space delta carried through
/// the inverse view matrix.
pub open spec fn spec_pan_motion(c: CamG, d: Vec2G) -> Vec3G {
    let d2 = spec_pan_d2(c, d);
    let m = spec_inv(c);
    Vec3G {
        x: fmul(m.m00, d2.x) + fmul(m.m01, d2.y),
        y: fmul(m.m10, d2.x) + fmul(m.m11, d2.y),
        z: fmul(m.m20, d2.x) + fmul(m.m21, d2.y),
    }
}

/// Pan: accumulate the world-space motion into the focus translation.
pub open spec fn spec_pan(c: CamG, d: Vec2G) -> CamG {
    let m = spec_pan_motion(c, d);
    CamG { pan: Vec3G { x: c.pan.x + m.x, y: c.pan.y + m.y, z: c.pan.z + m.z }, ..c }
}

/// Resize: only the reciprocal screen dimensions change; no transform and
/// neither derived matrix moves.
pub open spec fn spec_update_screen(c: CamG, w: int, h: int) -> CamG {
    CamG { inv_w: fdiv(FX_ONE as int, w), inv_h: fdiv(FX_ONE as int, h), ..c }
}

/// The world-space camera position: the translation column of the inverse
/// view matrix.
pub open spec fn spec_eye_pos(c: CamG) -> Vec3G {
    let m = spec_inv(c);
    Vec3G { x: m.m03, y: m.m13, z: m.m23 }
}

/// Normalize to unit length (zero stays zero).
pub open spec fn spec_normalize(v: Vec3G) -> Vec3G {
    let n = sqrt_floor((fmul(v.x, v.x) + fmul(v.y, v.y) + fmul(v.z, v.z)) * (FX_ONE as int));
    if n <= 0 {
        Vec3G { x: 0, y: 0, z: 0 }
    } else {
        Vec3G { x: fdiv(v.x, n), y: fdiv(v.y, n), z: fdiv(v.z, n) }
    }
}

/// The view direction: the inverse view matrix applied to the local forward
/// vector (0, 0, -1), renormalized.
pub open spec fn spec_eye_dir(c: CamG) -> Vec3G {
    let m = spec_inv(c);
    spec_normalize(Vec3G { x: -m.m02, y: -m.m12, z: -m.m22 })
}

/// The up direction: the inverse view matrix applied to the local up vector
/// (0, 1, 0), renormalized.
pub open spec fn spec_up_dir(c: CamG) -> Vec3G {
    let m = spec_inv(c);
    spec_normalize(Vec3G { x: m.m01, y: m.m11, z: m.m21 })
}

/// All state components within the ranges the executable camera maintains.
pub open spec fn cam_in_range(c: CamG) -> bool {
    &&& quat_unit_range(c.q)
    &&& -FX_LIMIT <= c.zoom_z <= FX_LIMIT as int
    &&& -FX_LIMIT <= c.pan.x <= FX_LIMIT as int
    &&& -FX_LIMIT <= c.pan.y <= FX_LIMIT as int
    &&& -FX_LIMIT <= c.pan.z <= FX_LIMIT as int
    &&& -FX_LIMIT <= c.speed <= FX_LIMIT as int
    &&& 0 <= c.inv_w <= 4294967296
    &&& 0 <= c.inv_h <= 4294967296
}

/// Each fixed-point product of unit-range components is itself unit range.
pub proof fn lemma_fmul_unit_range(a: int, b: int)
    requires
        -(FX_ONE as int) <= a <= FX_ONE as int,
        -(FX_ONE as int) <= b <= FX_ONE as int,
    ensures
        -(FX_ONE as int) <= fmul(a, b) <= FX_ONE as int,
{
    lemma_fmul_abs_le(a, b, FX_ONE as int, FX_ONE as int);
    lemma_div_multiples_vanish(FX_ONE as int, FX_ONE as int);
}

/// The fixed-point rotation matrix of a unit-range quaternion has entries of
/// at most four units.
pub proof fn lemma_rot_fx_bounds(q: QuatG)
    requires
        quat_unit_range(q),
    ensures
        -262144 <= rot_fx(q).r00 <= 262144,
        -262144 <= rot_fx(q).r01 <= 262144,
        -262144 <= rot_fx(q).r02 <= 262144,
        -262144 <= rot_fx(q).r10 <= 262144,
        -262144 <= rot_fx(q).r11 <= 262144,
        -262144 <= rot_fx(q).r12 <= 262144,
        -262144 <= rot_fx(q).r20 <= 262144,
        -262144 <= rot_fx(q).r21 <= 262144,
        -262144 <= rot_fx(q).r22 <= 262144,
{
    lemma_fmul_unit_range(q.w, q.w);
    lemma_fmul_unit_range(q.x, q.x);
    lemma_fmul_unit_range(q.y, q.y);
    lemma_fmul_unit_range(q.z, q.z);
    lemma_fmul_unit_range(q.x, q.y);
    lemma_fmul_unit_range(q.x, q.z);
    lemma_fmul_unit_range(q.y, q.z);
    lemma_fmul_unit_range(q.w, q.x);
    lemma_fmul_unit_range(q.w, q.y);
    lemma_fmul_unit_range(q.w, q.z);
}

} // verus!
