//! The arcball camera itself: executable state and operations, each proved
//! to compute exactly what the spec model in `model` says.

use crate::fixed::{
    clamp128_one, fdiv, fmul, fx_div, fx_mul, fx_mul_unit, lemma_fmul_abs_le, lemma_tdiv_abs_le,
    sqrt_fx, tdiv, tdiv_i128, FX_LIMIT, FX_ONE,
};
use crate::model::{
    cam_in_range, iabs, lemma_rot_fx_bounds, ndc_x, ndc_y, quat_unit_range, rot_fx, rotor_mul_g,
    spec_arcball, spec_create, spec_eye_dir, spec_eye_pos, spec_inv, spec_normalize, spec_pan,
    spec_pan_d1, spec_pan_d2, spec_pan_motion, spec_rotate, spec_up_dir, spec_update_screen,
    spec_view, spec_zoom, spec_zoom_delta, CamG,
};
use crate::types::{Mat4, Quat, Vec2, Vec3};
use vstd::arithmetic::div_mod::{
    lemma_div_is_ordered_by_denominator, lemma_div_multiples_vanish, lemma_div_nonincreasing,
    lemma_div_pos_is_pos,
};
use vstd::prelude::*;

verus! {

/// Clamp into the unit interval `[-FX_ONE, FX_ONE]`.
fn clamp64_one(v: i64) -> (r: i64)
    ensures
        r as int == crate::fixed::clamp_one(v as int),
{
    if v < -65536 {
        -65536
    } else if v > 65536 {
        65536
    } else {
        v
    }
}

/// Product of a rotation-matrix entry (at most four units) and a bounded
/// offset; the result is at most four times the offset limit.
fn fx_mul_rot_off(r: i64, p: i64) -> (out: i64)
    requires
        -262144 <= r <= 262144,
        -FX_LIMIT <= p <= FX_LIMIT,
    ensures
        out as int == fmul(r as int, p as int),
        -1125899906842624 <= out <= 1125899906842624,
{
    proof {
        lemma_fmul_abs_le(r as int, p as int, 262144, FX_LIMIT as int);
        assert(262144 * (FX_LIMIT as int) == (FX_ONE as int) * 1125899906842624)
            by (nonlinear_arith);
        lemma_div_multiples_vanish(1125899906842624, FX_ONE as int);
    }
    fx_mul(r, p)
}

/// Horizontal pixel coordinate to a clamped normalized device coordinate.
fn to_ndc_x(px: i64, inv: i64) -> (r: i64)
    requires
        0 <= inv <= 4294967296,
    ensures
        r as int == ndc_x(px as int, inv as int),
        -FX_ONE <= r <= FX_ONE,
{
    proof {
        assert(-85070591730234615865843651857942052864 <= 2 * (px as int) * (inv as int)
            <= 85070591730234615865843651857942052864) by (nonlinear_arith)
            requires
                i64::MIN <= px <= i64::MAX,
                0 <= inv <= 4294967296,
        ;
    }
    let p: i128 = 2 * (px as i128) * (inv as i128);
    proof {
        lemma_tdiv_abs_le(p as int, 85070591730234615865843651857942052864, 65536);
    }
    let t = tdiv_i128(p, 65536);
    clamp128_one(t - 65536)
}

/// Vertical pixel coordinate to a clamped normalized device coordinate; the
/// screen y axis points down, so the mapping flips.
fn to_ndc_y(py: i64, inv: i64) -> (r: i64)
    requires
        0 <= inv <= 4294967296,
    ensures
        r as int == ndc_y(py as int, inv as int),
        -FX_ONE <= r <= FX_ONE,
{
    proof {
        assert(-85070591730234615865843651857942052864 <= 2 * (py as int) * (inv as int)
            <= 85070591730234615865843651857942052864) by (nonlinear_arith)
            requires
                i64::MIN <= py <= i64::MAX,
                0 <= inv <= 4294967296,
        ;
    }
    let p: i128 = 2 * (py as i128) * (inv as i128);
    proof {
        lemma_tdiv_abs_le(p as int, 85070591730234615865843651857942052864, 65536);
    }
    let t = tdiv_i128(p, 65536);
    clamp128_one(65536 - t)
}

/// Normalize a direction read from the rotation block (entries at most four
/// units) to unit length; the zero vector stays zero.
fn normalize_dir(v: Vec3) -> (r: Vec3)
    requires
        -262144 <= v.x <= 262144,
        -262144 <= v.y <= 262144,
        -262144 <= v.z <= 262144,
    ensures
        r@ == spec_normalize(v@),
{
    proof {
        assert((v.x as int) * (v.x as int) >= 0) by (nonlinear_arith);
        assert((v.y as int) * (v.y as int) >= 0) by (nonlinear_arith);
        assert((v.z as int) * (v.z as int) >= 0) by (nonlinear_arith);
        lemma_div_pos_is_pos((v.x as int) * (v.x as int), FX_ONE as int);
        lemma_div_pos_is_pos((v.y as int) * (v.y as int), FX_ONE as int);
        lemma_div_pos_is_pos((v.z as int) * (v.z as int), FX_ONE as int);
        lemma_fmul_abs_le(v.x as int, v.x as int, 262144, 262144);
        lemma_fmul_abs_le(v.y as int, v.y as int, 262144, 262144);
        lemma_fmul_abs_le(v.z as int, v.z as int, 262144, 262144);
        assert(262144 * 262144 == (FX_ONE as int) * 1048576) by (nonlinear_arith);
        lemma_div_multiples_vanish(1048576, FX_ONE as int);
    }
    let n2 = fx_mul(v.x, v.x) + fx_mul(v.y, v.y) + fx_mul(v.z, v.z);
    let n = sqrt_fx(n2);
    if n == 0 {
        Vec3 { x: 0, y: 0, z: 0 }
    } else {
        proof {
            lemma_tdiv_abs_le((v.x as int) * (FX_ONE as int), 17179869184int, n as int);
            lemma_tdiv_abs_le((v.y as int) * (FX_ONE as int), 17179869184int, n as int);
            lemma_tdiv_abs_le((v.z as int) * (FX_ONE as int), 17179869184int, n as int);
            lemma_div_nonincreasing(17179869184int, n as int);
        }
        Vec3 { x: fx_div(v.x, n), y: fx_div(v.y, n), z: fx_div(v.z, n) }
    }
}

/// The Shoemake arcball camera. All screen inputs are fixed-point pixel
/// coordinates (origin top left, y down); all world outputs are fixed-point
/// world units.
pub struct ArcballCamera {
    rot: Quat,
    zoom_z: i64,
    pan: Vec3,
    zoom_speed: i64,
    inv_w: i64,
    inv_h: i64,
    camera: Mat4,
    inv_camera: Mat4,
}

impl View for ArcballCamera {
    type V = CamG;

    closed spec fn view(&self) -> CamG {
        CamG {
            q: self.rot@,
            zoom_z: self.zoom_z as int,
            pan: self.pan@,
            speed: self.zoom_speed as int,
            inv_w: self.inv_w as int,
            inv_h: self.inv_h as int,
        }
    }
}

impl ArcballCamera {
    /// Well-formed camera: components in range, and both cached matrices
    /// agree with the transform fields (they are recomputed after every
    /// mutation, so no stale state is ever observable).
    pub closed spec fn wf(self) -> bool {
        &&& cam_in_range(self@)
        &&& self.camera@ == spec_view(self@)
        &&& self.inv_camera@ == spec_inv(self@)
    }

    /// Map a clamped screen point onto the arcball: inside the unit disk the
    /// point lifts onto the front hemisphere, outside it lands on the
    /// equator, continuously across the boundary.
    pub fn screen_to_arcball(p: Vec2) -> (r: Quat)
        requires
            -FX_ONE <= p.x <= FX_ONE,
            -FX_ONE <= p.y <= FX_ONE,
        ensures
            r@ == spec_arcball(p@.x, p@.y),
            quat_unit_range(r@),
    {
        proof {
            assert((p.x as int) * (p.x as int) >= 0) by (nonlinear_arith);
            assert((p.y as int) * (p.y as int) >= 0) by (nonlinear_arith);
            lemma_div_pos_is_pos((p.x as int) * (p.x as int), FX_ONE as int);
            lemma_div_pos_is_pos((p.y as int) * (p.y as int), FX_ONE as int);
        }
        let xx = fx_mul_unit(p.x, p.x);
        let yy = fx_mul_unit(p.y, p.y);
        let dist = xx + yy;
        if dist <= 65536 {
            let z = sqrt_fx(65536 - dist);
            proof {
                assert((z as int) <= 65536) by (nonlinear_arith)
                    requires
                        0 <= z as int,
                        (z as int) * (z as int) <= (65536 - dist as int) * 65536,
                        0 <= dist as int <= 65536,
                ;
            }
            Quat { x: p.x, y: p.y, z, w: 0 }
        } else {
            let m = sqrt_fx(dist);
            proof {
                assert((m as int) >= 65536) by (nonlinear_arith)
                    requires
                        (dist as int) * 65536 < ((m as int) + 1) * ((m as int) + 1),
                        65537 <= dist as int,
                        0 <= m as int,
                ;
                lemma_tdiv_abs_le((p.x as int) * (FX_ONE as int), 4294967296, m as int);
                lemma_tdiv_abs_le((p.y as int) * (FX_ONE as int), 4294967296, m as int);
                lemma_div_is_ordered_by_denominator(4294967296, 65536, m as int);
                lemma_div_multiples_vanish(65536, 65536);
            }
            Quat { x: fx_div(p.x, m), y: fx_div(p.y, m), z: 0, w: 0 }
        }
    }

    /// Quaternion composition, clamped into the unit range componentwise.
    fn rotor_mul(a: Quat, b: Quat) -> (r: Quat)
        requires
            quat_unit_range(a@),
            quat_unit_range(b@),
        ensures
            r@ == rotor_mul_g(a@, b@),
            quat_unit_range(r@),
    {
        let x = clamp64_one(
            fx_mul_unit(a.w, b.x) + fx_mul_unit(a.x, b.w) + fx_mul_unit(a.y, b.z) - fx_mul_unit(
                a.z,
                b.y,
            ),
        );
        let y = clamp64_one(
            fx_mul_unit(a.w, b.y) - fx_mul_unit(a.x, b.z) + fx_mul_unit(a.y, b.w) + fx_mul_unit(
                a.z,
                b.x,
            ),
        );
        let z = clamp64_one(
            fx_mul_unit(a.w, b.z) + fx_mul_unit(a.x, b.y) - fx_mul_unit(a.y, b.x) + fx_mul_unit(
                a.z,
                b.w,
            ),
        );
        let w = clamp64_one(
            fx_mul_unit(a.w, b.w) - fx_mul_unit(a.x, b.x) - fx_mul_unit(a.y, b.y) - fx_mul_unit(
                a.z,
                b.z,
            ),
        );
        Quat { x, y, z, w }
    }

    /// Recompute both cached matrices from the transform fields; called after
    /// every mutation.
    fn update_camera(&mut self)
        requires
            cam_in_range(old(self)@),
        ensures
            final(self)@ == old(self)@,
            final(self).wf(),
    {
        proof {
            lemma_rot_fx_bounds(self@.q);
        }
        let q = self.rot;
        let ww = fx_mul_unit(q.w, q.w);
        let xx = fx_mul_unit(q.x, q.x);
        let yy = fx_mul_unit(q.y, q.y);
        let zz = fx_mul_unit(q.z, q.z);
        let xy = fx_mul_unit(q.x, q.y);
        let xz = fx_mul_unit(q.x, q.z);
        let yz = fx_mul_unit(q.y, q.z);
        let wx = fx_mul_unit(q.w, q.x);
        let wy = fx_mul_unit(q.w, q.y);
        let wz = fx_mul_unit(q.w, q.z);
        let r00 = ww + xx - yy - zz;
        let r01 = 2 * (xy - wz);
        let r02 = 2 * (xz + wy);
        let r10 = 2 * (xy + wz);
        let r11 = ww - xx + yy - zz;
        let r12 = 2 * (yz - wx);
        let r20 = 2 * (xz - wy);
        let r21 = 2 * (yz + wx);
        let r22 = ww - xx - yy + zz;
        let v0 = fx_mul_rot_off(r00, self.pan.x) + fx_mul_rot_off(r01, self.pan.y)
            + fx_mul_rot_off(r02, self.pan.z);
        let v1 = fx_mul_rot_off(r10, self.pan.x) + fx_mul_rot_off(r11, self.pan.y)
            + fx_mul_rot_off(r12, self.pan.z);
        let v2 = fx_mul_rot_off(r20, self.pan.x) + fx_mul_rot_off(r21, self.pan.y)
            + fx_mul_rot_off(r22, self.pan.z) + self.zoom_z;
        let i0 = -self.pan.x - fx_mul_rot_off(r20, self.zoom_z);
        let i1 = -self.pan.y - fx_mul_rot_off(r21, self.zoom_z);
        let i2 = -self.pan.z - fx_mul_rot_off(r22, self.zoom_z);
        self.camera = Mat4 {
            m00: r00,
            m01: r01,
            m02: r02,
            m03: v0,
            m10: r10,
            m11: r11,
            m12: r12,
            m13: v1,
            m20: r20,
            m21: r21,
            m22: r22,
            m23: v2,
            m30: 0,
            m31: 0,
            m32: 0,
            m33: 65536,
        };
        self.inv_camera = Mat4 {
            m00: r00,
            m01: r10,
            m02: r20,
            m03: i0,
            m10: r01,
            m11: r11,
            m12: r21,
            m13: i1,
            m20: r02,
            m21: r12,
            m22: r22,
            m23: i2,
            m30: 0,
            m31: 0,
            m32: 0,
            m33: 65536,
        };
    }

    /// Create a camera focused at `center`, zooming at `zoom_speed`, for a
    /// viewport of `screen` fixed-point pixels (positive, at most one unit
    /// per pixel of 65536 pixels). The camera starts one unit back along the
    /// view axis with the identity orientation.
    pub fn new(center: Vec3, zoom_speed: i64, screen: Vec2) -> (cam: ArcballCamera)
        requires
            -FX_LIMIT <= center.x <= FX_LIMIT,
            -FX_LIMIT <= center.y <= FX_LIMIT,
            -FX_LIMIT <= center.z <= FX_LIMIT,
            -FX_LIMIT <= zoom_speed <= FX_LIMIT,
            1 <= screen.x <= 4294967296,
            1 <= screen.y <= 4294967296,
        ensures
            cam.wf(),
            cam@ == spec_create(center@, zoom_speed as int, screen@.x, screen@.y),
    {
        proof {
            lemma_div_pos_is_pos(4294967296int, screen.x as int);
            lemma_div_pos_is_pos(4294967296int, screen.y as int);
            lemma_div_nonincreasing(4294967296int, screen.x as int);
            lemma_div_nonincreasing(4294967296int, screen.y as int);
        }
        let iw = fx_div(65536, screen.x);
        let ih = fx_div(65536, screen.y);
        let zero = Mat4 {
            m00: 0,
            m01: 0,
            m02: 0,
            m03: 0,
            m10: 0,
            m11: 0,
            m12: 0,
            m13: 0,
            m20: 0,
            m21: 0,
            m22: 0,
            m23: 0,
            m30: 0,
            m31: 0,
            m32: 0,
            m33: 0,
        };
        let mut cam = ArcballCamera {
            rot: Quat { x: 0, y: 0, z: 0, w: 65536 },
            zoom_z: -65536,
            pan: Vec3 { x: -center.x, y: -center.y, z: -center.z },
            zoom_speed,
            inv_w: iw,
            inv_h: ih,
            camera: zero,
            inv_camera: zero,
        };
        cam.update_camera();
        cam
    }

    /// The view matrix.
    pub fn get_mat4(&self) -> (m: Mat4)
        requires
            self.wf(),
        ensures
            m@ == spec_view(self@),
    {
        self.camera
    }

    /// The inverse view matrix.
    pub fn get_inv_camera(&self) -> (m: Mat4)
        requires
            self.wf(),
        ensures
            m@ == spec_inv(self@),
    {
        self.inv_camera
    }

    /// The world-space camera position.
    pub fn eye_pos(&self) -> (v: Vec3)
        requires
            self.wf(),
        ensures
            v@ == spec_eye_pos(self@),
    {
        Vec3 { x: self.inv_camera.m03, y: self.inv_camera.m13, z: self.inv_camera.m23 }
    }

    /// The unit view direction.
    pub fn eye_dir(&self) -> (v: Vec3)
        requires
            self.wf(),
        ensures
            v@ == spec_eye_dir(self@),
    {
        proof {
            lemma_rot_fx_bounds(self@.q);
        }
        normalize_dir(
            Vec3 { x: -self.inv_camera.m02, y: -self.inv_camera.m12, z: -self.inv_camera.m22 },
        )
    }

    /// The unit up direction.
    pub fn up_dir(&self) -> (v: Vec3)
        requires
            self.wf(),
        ensures
            v@ == spec_up_dir(self@),
    {
        proof {
            lemma_rot_fx_bounds(self@.q);
        }
        normalize_dir(
            Vec3 { x: self.inv_camera.m01, y: self.inv_camera.m11, z: self.inv_camera.m21 },
        )
    }

    /// Rotate from the orientation at the previous mouse position to the one
    /// at the current position, both in fixed-point pixel coordinates.
    pub fn rotate(&mut self, mouse_prev: Vec2, mouse_cur: Vec2)
        requires
            old(self).wf(),
        ensures
            final(self).wf(),
            final(self)@ == spec_rotate(old(self)@, mouse_prev@, mouse_cur@),
    {
        let m_cur = Vec2 {
            x: to_ndc_x(mouse_cur.x, self.inv_w),
            y: to_ndc_y(mouse_cur.y, self.inv_h),
        };
        let m_prev = Vec2 {
            x: to_ndc_x(mouse_prev.x, self.inv_w),
            y: to_ndc_y(mouse_prev.y, self.inv_h),
        };
        let mouse_cur_ball = Self::screen_to_arcball(m_cur);
        let mouse_prev_ball = Self::screen_to_arcball(m_prev);
        self.rot = Self::rotor_mul(Self::rotor_mul(mouse_cur_ball, mouse_prev_ball), self.rot);
        self.update_camera();
    }

    /// Dolly the camera along its view axis by `amount * zoom_speed *
    /// elapsed`; positive amounts zoom in. The preconditions only keep the
    /// step and the accumulated offset inside the fixed-point range.
    pub fn zoom(&mut self, amount: i64, elapsed: i64)
        requires
            old(self).wf(),
            i64::MIN <= fmul(amount as int, old(self)@.speed) <= i64::MAX,
            i64::MIN <= spec_zoom_delta(old(self)@, amount as int, elapsed as int) <= i64::MAX,
            -FX_LIMIT <= old(self)@.zoom_z + spec_zoom_delta(old(self)@, amount as int, elapsed as int) <= FX_LIMIT,
        ensures
            final(self).wf(),
            final(self)@ == spec_zoom(old(self)@, amount as int, elapsed as int),
    {
        let d1 = fx_mul(amount, self.zoom_speed);
        let d2 = fx_mul(d1, elapsed);
        self.zoom_z = self.zoom_z + d2;
        self.update_camera();
    }

    /// Pan the focus point following a screen-space mouse delta; the motion
    /// scales with the current zoom distance and is carried into world space
    /// through the inverse view matrix. The preconditions only keep each
    /// fixed-point stage inside representable range.
    pub fn pan(&mut self, mouse_delta: Vec2)
        requires
            old(self).wf(),
            -FX_LIMIT <= mouse_delta.x <= FX_LIMIT,
            -FX_LIMIT <= mouse_delta.y <= FX_LIMIT,
            i64::MIN <= spec_pan_d1(old(self)@, mouse_delta@).x <= i64::MAX,
            i64::MIN <= spec_pan_d1(old(self)@, mouse_delta@).y <= i64::MAX,
            -FX_LIMIT <= spec_pan_d2(old(self)@, mouse_delta@).x <= FX_LIMIT,
            -FX_LIMIT <= spec_pan_d2(old(self)@, mouse_delta@).y <= FX_LIMIT,
            -FX_LIMIT <= old(self)@.pan.x + spec_pan_motion(old(self)@, mouse_delta@).x <= FX_LIMIT,
            -FX_LIMIT <= old(self)@.pan.y + spec_pan_motion(old(self)@, mouse_delta@).y <= FX_LIMIT,
            -FX_LIMIT <= old(self)@.pan.z + spec_pan_motion(old(self)@, mouse_delta@).z <= FX_LIMIT,
        ensures
            final(self).wf(),
            final(self)@ == spec_pan(old(self)@, mouse_delta@),
    {
        let zoom_dist = if self.zoom_z >= 0 {
            self.zoom_z
        } else {
            -self.zoom_z
        };
        let d1x = fx_mul(mouse_delta.x, self.inv_w);
        let d1y = fx_mul(-mouse_delta.y, self.inv_h);
        let d2x = fx_mul(d1x, zoom_dist);
        let d2y = fx_mul(d1y, zoom_dist);
        proof {
            lemma_rot_fx_bounds(self@.q);
        }
        let mx = fx_mul_rot_off(self.inv_camera.m00, d2x) + fx_mul_rot_off(
            self.inv_camera.m01,
            d2y,
        );
        let my = fx_mul_rot_off(self.inv_camera.m10, d2x) + fx_mul_rot_off(
            self.inv_camera.m11,
            d2y,
        );
        let mz = fx_mul_rot_off(self.inv_camera.m20, d2x) + fx_mul_rot_off(
            self.inv_camera.m21,
            d2y,
        );
        self.pan = Vec3 { x: self.pan.x + mx, y: self.pan.y + my, z: self.pan.z + mz };
        self.update_camera();
    }

    /// Update the reciprocal screen dimensions after a resize. No transform
    /// changes, and both cached matrices stay exactly as they were.
    pub fn update_screen(&mut self, width: i64, height: i64)
        requires
            old(self).wf(),
            1 <= width <= 4294967296,
            1 <= height <= 4294967296,
        ensures
            final(self).wf(),
            final(self)@ == spec_update_screen(old(self)@, width as int, height as int),
    {
        proof {
            lemma_div_pos_is_pos(4294967296int, width as int);
            lemma_div_pos_is_pos(4294967296int, height as int);
            lemma_div_nonincreasing(4294967296int, width as int);
            lemma_div_nonincreasing(4294967296int, height as int);
        }
        self.inv_w = fx_div(65536, width);
        self.inv_h = fx_div(65536, height);
    }
}

} // verus!
