//! Laws of the camera model, each proved from the spec functions that the
//! executable operations are contracted to compute.
//!
//! The rounded fixed-point state tracks an exact integer model: the
//! quaternion, zoom offset and pan offsets with no division applied. The
//! geometric laws (orthonormality, the inverse round trip, zoom
//! monotonicity) are proved of that exact model; the executable entries
//! differ from it only by the one-unit rounding of each fixed-point product.

use crate::fixed::{
    fdiv, fmul, lemma_fmul_neg, lemma_fmul_one, lemma_fmul_zero, lemma_sqrt_floor_unique,
    sqrt_floor, FX_ONE,
};
use crate::model::{
    arcball_dist, arcball_inside, arcball_outside, iabs, quat_identity, rot_fx, spec_arcball,
    spec_create, spec_eye_pos, spec_inv, spec_pan, spec_pan_d1, spec_pan_d2, spec_pan_motion,
    spec_update_screen, spec_view, spec_zoom, spec_zoom_delta, CamG, Rot3G,
};
use crate::types::{QuatG, Vec2G, Vec3G};
use vstd::prelude::*;

verus! {

/// The fixed-point rotation matrix of the identity quaternion is the
/// identity at scale `FX_ONE`.
pub proof fn lemma_rot_fx_identity()
    ensures
        rot_fx(quat_identity()) == (Rot3G {
            r00: FX_ONE as int,
            r01: 0,
            r02: 0,
            r10: 0,
            r11: FX_ONE as int,
            r12: 0,
            r20: 0,
            r21: 0,
            r22: FX_ONE as int,
        }),
{
    lemma_fmul_one(FX_ONE as int);
    lemma_fmul_zero(0);
    lemma_fmul_zero(FX_ONE as int);
}

/// Identity at construction: the eye of a fresh camera sits exactly one unit
/// along +z from the focus center, whatever the center, speed and viewport.
pub proof fn lemma_create_eye_pos(center: Vec3G, speed: int, w: int, h: int)
    ensures
        spec_eye_pos(spec_create(center, speed, w, h)) == (Vec3G {
            x: center.x,
            y: center.y,
            z: center.z + FX_ONE as int,
        }),
{
    lemma_rot_fx_identity();
    lemma_fmul_zero(-(FX_ONE as int));
    lemma_fmul_one(FX_ONE as int);
}

/// Zoom monotonicity, inward: with the identity orientation, a zoom step of
/// positive length strictly shrinks the eye-to-focus distance while it does
/// not pass through the focus, and moves the eye along the view axis only.
pub proof fn lemma_zoom_in_moves_closer(c: CamG, amount: int, elapsed: int)
    requires
        c.q == quat_identity(),
        c.zoom_z < 0,
        0 < spec_zoom_delta(c, amount, elapsed),
        c.zoom_z + spec_zoom_delta(c, amount, elapsed) <= 0,
    ensures
        iabs(spec_eye_pos(spec_zoom(c, amount, elapsed)).z + c.pan.z) < iabs(
            spec_eye_pos(c).z + c.pan.z,
        ),
        spec_eye_pos(spec_zoom(c, amount, elapsed)).x == spec_eye_pos(c).x,
        spec_eye_pos(spec_zoom(c, amount, elapsed)).y == spec_eye_pos(c).y,
{
    lemma_rot_fx_identity();
    let d = spec_zoom_delta(c, amount, elapsed);
    lemma_fmul_zero(c.zoom_z);
    lemma_fmul_zero(c.zoom_z + d);
    lemma_fmul_one(c.zoom_z);
    lemma_fmul_one(c.zoom_z + d);
}

/// Zoom monotonicity, outward: with the identity orientation, a zoom step of
/// negative length strictly grows the eye-to-focus distance of a camera
/// sitting behind the focus.
pub proof fn lemma_zoom_out_moves_away(c: CamG, amount: int, elapsed: int)
    requires
        c.q == quat_identity(),
        c.zoom_z < 0,
        spec_zoom_delta(c, amount, elapsed) < 0,
    ensures
        iabs(spec_eye_pos(spec_zoom(c, amount, elapsed)).z + c.pan.z) > iabs(
            spec_eye_pos(c).z + c.pan.z,
        ),
{
    lemma_rot_fx_identity();
    let d = spec_zoom_delta(c, amount, elapsed);
    lemma_fmul_zero(c.zoom_z);
    lemma_fmul_zero(c.zoom_z + d);
    lemma_fmul_one(c.zoom_z);
    lemma_fmul_one(c.zoom_z + d);
}

/// Pan cancellation: from the identity orientation at the default zoom, a
/// horizontal pan followed by its exact opposite restores the whole camera
/// state -- the rounding of the two pans cancels exactly.
pub proof fn lemma_pan_cancels(c: CamG, dx: int)
    requires
        c.q == quat_identity(),
        c.zoom_z == -(FX_ONE as int),
    ensures
        spec_pan(spec_pan(c, Vec2G { x: dx, y: 0 }), Vec2G { x: -dx, y: 0 }) == c,
{
    lemma_rot_fx_identity();
    let d1 = fmul(dx, c.inv_w);
    lemma_fmul_zero(c.inv_h);
    lemma_fmul_zero(-0);
    lemma_fmul_one(d1);
    lemma_fmul_zero(iabs(c.zoom_z));
    lemma_fmul_zero(0);
    let c1 = spec_pan(c, Vec2G { x: dx, y: 0 });
    assert(spec_pan_d1(c, Vec2G { x: dx, y: 0 }) == Vec2G { x: d1, y: fmul(0, c.inv_h) });
    assert(iabs(c.zoom_z) == FX_ONE as int);
    assert(spec_pan_d2(c, Vec2G { x: dx, y: 0 }) == Vec2G { x: d1, y: 0 });
    assert(spec_pan_motion(c, Vec2G { x: dx, y: 0 }) == Vec3G { x: d1, y: 0, z: 0 });
    assert(c1.pan == Vec3G { x: c.pan.x + d1, y: c.pan.y, z: c.pan.z });
    lemma_fmul_neg(dx, c.inv_w);
    let e1 = fmul(-dx, c1.inv_w);
    assert(e1 == -d1);
    lemma_fmul_one(e1);
    assert(spec_pan_d2(c1, Vec2G { x: -dx, y: 0 }) == Vec2G { x: e1, y: 0 });
    assert(spec_pan_motion(c1, Vec2G { x: -dx, y: 0 }) == Vec3G { x: -d1, y: 0, z: 0 });
    let c2 = spec_pan(c1, Vec2G { x: -dx, y: 0 });
    assert(c2.pan == c.pan);
}

/// Continuity at the disk boundary: a normalized point exactly on the unit
/// circle maps to the same equator point, with zero z, through both branches
/// of the arcball mapping.
pub proof fn lemma_arcball_boundary(x: int, y: int)
    requires
        -(FX_ONE as int) <= x <= FX_ONE as int,
        -(FX_ONE as int) <= y <= FX_ONE as int,
        arcball_dist(x, y) == FX_ONE as int,
    ensures
        arcball_inside(x, y) == arcball_outside(x, y),
        spec_arcball(x, y) == (QuatG { x, y, z: 0, w: 0 }),
{
    assert(65536int * 65536int == 4294967296) by (nonlinear_arith);
    assert(65537int * 65537int == 4295098369) by (nonlinear_arith);
    lemma_sqrt_floor_unique(4294967296, 65536);
    assert(sqrt_floor((FX_ONE as int - arcball_dist(x, y)) * (FX_ONE as int)) == 0);
    lemma_fmul_one(x);
    lemma_fmul_one(y);
    assert(fdiv(x, 65536) == fmul(x, FX_ONE as int));
    assert(fdiv(y, 65536) == fmul(y, FX_ONE as int));
}

/// Resize independence: updating the screen dimensions moves neither the
/// view matrix, nor its inverse, nor the eye position.
pub proof fn lemma_resize_independence(c: CamG, w: int, h: int)
    ensures
        spec_view(spec_update_screen(c, w, h)) == spec_view(c),
        spec_inv(spec_update_screen(c, w, h)) == spec_inv(c),
        spec_eye_pos(spec_update_screen(c, w, h)) == spec_eye_pos(c),
{
}

} // verus!
