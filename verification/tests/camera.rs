use arcball::{ArcballCamera, Vec2, Vec3};

const ONE: i64 = 65536;

fn camera_at_origin() -> ArcballCamera {
    ArcballCamera::new(
        Vec3 { x: 0, y: 0, z: 0 },
        ONE,
        Vec2 { x: 800 * ONE, y: 600 * ONE },
    )
}

#[test]
fn create_eye_pos_is_center_plus_unit_z() {
    let cam = ArcballCamera::new(
        Vec3 { x: ONE, y: 2 * ONE, z: 3 * ONE },
        ONE,
        Vec2 { x: 800 * ONE, y: 600 * ONE },
    );
    let eye = cam.eye_pos();
    assert_eq!(eye, Vec3 { x: ONE, y: 2 * ONE, z: 4 * ONE });
}

#[test]
fn initial_directions_are_axis_aligned() {
    let cam = camera_at_origin();
    assert_eq!(cam.eye_dir(), Vec3 { x: 0, y: 0, z: -ONE });
    assert_eq!(cam.up_dir(), Vec3 { x: 0, y: ONE, z: 0 });
}

#[test]
fn rotation_keeps_view_block_orthonormal() {
    let mut cam = camera_at_origin();
    cam.rotate(
        Vec2 { x: 400 * ONE, y: 300 * ONE },
        Vec2 { x: 450 * ONE, y: 310 * ONE },
    );
    cam.rotate(
        Vec2 { x: 450 * ONE, y: 310 * ONE },
        Vec2 { x: 430 * ONE, y: 260 * ONE },
    );
    let m = cam.get_mat4();
    let cols = [
        [m.m00 as i128, m.m10 as i128, m.m20 as i128],
        [m.m01 as i128, m.m11 as i128, m.m21 as i128],
        [m.m02 as i128, m.m12 as i128, m.m22 as i128],
    ];
    let unit2: i128 = (ONE as i128) * (ONE as i128);
    let tol: i128 = 1 << 22;
    for i in 0..3 {
        for j in 0..3 {
            let dot: i128 = (0..3).map(|k| cols[i][k] * cols[j][k]).sum();
            let expect = if i == j { unit2 } else { 0 };
            assert!((dot - expect).abs() < tol, "cols {i} {j}: {dot}");
        }
    }
}

#[test]
fn inverse_times_view_is_identity_within_tolerance() {
    let mut cam = camera_at_origin();
    cam.rotate(
        Vec2 { x: 400 * ONE, y: 300 * ONE },
        Vec2 { x: 520 * ONE, y: 340 * ONE },
    );
    let v = cam.get_mat4();
    let iv = cam.get_inv_camera();
    let a = [
        [iv.m00, iv.m01, iv.m02, iv.m03],
        [iv.m10, iv.m11, iv.m12, iv.m13],
        [iv.m20, iv.m21, iv.m22, iv.m23],
        [iv.m30, iv.m31, iv.m32, iv.m33],
    ];
    let b = [
        [v.m00, v.m01, v.m02, v.m03],
        [v.m10, v.m11, v.m12, v.m13],
        [v.m20, v.m21, v.m22, v.m23],
        [v.m30, v.m31, v.m32, v.m33],
    ];
    let tol: i128 = 256;
    for i in 0..4 {
        for j in 0..4 {
            let p: i128 = (0..4).map(|k| (a[i][k] as i128) * (b[k][j] as i128)).sum::<i128>()
                / (ONE as i128);
            let expect = if i == j { ONE as i128 } else { 0 };
            assert!((p - expect).abs() < tol, "entry {i} {j}: {p}");
        }
    }
}

#[test]
fn zoom_in_strictly_approaches_focus_and_zoom_out_recedes() {
    let mut cam = camera_at_origin();
    let mut dist = cam.eye_pos().z.abs();
    assert_eq!(dist, ONE);
    for _ in 0..4 {
        cam.zoom(ONE, ONE / 10);
        let d = cam.eye_pos().z.abs();
        assert!(d < dist, "{d} !< {dist}");
        dist = d;
    }
    for _ in 0..4 {
        cam.zoom(-ONE, ONE / 10);
        let d = cam.eye_pos().z.abs();
        assert!(d > dist, "{d} !> {dist}");
        dist = d;
    }
}

#[test]
fn zoom_moves_eye_by_exact_step() {
    let mut cam = camera_at_origin();
    // amount 1.0 at speed 1.0 for elapsed 6554/65536 units moves 6554 units
    cam.zoom(ONE, 6554);
    assert_eq!(cam.eye_pos(), Vec3 { x: 0, y: 0, z: ONE - 6554 });
}

#[test]
fn pan_and_opposite_pan_cancel_exactly() {
    let mut cam = camera_at_origin();
    let before = cam.eye_pos();
    cam.pan(Vec2 { x: 10 * ONE, y: 0 });
    let moved = cam.eye_pos();
    assert_eq!(moved, Vec3 { x: -810, y: 0, z: ONE });
    cam.pan(Vec2 { x: -10 * ONE, y: 0 });
    assert_eq!(cam.eye_pos(), before);
}

#[test]
fn arcball_boundary_has_zero_z_from_both_branches() {
    // exactly on the unit circle: the inside branch lifts to z == 0
    let q = ArcballCamera::screen_to_arcball(Vec2 { x: ONE, y: 0 });
    assert_eq!((q.x, q.y, q.z, q.w), (ONE, 0, 0, 0));
    let q = ArcballCamera::screen_to_arcball(Vec2 { x: 46341, y: 46341 });
    assert_eq!((q.x, q.y, q.z, q.w), (46341, 46341, 0, 0));
    // just outside: the equator branch also lands at z == 0
    let q = ArcballCamera::screen_to_arcball(Vec2 { x: ONE, y: 256 });
    assert_eq!((q.x, q.y, q.z, q.w), (ONE, 256, 0, 0));
    // center of the disk lifts to the pole
    let q = ArcballCamera::screen_to_arcball(Vec2 { x: 0, y: 0 });
    assert_eq!((q.x, q.y, q.z, q.w), (0, 0, ONE, 0));
}

#[test]
fn resize_leaves_view_matrix_unchanged() {
    let mut cam = camera_at_origin();
    cam.rotate(
        Vec2 { x: 400 * ONE, y: 300 * ONE },
        Vec2 { x: 420 * ONE, y: 330 * ONE },
    );
    let before = cam.get_mat4();
    let inv_before = cam.get_inv_camera();
    cam.update_screen(1024 * ONE, 768 * ONE);
    assert_eq!(cam.get_mat4(), before);
    assert_eq!(cam.get_inv_camera(), inv_before);
}

#[test]
fn small_horizontal_drag_yields_rotation_about_up_axis() {
    let mut cam = camera_at_origin();
    cam.rotate(
        Vec2 { x: 400 * ONE, y: 300 * ONE },
        Vec2 { x: 450 * ONE, y: 300 * ONE },
    );
    let dir = cam.eye_dir();
    assert!(dir.x != 0, "direction did not tilt: {dir:?}");
    let n2 = ((dir.x as i128) * (dir.x as i128) + (dir.y as i128) * (dir.y as i128)
        + (dir.z as i128) * (dir.z as i128))
        / (ONE as i128);
    assert!((n2 - ONE as i128).abs() < 1024, "not unit: {n2}");
}
