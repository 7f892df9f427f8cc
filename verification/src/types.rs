//! Vector, quaternion and matrix types. Each executable type carries `i64`
//! fixed-point components and views onto a ghost counterpart with unbounded
//! `int` components, so contracts speak in exact integer arithmetic.

use vstd::prelude::*;

verus! {

/// Ghost pair of coordinates.
pub struct Vec2G {
    pub x: int,
    pub y: int,
}

/// Ghost triple of coordinates.
pub struct Vec3G {
    pub x: int,
    pub y: int,
    pub z: int,
}

/// Ghost quaternion; `w` is the scalar part.
pub struct QuatG {
    pub x: int,
    pub y: int,
    pub z: int,
    pub w: int,
}

/// Ghost 4x4 matrix, row major: `mRC` is row `R`, column `C`.
pub struct Mat4G {
    pub m00: int,
    pub m01: int,
    pub m02: int,
    pub m03: int,
    pub m10: int,
    pub m11: int,
    pub m12: int,
    pub m13: int,
    pub m20: int,
    pub m21: int,
    pub m22: int,
    pub m23: int,
    pub m30: int,
    pub m31: int,
    pub m32: int,
    pub m33: int,
}

/// A screen-space point or delta, in fixed-point pixels.
#[derive(Clone, Copy, Debug, PartialEq, Eq)]
pub struct Vec2 {
    pub x: i64,
    pub y: i64,
}

/// A world-space point or direction, in fixed-point units.
#[derive(Clone, Copy, Debug, PartialEq, Eq)]
pub struct Vec3 {
    pub x: i64,
    pub y: i64,
    pub z: i64,
}

/// A rotation as a fixed-point quaternion; `w` is the scalar part.
#[derive(Clone, Copy, Debug, PartialEq, Eq)]
pub struct Quat {
    pub x: i64,
    pub y: i64,
    pub z: i64,
    pub w: i64,
}

/// A 4x4 homogeneous transform, row major, in fixed-point entries.
#[derive(Clone, Copy, Debug, PartialEq, Eq)]
pub struct Mat4 {
    pub m00: i64,
    pub m01: i64,
    pub m02: i64,
    pub m03: i64,
    pub m10: i64,
    pub m11: i64,
    pub m12: i64,
    pub m13: i64,
    pub m20: i64,
    pub m21: i64,
    pub m22: i64,
    pub m23: i64,
    pub m30: i64,
    pub m31: i64,
    pub m32: i64,
    pub m33: i64,
}

impl View for Vec2 {
    type V = Vec2G;

    open spec fn view(&self) -> Vec2G {
        Vec2G { x: self.x as int, y: self.y as int }
    }
}

impl View for Vec3 {
    type V = Vec3G;

    open spec fn view(&self) -> Vec3G {
        Vec3G { x: self.x as int, y: self.y as int, z: self.z as int }
    }
}

impl View for Quat {
    type V = QuatG;

    open spec fn view(&self) -> QuatG {
        QuatG { x: self.x as int, y: self.y as int, z: self.z as int, w: self.w as int }
    }
}

impl View for Mat4 {
    type V = Mat4G;

    open spec fn view(&self) -> Mat4G {
        Mat4G {
            m00: self.m00 as int,
            m01: self.m01 as int,
            m02: self.m02 as int,
            m03: self.m03 as int,
            m10: self.m10 as int,
            m11: self.m11 as int,
            m12: self.m12 as int,
            m13: self.m13 as int,
            m20: self.m20 as int,
            m21: self.m21 as int,
            m22: self.m22 as int,
            m23: self.m23 as int,
            m30: self.m30 as int,
            m31: self.m31 as int,
            m32: self.m32 as int,
            m33: self.m33 as int,
        }
    }
}

} // verus!
