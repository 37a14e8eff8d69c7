//! Fixed-point vectors, quaternions and rigid poses.
//!
//! A pose is a rotation (a near-unit quaternion, stored in micro-units)
//! followed by a translation. Poses compose the usual way:
//! `(R1, t1) * (R2, t2) = (R1 R2, t1 + R1 t2)`.

use vstd::prelude::*;

use crate::fx::fx_add;
use crate::fx::fx_mul;
use crate::fx::fx_neg;
use crate::fx::fx_sub;
use crate::fx::fx_in_range;
use crate::fx::s_add;
use crate::fx::s_mul;
use crate::fx::s_neg;
use crate::fx::s_sub;
use crate::fx::lemma_s_add_zero;
use crate::fx::lemma_s_mul_scale;
use crate::fx::lemma_s_mul_zero;
use crate::fx::SCALE;

verus! {

#[derive(Clone, Copy, Debug, PartialEq, Eq, Structural)]
pub struct Vec3Fx {
    pub x: i64,
    pub y: i64,
    pub z: i64,
}

#[derive(Clone, Copy, Debug, PartialEq, Eq, Structural)]
pub struct QuatFx {
    pub x: i64,
    pub y: i64,
    pub z: i64,
    pub w: i64,
}

#[derive(Clone, Copy, Debug, PartialEq, Eq, Structural)]
pub struct Pose {
    pub pos: Vec3Fx,
    pub rot: QuatFx,
}

pub open spec fn v3_in_range(v: Vec3Fx) -> bool {
    fx_in_range(v.x) && fx_in_range(v.y) && fx_in_range(v.z)
}

pub open spec fn q_in_range(q: QuatFx) -> bool {
    fx_in_range(q.x) && fx_in_range(q.y) && fx_in_range(q.z) && fx_in_range(q.w)
}

pub open spec fn pose_in_range(p: Pose) -> bool {
    v3_in_range(p.pos) && q_in_range(p.rot)
}

pub open spec fn v3_zero() -> Vec3Fx {
    Vec3Fx { x: 0, y: 0, z: 0 }
}

pub open spec fn q_identity() -> QuatFx {
    QuatFx { x: 0, y: 0, z: 0, w: SCALE }
}

pub open spec fn pose_identity() -> Pose {
    Pose { pos: v3_zero(), rot: q_identity() }
}

pub open spec fn s_vadd(a: Vec3Fx, b: Vec3Fx) -> Vec3Fx {
    Vec3Fx { x: s_add(a.x, b.x), y: s_add(a.y, b.y), z: s_add(a.z, b.z) }
}

pub open spec fn s_vsub(a: Vec3Fx, b: Vec3Fx) -> Vec3Fx {
    Vec3Fx { x: s_sub(a.x, b.x), y: s_sub(a.y, b.y), z: s_sub(a.z, b.z) }
}

pub open spec fn s_vneg(a: Vec3Fx) -> Vec3Fx {
    Vec3Fx { x: s_neg(a.x), y: s_neg(a.y), z: s_neg(a.z) }
}

pub open spec fn s_vscale(a: Vec3Fx, k: i64) -> Vec3Fx {
    Vec3Fx { x: s_mul(a.x, k), y: s_mul(a.y, k), z: s_mul(a.z, k) }
}

pub open spec fn s_cross(a: Vec3Fx, b: Vec3Fx) -> Vec3Fx {
    Vec3Fx {
        x: s_sub(s_mul(a.y, b.z), s_mul(a.z, b.y)),
        y: s_sub(s_mul(a.z, b.x), s_mul(a.x, b.z)),
        z: s_sub(s_mul(a.x, b.y), s_mul(a.y, b.x)),
    }
}

/// Hamilton product of two quaternions.
pub open spec fn s_qmul(a: QuatFx, b: QuatFx) -> QuatFx {
    QuatFx {
        x: s_add(s_add(s_mul(a.w, b.x), s_mul(a.x, b.w)), s_sub(s_mul(a.y, b.z), s_mul(a.z, b.y))),
        y: s_add(s_sub(s_mul(a.w, b.y), s_mul(a.x, b.z)), s_add(s_mul(a.y, b.w), s_mul(a.z, b.x))),
        z: s_add(s_add(s_mul(a.w, b.z), s_mul(a.x, b.y)), s_sub(s_mul(a.z, b.w), s_mul(a.y, b.x))),
        w: s_sub(s_sub(s_mul(a.w, b.w), s_mul(a.x, b.x)), s_add(s_mul(a.y, b.y), s_mul(a.z, b.z))),
    }
}

/// Rotation of a vector by a near-unit quaternion:
/// `v + w t + u x t` with `t = 2 (u x v)` and `u` the quaternion's vector part.
pub open spec fn s_qrot(q: QuatFx, v: Vec3Fx) -> Vec3Fx {
    let u = Vec3Fx { x: q.x, y: q.y, z: q.z };
    let t0 = s_cross(u, v);
    let t = s_vadd(t0, t0);
    s_vadd(s_vadd(v, s_vscale(t, q.w)), s_cross(u, t))
}

pub open spec fn s_compose(a: Pose, b: Pose) -> Pose {
    Pose { pos: s_vadd(a.pos, s_qrot(a.rot, b.pos)), rot: s_qmul(a.rot, b.rot) }
}

impl Vec3Fx {
    pub fn new(x: i64, y: i64, z: i64) -> (r: Vec3Fx)
        ensures
            r == (Vec3Fx { x, y, z }),
    {
        Vec3Fx { x, y, z }
    }

    pub fn zero() -> (r: Vec3Fx)
        ensures
            r == v3_zero(),
    {
        Vec3Fx { x: 0, y: 0, z: 0 }
    }
}

impl QuatFx {
    pub fn identity() -> (r: QuatFx)
        ensures
            r == q_identity(),
    {
        QuatFx { x: 0, y: 0, z: 0, w: SCALE }
    }
}

impl Pose {
    pub fn identity() -> (r: Pose)
        ensures
            r == pose_identity(),
    {
        Pose { pos: Vec3Fx::zero(), rot: QuatFx::identity() }
    }
}

pub fn vadd(a: Vec3Fx, b: Vec3Fx) -> (r: Vec3Fx)
    requires
        v3_in_range(a),
        v3_in_range(b),
    ensures
        r == s_vadd(a, b),
        v3_in_range(r),
{
    Vec3Fx { x: fx_add(a.x, b.x), y: fx_add(a.y, b.y), z: fx_add(a.z, b.z) }
}

pub fn vsub(a: Vec3Fx, b: Vec3Fx) -> (r: Vec3Fx)
    requires
        v3_in_range(a),
        v3_in_range(b),
    ensures
        r == s_vsub(a, b),
        v3_in_range(r),
{
    Vec3Fx { x: fx_sub(a.x, b.x), y: fx_sub(a.y, b.y), z: fx_sub(a.z, b.z) }
}

pub fn vneg(a: Vec3Fx) -> (r: Vec3Fx)
    requires
        v3_in_range(a),
    ensures
        r == s_vneg(a),
        v3_in_range(r),
{
    Vec3Fx { x: fx_neg(a.x), y: fx_neg(a.y), z: fx_neg(a.z) }
}

pub fn vscale(a: Vec3Fx, k: i64) -> (r: Vec3Fx)
    requires
        v3_in_range(a),
        fx_in_range(k),
    ensures
        r == s_vscale(a, k),
        v3_in_range(r),
{
    Vec3Fx { x: fx_mul(a.x, k), y: fx_mul(a.y, k), z: fx_mul(a.z, k) }
}

pub fn cross(a: Vec3Fx, b: Vec3Fx) -> (r: Vec3Fx)
    requires
        v3_in_range(a),
        v3_in_range(b),
    ensures
        r == s_cross(a, b),
        v3_in_range(r),
{
    Vec3Fx {
        x: fx_sub(fx_mul(a.y, b.z), fx_mul(a.z, b.y)),
        y: fx_sub(fx_mul(a.z, b.x), fx_mul(a.x, b.z)),
        z: fx_sub(fx_mul(a.x, b.y), fx_mul(a.y, b.x)),
    }
}

pub fn qmul(a: QuatFx, b: QuatFx) -> (r: QuatFx)
    requires
        q_in_range(a),
        q_in_range(b),
    ensures
        r == s_qmul(a, b),
        q_in_range(r),
{
    QuatFx {
        x: fx_add(
            fx_add(fx_mul(a.w, b.x), fx_mul(a.x, b.w)),
            fx_sub(fx_mul(a.y, b.z), fx_mul(a.z, b.y)),
        ),
        y: fx_add(
            fx_sub(fx_mul(a.w, b.y), fx_mul(a.x, b.z)),
            fx_add(fx_mul(a.y, b.w), fx_mul(a.z, b.x)),
        ),
        z: fx_add(
            fx_add(fx_mul(a.w, b.z), fx_mul(a.x, b.y)),
            fx_sub(fx_mul(a.z, b.w), fx_mul(a.y, b.x)),
        ),
        w: fx_sub(
            fx_sub(fx_mul(a.w, b.w), fx_mul(a.x, b.x)),
            fx_add(fx_mul(a.y, b.y), fx_mul(a.z, b.z)),
        ),
    }
}

pub fn qrot(q: QuatFx, v: Vec3Fx) -> (r: Vec3Fx)
    requires
        q_in_range(q),
        v3_in_range(v),
    ensures
        r == s_qrot(q, v),
        v3_in_range(r),
{
    let u = Vec3Fx { x: q.x, y: q.y, z: q.z };
    let t0 = cross(u, v);
    let t = vadd(t0, t0);
    vadd(vadd(v, vscale(t, q.w)), cross(u, t))
}

pub fn compose(a: Pose, b: Pose) -> (r: Pose)
    requires
        pose_in_range(a),
        pose_in_range(b),
    ensures
        r == s_compose(a, b),
        pose_in_range(r),
{
    Pose { pos: vadd(a.pos, qrot(a.rot, b.pos)), rot: qmul(a.rot, b.rot) }
}

/// The identity quaternion is a right unit of the Hamilton product, exactly,
/// saturation and rounding notwithstanding.
pub proof fn lemma_qmul_identity_right(q: QuatFx)
    requires
        q_in_range(q),
    ensures
        s_qmul(q, q_identity()) == q,
{
    lemma_s_mul_scale(q.x);
    lemma_s_mul_scale(q.y);
    lemma_s_mul_scale(q.z);
    lemma_s_mul_scale(q.w);
    lemma_s_mul_zero(q.x);
    lemma_s_mul_zero(q.y);
    lemma_s_mul_zero(q.z);
    lemma_s_mul_zero(q.w);
    lemma_s_add_zero(q.x);
    lemma_s_add_zero(q.y);
    lemma_s_add_zero(q.z);
    lemma_s_add_zero(q.w);
}

/// Rotating the zero vector gives the zero vector, exactly.
pub proof fn lemma_qrot_zero(q: QuatFx)
    requires
        q_in_range(q),
    ensures
        s_qrot(q, v3_zero()) == v3_zero(),
{
    lemma_s_mul_zero(q.x);
    lemma_s_mul_zero(q.y);
    lemma_s_mul_zero(q.z);
    lemma_s_mul_zero(q.w);
}

/// Rotating by the identity quaternion changes nothing, exactly.
pub proof fn lemma_qrot_identity(v: Vec3Fx)
    requires
        v3_in_range(v),
    ensures
        s_qrot(q_identity(), v) == v,
{
    lemma_s_mul_zero(v.x);
    lemma_s_mul_zero(v.y);
    lemma_s_mul_zero(v.z);
    lemma_s_mul_zero(SCALE);
    lemma_s_add_zero(v.x);
    lemma_s_add_zero(v.y);
    lemma_s_add_zero(v.z);
}

/// Composing with the identity pose on the right changes nothing, exactly.
pub proof fn lemma_compose_identity_right(p: Pose)
    requires
        pose_in_range(p),
    ensures
        s_compose(p, pose_identity()) == p,
{
    lemma_qmul_identity_right(p.rot);
    lemma_qrot_zero(p.rot);
    lemma_s_add_zero(p.pos.x);
    lemma_s_add_zero(p.pos.y);
    lemma_s_add_zero(p.pos.z);
}

} // verus!
