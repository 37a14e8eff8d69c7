//! The shape library and the collider store.
//!
//! Shapes are immutable collision geometry; a collider attaches one shape
//! to a (body, link) pair with a density and a local pose offset. A
//! collider's world pose is always derived from its link's pose plus that
//! offset, never stored.

use vstd::prelude::*;

use crate::fx::fx_add;
use crate::fx::fx_div;
use crate::fx::fx_in_range;
use crate::fx::fx_mul;
use crate::fx::s_add;
use crate::fx::s_div;
use crate::fx::s_mul;
use crate::fx::C2;
use crate::fx::C3;
use crate::fx::C8;
use crate::fx::PI_FX;
use crate::linalg::pose_in_range;
use crate::linalg::v3_in_range;
use crate::linalg::Pose;
use crate::linalg::Vec3Fx;
use crate::store::BodyHandle;

verus! {

/// Collision geometry primitives.
#[derive(Clone, Copy, Debug)]
pub enum Shape {
    /// The static ground: the half-space below the horizontal plane
    /// through its collider's origin, normal pointing up.
    Plane,
    /// A box given by its half-extents.
    Cuboid { half_extents: Vec3Fx },
    /// The convex hull of a tessellated cylinder standing for a wheel,
    /// given by the cylinder's half-height and radius; its axis lies along
    /// the collider frame's own axis.
    ConvexWheel { half_height: i64, radius: i64 },
}

/// An address of one link of one body.
#[derive(Clone, Copy, Debug, PartialEq, Eq, Structural)]
pub struct BodyPartHandle {
    pub body: BodyHandle,
    pub link: usize,
}

/// Immutable-shape, derived-pose geometry attached to a body part.
#[derive(Clone, Copy, Debug)]
pub struct Collider {
    pub shape: Shape,
    /// Mass per unit volume, used to derive the link's mass and inertia.
    pub density: i64,
    /// Pose of the shape relative to its link's frame.
    pub local_offset: Pose,
    pub part: BodyPartHandle,
}

pub open spec fn shape_wf(s: Shape) -> bool {
    match s {
        Shape::Plane => true,
        Shape::Cuboid { half_extents } => v3_in_range(half_extents) && half_extents.x >= 0
            && half_extents.y >= 0 && half_extents.z >= 0,
        Shape::ConvexWheel { half_height, radius } => fx_in_range(half_height) && half_height >= 0
            && fx_in_range(radius) && radius >= 0,
    }
}

pub open spec fn collider_wf(c: Collider) -> bool {
    &&& shape_wf(c.shape)
    &&& fx_in_range(c.density)
    &&& c.density >= 0
    &&& pose_in_range(c.local_offset)
}

/// Volume enclosed by a shape; a plane has none.
pub open spec fn s_shape_volume(s: Shape) -> i64 {
    match s {
        Shape::Plane => 0,
        Shape::Cuboid { half_extents } => s_mul(
            s_mul(s_mul(half_extents.x, half_extents.y), half_extents.z),
            C8,
        ),
        Shape::ConvexWheel { half_height, radius } => s_mul(
            s_mul(s_mul(radius, radius), PI_FX),
            s_add(half_height, half_height),
        ),
    }
}

/// Mass a collider contributes to its link: density times volume.
pub open spec fn s_collider_mass(c: Collider) -> i64 {
    s_mul(c.density, s_shape_volume(c.shape))
}

/// Rotational inertia of a collider about its shape's own axis: a half
/// m r^2 for the wheel hull, m (hy^2 + hz^2) / 3 for a box, none for the
/// plane.
pub open spec fn s_axial_inertia(c: Collider) -> i64 {
    match c.shape {
        Shape::Plane => 0,
        Shape::Cuboid { half_extents } => s_div(
            s_mul(
                s_collider_mass(c),
                s_add(s_mul(half_extents.y, half_extents.y), s_mul(half_extents.z, half_extents.z)),
            ),
            C3,
        ),
        Shape::ConvexWheel { half_height: _, radius } => s_div(
            s_mul(s_collider_mass(c), s_mul(radius, radius)),
            C2,
        ),
    }
}

pub fn shape_volume(s: &Shape) -> (r: i64)
    requires
        shape_wf(*s),
    ensures
        r == s_shape_volume(*s),
        fx_in_range(r),
{
    match s {
        Shape::Plane => 0,
        Shape::Cuboid { half_extents } => fx_mul(
            fx_mul(fx_mul(half_extents.x, half_extents.y), half_extents.z),
            C8,
        ),
        Shape::ConvexWheel { half_height, radius } => fx_mul(
            fx_mul(fx_mul(*radius, *radius), PI_FX),
            fx_add(*half_height, *half_height),
        ),
    }
}

pub fn collider_mass(c: &Collider) -> (r: i64)
    requires
        collider_wf(*c),
    ensures
        r == s_collider_mass(*c),
        fx_in_range(r),
{
    fx_mul(c.density, shape_volume(&c.shape))
}

pub fn axial_inertia(c: &Collider) -> (r: i64)
    requires
        collider_wf(*c),
    ensures
        r == s_axial_inertia(*c),
        fx_in_range(r),
{
    let m = collider_mass(c);
    match &c.shape {
        Shape::Plane => 0,
        Shape::Cuboid { half_extents } => fx_div(
            fx_mul(
                m,
                fx_add(
                    fx_mul(half_extents.y, half_extents.y),
                    fx_mul(half_extents.z, half_extents.z),
                ),
            ),
            C3,
        ),
        Shape::ConvexWheel { half_height: _, radius } => fx_div(fx_mul(m, fx_mul(*radius, *radius)), C2),
    }
}

pub struct ColliderStore {
    pub colliders: Vec<Collider>,
}

pub open spec fn colliders_wf(s: &ColliderStore) -> bool {
    forall|i: int| 0 <= i < s.colliders@.len() ==> collider_wf(#[trigger] s.colliders@[i])
}

impl ColliderStore {
    pub fn new() -> (r: ColliderStore)
        ensures
            colliders_wf(&r),
            r.colliders@.len() == 0,
    {
        ColliderStore { colliders: Vec::new() }
    }

    /// Attach a collider; its index is its stable handle.
    pub fn insert(&mut self, c: Collider) -> (idx: usize)
        requires
            colliders_wf(old(self)),
            collider_wf(c),
            old(self).colliders@.len() < usize::MAX,
        ensures
            colliders_wf(final(self)),
            idx == old(self).colliders@.len(),
            final(self).colliders@ == old(self).colliders@.push(c),
    {
        let idx = self.colliders.len();
        self.colliders.push(c);
        idx
    }

    pub fn count(&self) -> (r: usize)
        ensures
            r == self.colliders@.len(),
    {
        self.colliders.len()
    }

    pub fn collider(&self, idx: usize) -> (r: Option<Collider>)
        ensures
            r == if idx < self.colliders@.len() {
                Option::Some(self.colliders@[idx as int])
            } else {
                Option::None::<Collider>
            },
    {
        if idx < self.colliders.len() {
            Some(self.colliders[idx])
        } else {
            None
        }
    }
}

} // verus!
