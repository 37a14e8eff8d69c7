//! The body store: a generational arena of rigid bodies.
//!
//! Bodies are addressed by opaque handles carrying an index and a
//! generation; a handle whose generation disagrees with its slot is stale
//! and every query through it fails with `LinkNotFound` rather than
//! touching another body's state.

use vstd::prelude::*;

use crate::errors::PhysicsError;
use crate::linalg::v3_in_range;
use crate::linalg::Pose;
use crate::linalg::Vec3Fx;
use crate::multibody::mb_wf;
use crate::multibody::Multibody;
use crate::shape::colliders_wf;
use crate::shape::ColliderStore;

verus! {

/// An opaque, stable address of a body in the store.
#[derive(Clone, Copy, Debug, PartialEq, Eq, Structural)]
pub struct BodyHandle {
    pub index: usize,
    pub generation: u64,
}

/// A rigid body: immovable ground, or the articulated multibody.
pub enum Body {
    Static,
    Articulated(Multibody),
}

pub struct BodyEntry {
    pub generation: u64,
    pub body: Body,
}

pub struct BodyStore {
    pub entries: Vec<BodyEntry>,
}

pub open spec fn body_wf(b: &Body) -> bool {
    match b {
        Body::Static => true,
        Body::Articulated(mb) => mb_wf(mb),
    }
}

pub open spec fn store_wf(s: &BodyStore) -> bool {
    forall|i: int| 0 <= i < s.entries@.len() ==> body_wf(&(#[trigger] s.entries@[i]).body)
}

/// The handle addresses a slot that still carries its generation.
pub open spec fn handle_live(s: &BodyStore, h: BodyHandle) -> bool {
    h.index < s.entries@.len() && s.entries@[h.index as int].generation == h.generation
}

/// The links of the multibody the handle addresses.
pub open spec fn links_of(s: &BodyStore, h: BodyHandle) -> Seq<crate::multibody::Link> {
    match s.entries@[h.index as int].body {
        Body::Articulated(mb) => mb.links@,
        Body::Static => Seq::empty(),
    }
}

pub open spec fn is_articulated(s: &BodyStore, h: BodyHandle) -> bool {
    handle_live(s, h) && (s.entries@[h.index as int].body is Articulated)
}

impl BodyStore {
    pub fn new() -> (r: BodyStore)
        ensures
            store_wf(&r),
            r.entries@.len() == 0,
    {
        BodyStore { entries: Vec::new() }
    }

    /// Insert the immovable ground body.
    pub fn insert_static_body(&mut self) -> (h: BodyHandle)
        requires
            store_wf(old(self)),
            old(self).entries@.len() < usize::MAX,
        ensures
            store_wf(final(self)),
            h.index == old(self).entries@.len(),
            h.generation == 0,
            final(self).entries@.len() == old(self).entries@.len() + 1,
            forall|i: int|
                0 <= i < old(self).entries@.len() ==> #[trigger] final(self).entries@[i]
                    == old(self).entries@[i],
            final(self).entries@[h.index as int].generation == 0,
            final(self).entries@[h.index as int].body is Static,
            handle_live(final(self), h),
    {
        let idx = self.entries.len();
        self.entries.push(BodyEntry { generation: 0, body: Body::Static });
        BodyHandle { index: idx, generation: 0 }
    }

    /// Insert the finished multibody and hand back its address.
    pub fn build_multibody(&mut self, mb: Multibody) -> (h: BodyHandle)
        requires
            store_wf(old(self)),
            mb_wf(&mb),
            old(self).entries@.len() < usize::MAX,
        ensures
            store_wf(final(self)),
            h.index == old(self).entries@.len(),
            h.generation == 0,
            final(self).entries@.len() == old(self).entries@.len() + 1,
            forall|i: int|
                0 <= i < old(self).entries@.len() ==> #[trigger] final(self).entries@[i]
                    == old(self).entries@[i],
            final(self).entries@[h.index as int].generation == 0,
            final(self).entries@[h.index as int].body == Body::Articulated(mb),
            is_articulated(final(self), h),
            links_of(final(self), h) == mb.links@,
    {
        let idx = self.entries.len();
        self.entries.push(BodyEntry { generation: 0, body: Body::Articulated(mb) });
        BodyHandle { index: idx, generation: 0 }
    }

    /// Shared access to the multibody under `h`; `LinkNotFound` when the
    /// handle is stale, unknown, or addresses the static body.
    pub fn multibody(&self, h: BodyHandle) -> (r: Result<&Multibody, PhysicsError>)
        ensures
            match r {
                Result::Ok(mb) => is_articulated(self, h) && mb.links@ == links_of(self, h),
                Result::Err(e) => e == PhysicsError::LinkNotFound && !is_articulated(self, h),
            },
    {
        if h.index >= self.entries.len() {
            return Err(PhysicsError::LinkNotFound);
        }
        let e = &self.entries[h.index];
        if e.generation != h.generation {
            return Err(PhysicsError::LinkNotFound);
        }
        match &e.body {
            Body::Articulated(mb) => Ok(mb),
            Body::Static => Err(PhysicsError::LinkNotFound),
        }
    }

    /// The world pose of one link, read from the already-computed state;
    /// `LinkNotFound` on a stale handle or an out-of-range index.
    pub fn link_world_pose(&self, h: BodyHandle, index: usize) -> (r: Result<Pose, PhysicsError>)
        ensures
            match r {
                Result::Ok(p) => is_articulated(self, h) && index < links_of(self, h).len() && p
                    == links_of(self, h)[index as int].pose,
                Result::Err(e) => e == PhysicsError::LinkNotFound && (!is_articulated(self, h)
                    || index >= links_of(self, h).len()),
            },
    {
        let mb = match self.multibody(h) {
            Ok(mb) => mb,
            Err(e) => {
                return Err(e);
            },
        };
        match mb.link(index) {
            Ok(l) => Ok(l.pose),
            Err(e) => Err(e),
        }
    }

    /// Advance the multibody under `h` one timestep of the mechanical
    /// world; `LinkNotFound` when the handle is stale or static.
    pub fn step_body(&mut self, h: BodyHandle, cs: &ColliderStore, gravity: Vec3Fx, dt: i64) -> (r:
        Result<(), PhysicsError>)
        requires
            store_wf(old(self)),
            colliders_wf(cs),
            v3_in_range(gravity),
            crate::fx::fx_in_range(dt),
            dt >= 0,
        ensures
            store_wf(final(self)),
            final(self).entries@.len() == old(self).entries@.len(),
            forall|i: int|
                0 <= i < old(self).entries@.len() && i != h.index ==> #[trigger] final(self).entries@[i] == old(self).entries@[i],
            h.index < old(self).entries@.len() ==> final(self).entries@[h.index as int].generation
                == old(self).entries@[h.index as int].generation,
            match r {
                Result::Ok(_) => {
                    &&& is_articulated(old(self), h)
                    &&& is_articulated(final(self), h)
                    &&& links_of(final(self), h).len() == links_of(old(self), h).len()
                    &&& crate::multibody::poses_current(links_of(final(self), h))
                    &&& forall|i: int|
                        0 <= i < links_of(old(self), h).len() ==> {
                            let l1 = #[trigger] links_of(final(self), h)[i];
                            let l0 = links_of(old(self), h)[i];
                            l1.parent == l0.parent && l1.shift == l0.shift && l1.name == l0.name
                                && l1.joint == crate::world::s_joint_after_step(
                                l0.joint,
                                gravity,
                                dt,
                                crate::detect::s_any_ground_contact(
                                    cs.colliders@,
                                    h,
                                    links_of(old(self), h),
                                ),
                                crate::world::s_link_inertia(cs.colliders@, h, i),
                            )
                        }
                },
                Result::Err(e) => e == PhysicsError::LinkNotFound && !is_articulated(old(self), h)
                    && final(self).entries@ == old(self).entries@,
            },
    {
        if h.index >= self.entries.len() {
            return Err(PhysicsError::LinkNotFound);
        }
        let e = &mut self.entries[h.index];
        if e.generation != h.generation {
            return Err(PhysicsError::LinkNotFound);
        }
        match &mut e.body {
            Body::Articulated(mb) => {
                crate::world::step_multibody(mb, cs, h, gravity, dt);
                Ok(())
            },
            Body::Static => Err(PhysicsError::LinkNotFound),
        }
    }

    /// Set the motor torque bound of one joint of the body under `h`.
    pub fn set_link_max_motor_torque(&mut self, h: BodyHandle, index: usize, torque: i64) -> (r:
        Result<(), PhysicsError>)
        requires
            store_wf(old(self)),
            crate::fx::fx_in_range(torque),
        ensures
            store_wf(final(self)),
            final(self).entries@.len() == old(self).entries@.len(),
            forall|i: int|
                0 <= i < old(self).entries@.len() && i != h.index ==> #[trigger] final(self).entries@[i] == old(self).entries@[i],
            h.index < old(self).entries@.len() ==> final(self).entries@[h.index as int].generation
                == old(self).entries@[h.index as int].generation,
            is_articulated(old(self), h) <==> is_articulated(final(self), h),
            match r {
                Result::Ok(_) => {
                    &&& is_articulated(old(self), h)
                    &&& index < links_of(old(self), h).len()
                    &&& links_of(old(self), h)[index as int].joint is Revolute
                    &&& links_of(final(self), h) == links_of(old(self), h).update(
                        index as int,
                        (crate::multibody::Link {
                            joint: crate::multibody::motor_torque_updated(
                                links_of(old(self), h)[index as int].joint,
                                torque,
                            ),
                            ..links_of(old(self), h)[index as int]
                        }),
                    )
                },
                Result::Err(e) => (is_articulated(old(self), h) ==> links_of(final(self), h)
                    == links_of(old(self), h)) && ((e == PhysicsError::LinkNotFound && (
                    !is_articulated(old(self), h) || index >= links_of(old(self), h).len())) || (e
                    == PhysicsError::InvalidJointKind && is_articulated(old(self), h) && index
                    < links_of(old(self), h).len() && !(links_of(old(self), h)[index as int].joint
                    is Revolute))),
            },
    {
        if h.index >= self.entries.len() {
            return Err(PhysicsError::LinkNotFound);
        }
        let e = &mut self.entries[h.index];
        if e.generation != h.generation {
            return Err(PhysicsError::LinkNotFound);
        }
        match &mut e.body {
            Body::Articulated(mb) => mb.set_link_max_motor_torque(index, torque),
            Body::Static => Err(PhysicsError::LinkNotFound),
        }
    }

    /// Set the motor target velocity of one joint of the body under `h`.
    pub fn set_link_desired_motor_velocity(&mut self, h: BodyHandle, index: usize, speed: i64) -> (r:
        Result<(), PhysicsError>)
        requires
            store_wf(old(self)),
            crate::fx::fx_in_range(speed),
        ensures
            store_wf(final(self)),
            final(self).entries@.len() == old(self).entries@.len(),
            forall|i: int|
                0 <= i < old(self).entries@.len() && i != h.index ==> #[trigger] final(self).entries@[i] == old(self).entries@[i],
            h.index < old(self).entries@.len() ==> final(self).entries@[h.index as int].generation
                == old(self).entries@[h.index as int].generation,
            is_articulated(old(self), h) <==> is_articulated(final(self), h),
            match r {
                Result::Ok(_) => {
                    &&& is_articulated(old(self), h)
                    &&& index < links_of(old(self), h).len()
                    &&& links_of(old(self), h)[index as int].joint is Revolute
                    &&& links_of(final(self), h) == links_of(old(self), h).update(
                        index as int,
                        (crate::multibody::Link {
                            joint: crate::multibody::motor_velocity_updated(
                                links_of(old(self), h)[index as int].joint,
                                speed,
                            ),
                            ..links_of(old(self), h)[index as int]
                        }),
                    )
                },
                Result::Err(e) => (is_articulated(old(self), h) ==> links_of(final(self), h)
                    == links_of(old(self), h)) && ((e == PhysicsError::LinkNotFound && (
                    !is_articulated(old(self), h) || index >= links_of(old(self), h).len())) || (e
                    == PhysicsError::InvalidJointKind && is_articulated(old(self), h) && index
                    < links_of(old(self), h).len() && !(links_of(old(self), h)[index as int].joint
                    is Revolute))),
            },
    {
        if h.index >= self.entries.len() {
            return Err(PhysicsError::LinkNotFound);
        }
        let e = &mut self.entries[h.index];
        if e.generation != h.generation {
            return Err(PhysicsError::LinkNotFound);
        }
        match &mut e.body {
            Body::Articulated(mb) => mb.set_link_desired_motor_velocity(index, speed),
            Body::Static => Err(PhysicsError::LinkNotFound),
        }
    }
}

} // verus!
