//! The mechanical world: constraint assembly, velocity solve and
//! symplectic position integration.
//!
//! One `step_multibody` run is the full cycle: contact detection from the
//! current poses, gravity applied to the root's linear velocity, one
//! torque-bounded motor row per enabled revolute motor, the ground
//! non-penetration row, then semi-implicit Euler integration (velocities
//! first, positions from the updated velocities) and a forward-kinematics
//! refresh of every pose. Joint rigidity is exact by construction: the
//! engine works in reduced coordinates, so fixed and revolute joints can
//! never drift apart.

use vstd::prelude::*;

use crate::detect::any_ground_contact;
use crate::detect::s_any_ground_contact;
use crate::errors::PhysicsError;
use crate::fx::fx_add;
use crate::fx::fx_clamp;
use crate::fx::fx_div;
use crate::fx::fx_in_range;
use crate::fx::fx_mul;
use crate::fx::fx_neg;
use crate::fx::fx_sub;
use crate::fx::s_add;
use crate::fx::s_clamp;
use crate::fx::s_div;
use crate::fx::s_mul;
use crate::fx::s_neg;
use crate::fx::s_sub;
use crate::fx::HALF;
use crate::fx::SCALE;
use crate::joint::FreeState;
use crate::joint::Joint;
use crate::joint::RevoluteState;
use crate::linalg::q_in_range;
use crate::linalg::qmul;
use crate::linalg::s_qmul;
use crate::linalg::s_vadd;
use crate::linalg::s_vscale;
use crate::linalg::v3_in_range;
use crate::linalg::vadd;
use crate::linalg::vscale;
use crate::linalg::QuatFx;
use crate::linalg::Vec3Fx;
use crate::multibody::lemma_wf_after_joint_update;
use crate::multibody::links_wf;
use crate::multibody::mb_wf;
use crate::multibody::poses_current;
use crate::multibody::Link;
use crate::multibody::Multibody;
use crate::shape::colliders_wf;
use crate::shape::s_axial_inertia;
use crate::shape::axial_inertia;
use crate::shape::ColliderStore;
use crate::shape::Collider;
use crate::store::store_wf;
use crate::store::BodyHandle;
use crate::store::BodyStore;

verus! {

/// Default fixed timestep: one sixtieth of a second.
pub const DEFAULT_TIMESTEP: i64 = 16_666;

/// The stepping engine's configuration: the constant gravity field and the
/// fixed integration timestep.
pub struct MechanicalWorld {
    pub gravity: Vec3Fx,
    pub timestep: i64,
}

pub open spec fn mech_wf(w: &MechanicalWorld) -> bool {
    v3_in_range(w.gravity) && fx_in_range(w.timestep) && w.timestep > 0
}

impl MechanicalWorld {
    pub fn new(gravity: Vec3Fx) -> (r: MechanicalWorld)
        requires
            v3_in_range(gravity),
        ensures
            mech_wf(&r),
            r.gravity == gravity,
            r.timestep == DEFAULT_TIMESTEP,
    {
        MechanicalWorld { gravity, timestep: DEFAULT_TIMESTEP }
    }

    /// Replace the fixed timestep used by future steps. A non-positive
    /// timestep is rejected and the prior timestep kept; already-integrated
    /// state is never rescaled.
    pub fn set_timestep(&mut self, dt: i64) -> (r: Result<(), PhysicsError>)
        requires
            mech_wf(old(self)),
            fx_in_range(dt),
        ensures
            mech_wf(final(self)),
            final(self).gravity == old(self).gravity,
            dt > 0 ==> r is Ok && final(self).timestep == dt,
            dt <= 0 ==> r == Err::<(), PhysicsError>(PhysicsError::InvalidTimestep) && final(self).timestep == old(self).timestep,
    {
        if dt <= 0 {
            Err(PhysicsError::InvalidTimestep)
        } else {
            self.timestep = dt;
            Ok(())
        }
    }

    /// Replace the gravity field applied by future steps; the zero vector
    /// disables gravity.
    pub fn set_gravity(&mut self, gravity: Vec3Fx)
        requires
            mech_wf(old(self)),
            v3_in_range(gravity),
        ensures
            mech_wf(final(self)),
            final(self).gravity == gravity,
            final(self).timestep == old(self).timestep,
    {
        self.gravity = gravity;
    }

    /// Run one full cycle on the body under `h` with this world's gravity
    /// and timestep.
    pub fn step(&self, bodies: &mut BodyStore, cs: &ColliderStore, h: BodyHandle) -> (r: Result<
        (),
        PhysicsError,
    >)
        requires
            mech_wf(self),
            store_wf(old(bodies)),
            colliders_wf(cs),
        ensures
            store_wf(final(bodies)),
            final(bodies).entries@.len() == old(bodies).entries@.len(),
            forall|i: int|
                0 <= i < old(bodies).entries@.len() && i != h.index ==> #[trigger] final(bodies).entries@[i] == old(bodies).entries@[i],
            h.index < old(bodies).entries@.len() ==> final(bodies).entries@[h.index as int].generation == old(bodies).entries@[h.index as int].generation,
            match r {
                Result::Ok(_) => {
                    &&& crate::store::is_articulated(old(bodies), h)
                    &&& crate::store::is_articulated(final(bodies), h)
                    &&& crate::store::links_of(final(bodies), h).len() == crate::store::links_of(
                        old(bodies),
                        h,
                    ).len()
                    &&& poses_current(crate::store::links_of(final(bodies), h))
                    &&& forall|i: int|
                        0 <= i < crate::store::links_of(old(bodies), h).len() ==> {
                            let l1 = #[trigger] crate::store::links_of(final(bodies), h)[i];
                            let l0 = crate::store::links_of(old(bodies), h)[i];
                            l1.parent == l0.parent && l1.shift == l0.shift && l1.name == l0.name
                                && l1.joint == s_joint_after_step(
                                l0.joint,
                                self.gravity,
                                self.timestep,
                                s_any_ground_contact(
                                    cs.colliders@,
                                    h,
                                    crate::store::links_of(old(bodies), h),
                                ),
                                s_link_inertia(cs.colliders@, h, i),
                            )
                        }
                },
                Result::Err(e) => e == PhysicsError::LinkNotFound && !crate::store::is_articulated(
                    old(bodies),
                    h,
                ),
            },
    {
        bodies.step_body(h, cs, self.gravity, self.timestep)
    }
}

/// Rotational inertia of link `link` of body `body`: the sum of the axial
/// inertias of the first `n` colliders attached to it.
pub open spec fn s_link_inertia_prefix(cs: Seq<Collider>, body: BodyHandle, link: int, n: int) -> i64
    decreases n,
{
    if n <= 0 {
        0
    } else {
        let rest = s_link_inertia_prefix(cs, body, link, n - 1);
        if cs[n - 1].part.body == body && cs[n - 1].part.link == link {
            s_add(rest, s_axial_inertia(cs[n - 1]))
        } else {
            rest
        }
    }
}

pub open spec fn s_link_inertia(cs: Seq<Collider>, body: BodyHandle, link: int) -> i64 {
    s_link_inertia_prefix(cs, body, link, cs.len() as int)
}

/// The near-identity quaternion of one integration step of an angular
/// velocity: vector part `w * dt / 2`, scalar part one.
pub open spec fn s_small_angle_quat(w: Vec3Fx, dt: i64) -> QuatFx {
    QuatFx {
        x: s_mul(s_mul(w.x, dt), HALF),
        y: s_mul(s_mul(w.y, dt), HALF),
        z: s_mul(s_mul(w.z, dt), HALF),
        w: SCALE,
    }
}

/// The root's linear velocity after the solve: gravity applied over the
/// timestep, then the ground non-penetration row, which zeroes a downward
/// vertical velocity while a contact is active.
pub open spec fn s_root_vel_after(v: Vec3Fx, gravity: Vec3Fx, dt: i64, contact: bool) -> Vec3Fx {
    let vg = s_vadd(v, s_vscale(gravity, dt));
    if contact && vg.y < 0 {
        Vec3Fx { x: vg.x, y: 0, z: vg.z }
    } else {
        vg
    }
}

/// The motor row: drive the joint velocity toward the target, but never
/// change it by more than the torque bound times the timestep over the
/// link's inertia. A disabled motor leaves a frictionless hinge.
pub open spec fn s_motor_new_velocity(rs: RevoluteState, dt: i64, inertia: i64) -> i64 {
    if rs.motor.enabled {
        let dv = s_sub(rs.motor.desired_velocity, rs.velocity);
        if inertia > 0 {
            let limit = s_div(s_mul(rs.motor.max_torque, dt), inertia);
            s_add(rs.velocity, s_clamp(dv, s_neg(limit), limit))
        } else if rs.motor.max_torque > 0 {
            s_add(rs.velocity, dv)
        } else {
            rs.velocity
        }
    } else {
        rs.velocity
    }
}

/// One joint's generalized coordinates after a full step: velocities are
/// updated first, then positions integrate the updated velocities
/// (semi-implicit Euler).
pub open spec fn s_joint_after_step(
    j: Joint,
    gravity: Vec3Fx,
    dt: i64,
    contact: bool,
    inertia: i64,
) -> Joint {
    match j {
        Joint::Free(f) => {
            let v2 = s_root_vel_after(f.lin_vel, gravity, dt, contact);
            Joint::Free(
                FreeState {
                    position: s_vadd(f.position, s_vscale(v2, dt)),
                    orientation: s_qmul(f.orientation, s_small_angle_quat(f.ang_vel, dt)),
                    lin_vel: v2,
                    ang_vel: f.ang_vel,
                },
            )
        },
        Joint::Fixed => Joint::Fixed,
        Joint::Revolute(rs) => {
            let v2 = s_motor_new_velocity(rs, dt, inertia);
            Joint::Revolute(
                RevoluteState { angle: s_add(rs.angle, s_mul(v2, dt)), velocity: v2, ..rs },
            )
        },
    }
}

/// Sum the axial inertias of the colliders attached to one link.
pub fn link_inertia(cs: &ColliderStore, body: BodyHandle, link: usize) -> (r: i64)
    requires
        colliders_wf(cs),
    ensures
        r == s_link_inertia(cs.colliders@, body, link as int),
        fx_in_range(r),
{
    let n = cs.count();
    let mut acc: i64 = 0;
    let mut i: usize = 0;
    while i < n
        invariant
            colliders_wf(cs),
            n == cs.colliders@.len(),
            0 <= i <= n,
            acc == s_link_inertia_prefix(cs.colliders@, body, link as int, i as int),
            fx_in_range(acc),
        decreases n - i,
    {
        let c = cs.colliders[i];
        if c.part.body.index == body.index && c.part.body.generation == body.generation
            && c.part.link == link {
            proof {
                assert(c.part.body == body);
            }
            acc = fx_add(acc, axial_inertia(&c));
        }
        i = i + 1;
    }
    acc
}

pub fn small_angle_quat(w: Vec3Fx, dt: i64) -> (r: QuatFx)
    requires
        v3_in_range(w),
        fx_in_range(dt),
    ensures
        r == s_small_angle_quat(w, dt),
        q_in_range(r),
{
    QuatFx {
        x: fx_mul(fx_mul(w.x, dt), HALF),
        y: fx_mul(fx_mul(w.y, dt), HALF),
        z: fx_mul(fx_mul(w.z, dt), HALF),
        w: SCALE,
    }
}

/// Advance the multibody one timestep: detect contacts from the current
/// poses, solve velocities (gravity, motor rows, ground row), integrate
/// positions with the updated velocities, and refresh every pose by
/// forward kinematics.
#[verifier::rlimit(80)]
pub fn step_multibody(
    mb: &mut Multibody,
    cs: &ColliderStore,
    body: BodyHandle,
    gravity: Vec3Fx,
    dt: i64,
)
    requires
        mb_wf(old(mb)),
        colliders_wf(cs),
        v3_in_range(gravity),
        fx_in_range(dt),
        dt >= 0,
    ensures
        mb_wf(final(mb)),
        final(mb).links@.len() == old(mb).links@.len(),
        poses_current(final(mb).links@),
        forall|i: int|
            0 <= i < old(mb).links@.len() ==> {
                let l1 = #[trigger] final(mb).links@[i];
                let l0 = old(mb).links@[i];
                l1.parent == l0.parent && l1.shift == l0.shift && l1.name == l0.name && l1.joint
                    == s_joint_after_step(
                    l0.joint,
                    gravity,
                    dt,
                    s_any_ground_contact(cs.colliders@, body, old(mb).links@),
                    s_link_inertia(cs.colliders@, body, i),
                )
            },
{
    let ghost links0 = mb.links@;
    let contact = any_ground_contact(cs, body, mb);
    let n = mb.links.len();
    let mut i: usize = 0;
    while i < n
        invariant
            colliders_wf(cs),
            v3_in_range(gravity),
            fx_in_range(dt),
            dt >= 0,
            links_wf(links0),
            n == links0.len(),
            mb.links@.len() == n,
            0 <= i <= n,
            links_wf(mb.links@),
            contact == s_any_ground_contact(cs.colliders@, body, links0),
            forall|j: int| i <= j < n ==> #[trigger] mb.links@[j] == links0[j],
            forall|j: int|
                0 <= j < i ==> {
                    let l1 = #[trigger] mb.links@[j];
                    let l0 = links0[j];
                    l1.parent == l0.parent && l1.shift == l0.shift && l1.name == l0.name
                        && l1.pose == l0.pose && l1.joint == s_joint_after_step(
                        l0.joint,
                        gravity,
                        dt,
                        contact,
                        s_link_inertia(cs.colliders@, body, j),
                    )
                },
        decreases n - i,
    {
        let ghost pre = mb.links@;
        let l = mb.links[i];
        let newj: Joint = match l.joint {
            Joint::Free(f) => {
                let vg = vadd(f.lin_vel, vscale(gravity, dt));
                let v2 = if contact && vg.y < 0 {
                    Vec3Fx { x: vg.x, y: 0, z: vg.z }
                } else {
                    vg
                };
                Joint::Free(
                    FreeState {
                        position: vadd(f.position, vscale(v2, dt)),
                        orientation: qmul(f.orientation, small_angle_quat(f.ang_vel, dt)),
                        lin_vel: v2,
                        ang_vel: f.ang_vel,
                    },
                )
            },
            Joint::Fixed => Joint::Fixed,
            Joint::Revolute(rs) => {
                let inertia = link_inertia(cs, body, i);
                let v2 = if rs.motor.enabled {
                    let dv = fx_sub(rs.motor.desired_velocity, rs.velocity);
                    if inertia > 0 {
                        let limit = fx_div(fx_mul(rs.motor.max_torque, dt), inertia);
                        fx_add(rs.velocity, fx_clamp(dv, fx_neg(limit), limit))
                    } else if rs.motor.max_torque > 0 {
                        fx_add(rs.velocity, dv)
                    } else {
                        rs.velocity
                    }
                } else {
                    rs.velocity
                };
                Joint::Revolute(
                    RevoluteState { angle: fx_add(rs.angle, fx_mul(v2, dt)), velocity: v2, ..rs },
                )
            },
        };
        proof {
            assert(newj == s_joint_after_step(
                links0[i as int].joint,
                gravity,
                dt,
                contact,
                s_link_inertia(cs.colliders@, body, i as int),
            ));
        }
        mb.links[i] = Link { joint: newj, ..l };
        proof {
            lemma_wf_after_joint_update(pre, mb.links@, i as int);
        }
        i = i + 1;
    }
    mb.update_kinematics();
}

} // verus!
