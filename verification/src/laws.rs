//! The engine's laws: properties of a step that hold for every state the
//! other modules can produce, proved once here over the stepping and
//! kinematics specifications.

use vstd::prelude::*;

use vstd::arithmetic::mul::lemma_mul_inequality;

use crate::fx::abs_int;
use crate::fx::fx_in_range;
use crate::fx::lemma_s_add_zero;
use crate::fx::lemma_s_mul_zero;
use crate::fx::s_add;
use crate::fx::s_div;
use crate::fx::s_mul;
use crate::fx::s_neg;
use crate::fx::s_sub;
use crate::fx::s_clamp;
use crate::joint::joint_wf;
use crate::joint::motor_wf;
use crate::joint::Joint;
use crate::joint::RevoluteState;
use crate::linalg::lemma_compose_identity_right;
use crate::linalg::lemma_qmul_identity_right;
use crate::linalg::lemma_qrot_identity;
use crate::linalg::q_identity;
use crate::linalg::s_vadd;
use crate::linalg::v3_in_range;
use crate::linalg::v3_zero;
use crate::linalg::Vec3Fx;
use crate::multibody::lemma_frame_in_range;
use crate::multibody::lemma_pose_congruent_local;
use crate::multibody::link_in_range;
use crate::multibody::links_wf;
use crate::multibody::parent_of;
use crate::multibody::s_joint_frame;
use crate::multibody::s_link_pose;
use crate::multibody::Link;
use crate::shape::Collider;
use crate::store::BodyHandle;
use crate::detect::s_any_ground_contact;
use crate::world::s_joint_after_step;
use crate::world::s_link_inertia;
use crate::world::s_motor_new_velocity;

verus! {

/// A zero timestep moves no generalized coordinate that poses depend on:
/// each joint's local pose is exactly what it was.
pub proof fn lemma_local_pose_zero_dt(j: Joint, gravity: Vec3Fx, contact: bool, inertia: i64)
    requires
        joint_wf(j),
        v3_in_range(gravity),
    ensures
        crate::joint::s_local_pose(s_joint_after_step(j, gravity, 0, contact, inertia))
            == crate::joint::s_local_pose(j),
{
    match j {
        Joint::Free(f) => {
            let v2 = crate::world::s_root_vel_after(f.lin_vel, gravity, 0, contact);
            lemma_s_mul_zero(gravity.x);
            lemma_s_mul_zero(gravity.y);
            lemma_s_mul_zero(gravity.z);
            lemma_s_add_zero(f.lin_vel.x);
            lemma_s_add_zero(f.lin_vel.y);
            lemma_s_add_zero(f.lin_vel.z);
            lemma_s_mul_zero(v2.x);
            lemma_s_mul_zero(v2.y);
            lemma_s_mul_zero(v2.z);
            lemma_s_add_zero(f.position.x);
            lemma_s_add_zero(f.position.y);
            lemma_s_add_zero(f.position.z);
            lemma_s_mul_zero(f.ang_vel.x);
            lemma_s_mul_zero(f.ang_vel.y);
            lemma_s_mul_zero(f.ang_vel.z);
            lemma_s_mul_zero(crate::fx::HALF);
            assert(crate::world::s_small_angle_quat(f.ang_vel, 0) == q_identity());
            lemma_qmul_identity_right(f.orientation);
        },
        Joint::Fixed => {},
        Joint::Revolute(rs) => {
            let v2 = s_motor_new_velocity(rs, 0, inertia);
            lemma_s_mul_zero(v2);
            lemma_s_add_zero(rs.angle);
        },
    }
}

/// Idempotence at a zero timestep: a step that integrates over no time
/// leaves every link's world pose exactly unchanged (velocities may still
/// be projected by the solver, but no position moves).
pub proof fn lemma_step_zero_dt_preserves_poses(
    pre: Seq<Link>,
    post: Seq<Link>,
    cs: Seq<Collider>,
    body: BodyHandle,
    gravity: Vec3Fx,
)
    requires
        links_wf(pre),
        links_wf(post),
        post.len() == pre.len(),
        v3_in_range(gravity),
        forall|i: int|
            0 <= i < pre.len() ==> (#[trigger] post[i]).parent == pre[i].parent && post[i].shift
                == pre[i].shift && post[i].joint == s_joint_after_step(
                pre[i].joint,
                gravity,
                0,
                s_any_ground_contact(cs, body, pre),
                s_link_inertia(cs, body, i),
            ),
    ensures
        forall|i: int|
            0 <= i < pre.len() ==> s_link_pose(post, i) == s_link_pose(pre, i),
{
    assert forall|j: int|
        0 <= j < pre.len() implies (#[trigger] post[j]).parent == pre[j].parent && post[j].shift
        == pre[j].shift && crate::joint::s_local_pose(post[j].joint) == crate::joint::s_local_pose(
        pre[j].joint,
    ) by {
        assert(link_in_range(pre[j]));
        lemma_local_pose_zero_dt(
            pre[j].joint,
            gravity,
            s_any_ground_contact(cs, body, pre),
            s_link_inertia(cs, body, j),
        );
    }
    assert forall|i: int|
        0 <= i < pre.len() implies s_link_pose(post, i) == s_link_pose(pre, i) by {
        lemma_pose_congruent_local(pre, post, i);
    }
}

/// Motor bound, lower side: a zero torque bound produces exactly zero
/// change in the joint's angular velocity, whatever the target velocity.
pub proof fn lemma_motor_zero_torque(rs: RevoluteState, dt: i64, inertia: i64)
    requires
        motor_wf(rs.motor),
        fx_in_range(rs.velocity),
        fx_in_range(dt),
        dt >= 0,
        rs.motor.max_torque == 0,
    ensures
        s_motor_new_velocity(rs, dt, inertia) == rs.velocity,
{
    if rs.motor.enabled && inertia > 0 {
        lemma_s_mul_zero(dt);
        assert(s_mul(0, dt) == 0);
        assert(abs_int(0 * (crate::fx::SCALE as int)) == 0) by (nonlinear_arith);
        vstd::arithmetic::div_mod::lemma_div_of0(abs_int(inertia as int));
        assert(s_div(0, inertia) == 0);
        lemma_s_add_zero(rs.velocity);
    }
}

/// Motor bound, upper side: when the torque bound over one step covers
/// the whole velocity gap, the motor reaches its target velocity exactly.
pub proof fn lemma_motor_reaches_target(rs: RevoluteState, dt: i64, inertia: i64)
    requires
        motor_wf(rs.motor),
        fx_in_range(rs.velocity),
        fx_in_range(dt),
        dt >= 0,
        rs.motor.enabled,
        inertia > 0,
        fx_in_range((rs.motor.desired_velocity - rs.velocity) as i64),
        s_div(s_mul(rs.motor.max_torque, dt), inertia) >= abs_int(
            rs.motor.desired_velocity - rs.velocity,
        ),
    ensures
        s_motor_new_velocity(rs, dt, inertia) == rs.motor.desired_velocity,
{
    let dv = s_sub(rs.motor.desired_velocity, rs.velocity);
    assert(dv == rs.motor.desired_velocity - rs.velocity);
    let limit = s_div(s_mul(rs.motor.max_torque, dt), inertia);
    assert(s_clamp(dv, s_neg(limit), limit) == dv);
    assert(s_add(rs.velocity, dv) == rs.motor.desired_velocity);
}

/// Fixed joint rigidity: a link on a fixed joint shares its parent's
/// joint frame exactly, so the two poses carry one rotation and, while
/// that frame is unrotated, each pose sits at the shared frame translated
/// by its own configured body shift: the relative displacement is exactly
/// the difference of the two shifts.
pub proof fn lemma_fixed_joint_rigidity(links: Seq<Link>, c: int)
    requires
        links_wf(links),
        1 <= c < links.len(),
        links[c].joint is Fixed,
    ensures
        s_joint_frame(links, c) == s_joint_frame(links, parent_of(links[c])),
        s_link_pose(links, c).rot == s_link_pose(links, parent_of(links[c])).rot,
        s_joint_frame(links, c).rot == q_identity() ==> s_link_pose(links, c).pos == s_vadd(
            s_joint_frame(links, c).pos,
            links[c].shift,
        ) && s_link_pose(links, parent_of(links[c])).pos == s_vadd(
            s_joint_frame(links, c).pos,
            links[parent_of(links[c])].shift,
        ),
{
    let p = parent_of(links[c]);
    lemma_frame_in_range(links, p);
    lemma_compose_identity_right(s_joint_frame(links, p));
    assert(s_joint_frame(links, c) == s_joint_frame(links, p));
    if s_joint_frame(links, c).rot == q_identity() {
        assert(link_in_range(links[c]));
        assert(link_in_range(links[p]));
        lemma_qrot_identity(links[c].shift);
        lemma_qrot_identity(links[p].shift);
    }
}

/// Kinetic energy of one link under a nonnegative weight standing for its
/// mass or inertia (exact integer arithmetic; no saturation).
pub open spec fn s_link_kinetic(l: Link, w: int) -> int {
    match l.joint {
        Joint::Free(f) => w * (f.lin_vel.x * f.lin_vel.x + f.lin_vel.y * f.lin_vel.y + f.lin_vel.z
            * f.lin_vel.z + f.ang_vel.x * f.ang_vel.x + f.ang_vel.y * f.ang_vel.y + f.ang_vel.z
            * f.ang_vel.z),
        Joint::Fixed => 0,
        Joint::Revolute(rs) => w * (rs.velocity * rs.velocity),
    }
}

pub open spec fn s_kinetic_energy_prefix(links: Seq<Link>, w: Seq<int>, n: int) -> int
    decreases n,
{
    if n <= 0 {
        0
    } else {
        s_kinetic_energy_prefix(links, w, n - 1) + s_link_kinetic(links[n - 1], w[n - 1])
    }
}

/// Total kinetic energy under per-link nonnegative weights.
pub open spec fn s_kinetic_energy(links: Seq<Link>, w: Seq<int>) -> int {
    s_kinetic_energy_prefix(links, w, links.len() as int)
}

/// One link's kinetic term never grows over a step taken with gravity
/// disabled and a zero motor torque bound.
proof fn lemma_link_energy_step(l0: Link, l1: Link, w: int, cs: Seq<Collider>, body: BodyHandle,
    contact: bool, inertia: i64, dt: i64)
    requires
        link_in_range(l0),
        w >= 0,
        fx_in_range(dt),
        dt >= 0,
        l1.joint == s_joint_after_step(l0.joint, v3_zero(), dt, contact, inertia),
        match l0.joint {
            Joint::Revolute(rs) => rs.motor.max_torque == 0,
            _ => true,
        },
    ensures
        s_link_kinetic(l1, w) <= s_link_kinetic(l0, w),
{
    match l0.joint {
        Joint::Free(f) => {
            lemma_s_mul_zero(dt);
            lemma_s_add_zero(f.lin_vel.x);
            lemma_s_add_zero(f.lin_vel.y);
            lemma_s_add_zero(f.lin_vel.z);
            let v2 = crate::world::s_root_vel_after(f.lin_vel, v3_zero(), dt, contact);
            assert(v2.x == f.lin_vel.x && v2.z == f.lin_vel.z);
            assert(v2.y == f.lin_vel.y || v2.y == 0);
            assert(f.lin_vel.y * f.lin_vel.y >= 0) by (nonlinear_arith);
            let sum0 = f.lin_vel.x * f.lin_vel.x + f.lin_vel.y * f.lin_vel.y + f.lin_vel.z
                * f.lin_vel.z + f.ang_vel.x * f.ang_vel.x + f.ang_vel.y * f.ang_vel.y + f.ang_vel.z
                * f.ang_vel.z;
            let sum1 = v2.x * v2.x + v2.y * v2.y + v2.z * v2.z + f.ang_vel.x * f.ang_vel.x
                + f.ang_vel.y * f.ang_vel.y + f.ang_vel.z * f.ang_vel.z;
            assert(sum1 <= sum0);
            lemma_mul_inequality(sum1, sum0, w);
            assert(sum1 * w <= sum0 * w);
            assert(w * sum1 == sum1 * w) by (nonlinear_arith);
            assert(w * sum0 == sum0 * w) by (nonlinear_arith);
        },
        Joint::Fixed => {},
        Joint::Revolute(rs) => {
            lemma_motor_zero_torque(rs, dt, inertia);
        },
    }
}

/// Conservation: with gravity disabled and every motor torque bound zero,
/// the kinetic energy of the multibody under any nonnegative mass and
/// inertia weights never increases across a step. (With gravity disabled
/// the potential term is constant, so total mechanical energy can only
/// dissipate, never grow.)
pub proof fn lemma_step_energy_nonincreasing(
    pre: Seq<Link>,
    post: Seq<Link>,
    cs: Seq<Collider>,
    body: BodyHandle,
    w: Seq<int>,
    dt: i64,
    n: int,
)
    requires
        links_wf(pre),
        post.len() == pre.len(),
        w.len() == pre.len(),
        fx_in_range(dt),
        dt >= 0,
        0 <= n <= pre.len(),
        forall|i: int| 0 <= i < w.len() ==> w[i] >= 0,
        forall|i: int|
            0 <= i < pre.len() ==> (#[trigger] post[i]).joint == s_joint_after_step(
                pre[i].joint,
                v3_zero(),
                dt,
                s_any_ground_contact(cs, body, pre),
                s_link_inertia(cs, body, i),
            ),
        forall|i: int|
            0 <= i < pre.len() ==> match (#[trigger] pre[i]).joint {
                Joint::Revolute(rs) => rs.motor.max_torque == 0,
                _ => true,
            },
    ensures
        s_kinetic_energy_prefix(post, w, n) <= s_kinetic_energy_prefix(pre, w, n),
    decreases n,
{
    if n > 0 {
        lemma_step_energy_nonincreasing(pre, post, cs, body, w, dt, n - 1);
        assert(link_in_range(pre[n - 1]));
        lemma_link_energy_step(
            pre[n - 1],
            post[n - 1],
            w[n - 1],
            cs,
            body,
            s_any_ground_contact(cs, body, pre),
            s_link_inertia(cs, body, n - 1),
            dt,
        );
    }
}

} // verus!
