//! Joint models: the three joint kinds and their local kinematics.
//!
//! A joint maps its generalized coordinates to a rigid transform between a
//! link and its parent. `Free` keeps all six degrees of freedom, `Fixed`
//! keeps none, `Revolute` keeps one rotation about a configured axis and may
//! carry an angular motor that drives that rotation with bounded torque.

use vstd::prelude::*;

use crate::errors::PhysicsError;
use crate::fx::fx_cos;
use crate::fx::fx_in_range;
use crate::fx::fx_mul;
use crate::fx::fx_sin;
use crate::fx::s_cos;
use crate::fx::s_mul;
use crate::fx::s_sin;
use crate::fx::HALF;
use crate::linalg::pose_identity;
use crate::linalg::pose_in_range;
use crate::linalg::q_in_range;
use crate::linalg::v3_in_range;
use crate::linalg::v3_zero;
use crate::linalg::Pose;
use crate::linalg::QuatFx;
use crate::linalg::Vec3Fx;

verus! {

/// State of the root joint: a full six-degree-of-freedom pose with its
/// linear and angular velocity, all in world coordinates.
#[derive(Clone, Copy, Debug, PartialEq, Eq, Structural)]
pub struct FreeState {
    pub position: Vec3Fx,
    pub orientation: QuatFx,
    pub lin_vel: Vec3Fx,
    pub ang_vel: Vec3Fx,
}

/// The angular motor of a revolute joint. When enabled, the solver drives
/// the joint velocity toward `desired_velocity` with torque bounded by
/// `max_torque` (never negative).
#[derive(Clone, Copy, Debug, PartialEq, Eq, Structural)]
pub struct MotorState {
    pub enabled: bool,
    pub max_torque: i64,
    pub desired_velocity: i64,
}

/// State of a revolute joint: one angle about a fixed unit axis, its
/// angular velocity, and the optional motor.
#[derive(Clone, Copy, Debug, PartialEq, Eq, Structural)]
pub struct RevoluteState {
    pub axis: Vec3Fx,
    pub angle: i64,
    pub velocity: i64,
    pub motor: MotorState,
}

#[derive(Clone, Copy, Debug, PartialEq, Eq, Structural)]
pub enum Joint {
    Free(FreeState),
    Fixed,
    Revolute(RevoluteState),
}

pub open spec fn motor_wf(m: MotorState) -> bool {
    &&& fx_in_range(m.max_torque)
    &&& m.max_torque >= 0
    &&& fx_in_range(m.desired_velocity)
}

pub open spec fn joint_wf(j: Joint) -> bool {
    match j {
        Joint::Free(f) => {
            &&& v3_in_range(f.position)
            &&& q_in_range(f.orientation)
            &&& v3_in_range(f.lin_vel)
            &&& v3_in_range(f.ang_vel)
        },
        Joint::Fixed => true,
        Joint::Revolute(r) => {
            &&& v3_in_range(r.axis)
            &&& fx_in_range(r.angle)
            &&& fx_in_range(r.velocity)
            &&& motor_wf(r.motor)
        },
    }
}

/// The quaternion of a rotation by `angle` about `axis` (a unit vector):
/// vector part `axis * sin(angle/2)`, scalar part `cos(angle/2)`.
pub open spec fn s_axis_angle(axis: Vec3Fx, angle: i64) -> QuatFx {
    let h = s_mul(angle, HALF);
    let sn = s_sin(h);
    QuatFx { x: s_mul(axis.x, sn), y: s_mul(axis.y, sn), z: s_mul(axis.z, sn), w: s_cos(h) }
}

/// The rigid transform a joint contributes between its parent's frame and
/// its own, as a function of the joint's generalized coordinates.
pub open spec fn s_local_pose(j: Joint) -> Pose {
    match j {
        Joint::Free(f) => Pose { pos: f.position, rot: f.orientation },
        Joint::Fixed => pose_identity(),
        Joint::Revolute(r) => Pose { pos: v3_zero(), rot: s_axis_angle(r.axis, r.angle) },
    }
}

/// A rotation by a zero angle about any axis is the identity, exactly.
pub proof fn lemma_axis_angle_zero(axis: Vec3Fx)
    ensures
        s_axis_angle(axis, 0) == crate::linalg::q_identity(),
{
    crate::fx::lemma_s_mul_zero(HALF);
    crate::fx::lemma_trig_zero();
    crate::fx::lemma_s_mul_zero(axis.x);
    crate::fx::lemma_s_mul_zero(axis.y);
    crate::fx::lemma_s_mul_zero(axis.z);
}

pub fn axis_angle(axis: Vec3Fx, angle: i64) -> (r: QuatFx)
    requires
        v3_in_range(axis),
        fx_in_range(angle),
    ensures
        r == s_axis_angle(axis, angle),
        q_in_range(r),
{
    let h = fx_mul(angle, HALF);
    let sn = fx_sin(h);
    let co = fx_cos(h);
    QuatFx { x: fx_mul(axis.x, sn), y: fx_mul(axis.y, sn), z: fx_mul(axis.z, sn), w: co }
}

impl Joint {
    /// A free joint at the given pose, at rest.
    pub fn free_at(position: Vec3Fx, orientation: QuatFx) -> (r: Joint)
        ensures
            r == Joint::Free(
                FreeState {
                    position,
                    orientation,
                    lin_vel: v3_zero(),
                    ang_vel: v3_zero(),
                },
            ),
    {
        Joint::Free(
            FreeState {
                position,
                orientation,
                lin_vel: Vec3Fx::zero(),
                ang_vel: Vec3Fx::zero(),
            },
        )
    }

    /// A revolute joint about `axis` at the given angle, at rest, with its
    /// motor disabled, no torque bound and a zero target velocity.
    pub fn revolute(axis: Vec3Fx, angle: i64) -> (r: Joint)
        ensures
            r == Joint::Revolute(
                RevoluteState {
                    axis,
                    angle,
                    velocity: 0,
                    motor: MotorState { enabled: false, max_torque: 0, desired_velocity: 0 },
                },
            ),
    {
        Joint::Revolute(
            RevoluteState {
                axis,
                angle,
                velocity: 0,
                motor: MotorState { enabled: false, max_torque: 0, desired_velocity: 0 },
            },
        )
    }

    /// How many of the six relative degrees of freedom the joint keeps.
    pub fn degrees_of_freedom(&self) -> (r: usize)
        ensures
            r == match *self {
                Joint::Free(_) => 6usize,
                Joint::Fixed => 0usize,
                Joint::Revolute(_) => 1usize,
            },
    {
        match self {
            Joint::Free(_) => 6,
            Joint::Fixed => 0,
            Joint::Revolute(_) => 1,
        }
    }

    /// How many constraint rows the joint hands the solver: one per removed
    /// degree of freedom, plus one motor row when an enabled motor is
    /// present.
    pub fn constraint_rows(&self) -> (r: usize)
        ensures
            r == match *self {
                Joint::Free(_) => 0usize,
                Joint::Fixed => 6usize,
                Joint::Revolute(rs) => if rs.motor.enabled {
                    6usize
                } else {
                    5usize
                },
            },
    {
        match self {
            Joint::Free(_) => 0,
            Joint::Fixed => 6,
            Joint::Revolute(rs) => if rs.motor.enabled {
                6
            } else {
                5
            },
        }
    }

    /// The transform the joint's current coordinates produce.
    pub fn local_pose(&self) -> (r: Pose)
        requires
            joint_wf(*self),
        ensures
            r == s_local_pose(*self),
            pose_in_range(r),
    {
        match self {
            Joint::Free(f) => Pose { pos: f.position, rot: f.orientation },
            Joint::Fixed => Pose::identity(),
            Joint::Revolute(r) => Pose { pos: Vec3Fx::zero(), rot: axis_angle(r.axis, r.angle) },
        }
    }

    /// Switch the angular motor on or off; only a revolute joint has one.
    pub fn set_motor_enabled(&mut self, on: bool) -> (r: Result<(), PhysicsError>)
        ensures
            match *old(self) {
                Joint::Revolute(rs) => r is Ok && *final(self) == Joint::Revolute(
                    (RevoluteState { motor: (MotorState { enabled: on, ..rs.motor }), ..rs }),
                ),
                _ => r == Err::<(), PhysicsError>(PhysicsError::InvalidJointKind) && *final(self)
                    == *old(self),
            },
    {
        match self {
            Joint::Revolute(rs) => {
                rs.motor.enabled = on;
                Ok(())
            },
            _ => Err(PhysicsError::InvalidJointKind),
        }
    }

    /// Set the motor's torque bound; a negative bound is clamped to zero.
    pub fn set_max_motor_torque(&mut self, torque: i64) -> (r: Result<(), PhysicsError>)
        requires
            fx_in_range(torque),
        ensures
            match *old(self) {
                Joint::Revolute(rs) => r is Ok && *final(self) == Joint::Revolute(
                    (RevoluteState {
                        motor: (MotorState {
                            max_torque: if torque < 0 {
                                0
                            } else {
                                torque
                            },
                            ..rs.motor
                        }),
                        ..rs
                    }),
                ),
                _ => r == Err::<(), PhysicsError>(PhysicsError::InvalidJointKind) && *final(self)
                    == *old(self),
            },
    {
        match self {
            Joint::Revolute(rs) => {
                rs.motor.max_torque = if torque < 0 {
                    0
                } else {
                    torque
                };
                Ok(())
            },
            _ => Err(PhysicsError::InvalidJointKind),
        }
    }

    /// Set the angular velocity the motor drives toward.
    pub fn set_desired_motor_velocity(&mut self, speed: i64) -> (r: Result<(), PhysicsError>)
        requires
            fx_in_range(speed),
        ensures
            match *old(self) {
                Joint::Revolute(rs) => r is Ok && *final(self) == Joint::Revolute(
                    (RevoluteState {
                        motor: (MotorState { desired_velocity: speed, ..rs.motor }),
                        ..rs
                    }),
                ),
                _ => r == Err::<(), PhysicsError>(PhysicsError::InvalidJointKind) && *final(self)
                    == *old(self),
            },
    {
        match self {
            Joint::Revolute(rs) => {
                rs.motor.desired_velocity = speed;
                Ok(())
            },
            _ => Err(PhysicsError::InvalidJointKind),
        }
    }
}

} // verus!
